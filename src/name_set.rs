//! Ordered sets of package names, held in an `indexmap::IndexSet`.
use indexmap::IndexSet;
use vstd::prelude::*;

verus! {

#[verifier::external_type_specification]
#[verifier::external_body]
#[verifier::reject_recursive_types(T)]
#[verifier::reject_recursive_types(S)]
pub struct ExIndexSet<T, S>(IndexSet<T, S>);

/// The names an ordered set holds, in the order they were first inserted.
pub uninterp spec fn set_names(s: IndexSet<String>) -> Seq<Seq<char>>;

/// Relies on `IndexSet::new`: the new set is empty.
#[verifier::external_body]
pub(crate) fn new_name_set() -> (r: IndexSet<String>)
    ensures
        set_names(r) == Seq::<Seq<char>>::empty(),
{
    IndexSet::new()
}

/// Relies on `IndexSet::insert`: a name not yet held is appended at the end and
/// `true` returned; a name already held leaves the set as it was and gives `false`.
/// `String`'s equality and hash go by the characters.
#[verifier::external_body]
pub(crate) fn name_set_insert(s: &mut IndexSet<String>, name: String) -> (r: bool)
    ensures
        r == !set_names(*old(s)).contains(name@),
        set_names(*final(s)) == if r {
            set_names(*old(s)).push(name@)
        } else {
            set_names(*old(s))
        },
{
    s.insert(name)
}

/// Relies on `IndexSet::contains`: whether an equal name is held.
#[verifier::external_body]
pub(crate) fn name_set_contains(s: &IndexSet<String>, name: &str) -> (r: bool)
    ensures
        r == set_names(*s).contains(name@),
{
    s.contains(name)
}

/// Relies on `IndexSet::iter`: it walks the names in insertion order.
#[verifier::external_body]
pub(crate) fn name_set_to_vec(s: &IndexSet<String>) -> (r: Vec<String>)
    ensures
        r@.map_values(|x: String| x@) == set_names(*s),
{
    s.iter().cloned().collect()
}

/// Keeps the first occurrence of each element, in order of first occurrence.
pub open spec fn first_seen<A>(s: Seq<A>) -> Seq<A>
    decreases s.len(),
{
    if s.len() == 0 {
        Seq::empty()
    } else {
        let d = first_seen(s.drop_last());
        if d.contains(s.last()) {
            d
        } else {
            d.push(s.last())
        }
    }
}

pub proof fn lemma_first_seen_contains<A>(s: Seq<A>, x: A)
    ensures
        first_seen(s).contains(x) <==> s.contains(x),
    decreases s.len(),
{
    if s.len() > 0 {
        lemma_first_seen_contains(s.drop_last(), x);
        if s.drop_last().contains(x) {
            let j = choose|j: int| 0 <= j < s.drop_last().len() && s.drop_last()[j] == x;
            assert(s[j] == x);
        }
        if s.contains(x) && x != s.last() {
            let j = choose|j: int| 0 <= j < s.len() && s[j] == x;
            assert(s.drop_last()[j] == x);
        }
        assert(s[s.len() - 1] == s.last());
        let d = first_seen(s.drop_last());
        if !d.contains(s.last()) {
            assert(d.push(s.last())[d.len() as int] == s.last());
            if d.contains(x) {
                let j = choose|j: int| 0 <= j < d.len() && d[j] == x;
                assert(d.push(s.last())[j] == x);
            }
            if d.push(s.last()).contains(x) && x != s.last() {
                let j = choose|j: int| 0 <= j < d.len() + 1 && d.push(s.last())[j] == x;
                assert(d[j] == x);
            }
        }
    }
}

pub proof fn lemma_first_seen_push<A>(s: Seq<A>, x: A)
    ensures
        first_seen(s.push(x)) == if first_seen(s).contains(x) {
            first_seen(s)
        } else {
            first_seen(s).push(x)
        },
{
    assert(s.push(x).drop_last() =~= s);
}

pub proof fn lemma_first_seen_no_duplicates<A>(s: Seq<A>)
    ensures
        first_seen(s).no_duplicates(),
    decreases s.len(),
{
    if s.len() > 0 {
        lemma_first_seen_no_duplicates(s.drop_last());
    }
}

} // verus!
