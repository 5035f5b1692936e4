//! Workspace paths as plain strings, compared component by component.
//!
//! A path is split at `/`; empty segments (from repeated or trailing
//! separators) are not components. A leading `/` makes a path absolute.
use vstd::prelude::*;
use vstd::utf8::encode_utf8;

verus! {

/// The separator byte `/`.
pub const SEPARATOR: u8 = 47;

/// The bytes of a path as it is stored.
pub open spec fn path_bytes(p: Seq<char>) -> Seq<u8> {
    encode_utf8(p)
}

/// Left-to-right scan of `b`: the components finished so far and the one being read.
pub open spec fn scan_components(b: Seq<u8>) -> (Seq<Seq<u8>>, Seq<u8>)
    decreases b.len(),
{
    if b.len() == 0 {
        (Seq::empty(), Seq::empty())
    } else {
        let (done, cur) = scan_components(b.drop_last());
        if b.last() == SEPARATOR {
            if cur.len() > 0 {
                (done.push(cur), Seq::empty())
            } else {
                (done, Seq::empty())
            }
        } else {
            (done, cur.push(b.last()))
        }
    }
}

/// The non-empty segments of `b` between separators, in order.
pub open spec fn components(b: Seq<u8>) -> Seq<Seq<u8>> {
    let (done, cur) = scan_components(b);
    if cur.len() > 0 {
        done.push(cur)
    } else {
        done
    }
}

pub open spec fn is_absolute(b: Seq<u8>) -> bool {
    b.len() > 0 && b[0] == SEPARATOR
}

/// `root` is a leading part of `path`, compared component by component.
pub open spec fn within(path: Seq<u8>, root: Seq<u8>) -> bool {
    let pc = components(path);
    let rc = components(root);
    &&& is_absolute(path) == is_absolute(root)
    &&& rc.len() <= pc.len()
    &&& pc.subrange(0, rc.len() as int) == rc
}

/// How many components a path has, the root of an absolute path counting as one.
pub open spec fn depth(b: Seq<u8>) -> nat {
    components(b).len() + if is_absolute(b) { 1nat } else { 0nat }
}

pub open spec fn spec_path_within(path: Seq<char>, root: Seq<char>) -> bool {
    within(path_bytes(path), path_bytes(root))
}

pub open spec fn spec_path_depth(p: Seq<char>) -> nat {
    depth(path_bytes(p))
}

/// The components of `b`, each as its bytes.
pub fn split_components(b: &[u8]) -> (r: Vec<Vec<u8>>)
    ensures
        r@.map_values(|c: Vec<u8>| c@) == components(b@),
{
    let mut done: Vec<Vec<u8>> = Vec::new();
    let mut cur: Vec<u8> = Vec::new();
    let mut i: usize = 0;
    while i < b.len()
        invariant
            i <= b@.len(),
            (done@.map_values(|c: Vec<u8>| c@), cur@) == scan_components(b@.subrange(0, i as int)),
        decreases b@.len() - i,
    {
        proof {
            assert(b@.subrange(0, i as int + 1).drop_last() == b@.subrange(0, i as int));
        }
        let ghost prev = done@;
        if b[i] == SEPARATOR {
            if cur.len() > 0 {
                done.push(cur);
                proof {
                    assert(done@.map_values(|c: Vec<u8>| c@) == prev.map_values(|c: Vec<u8>| c@).push(
                        done@.last()@,
                    ));
                }
                cur = Vec::new();
            }
        } else {
            cur.push(b[i]);
        }
        i = i + 1;
    }
    proof {
        assert(b@.subrange(0, b@.len() as int) == b@);
    }
    if cur.len() > 0 {
        let ghost prev = done@;
        done.push(cur);
        proof {
            assert(done@.map_values(|c: Vec<u8>| c@) == prev.map_values(|c: Vec<u8>| c@).push(
                done@.last()@,
            ));
        }
    }
    done
}

fn same_bytes(a: &Vec<u8>, b: &Vec<u8>) -> (r: bool)
    ensures
        r == (a@ == b@),
{
    if a.len() != b.len() {
        return false;
    }
    let mut i: usize = 0;
    while i < a.len()
        invariant
            a@.len() == b@.len(),
            i <= a@.len(),
            forall|j: int| 0 <= j < i ==> a@[j] == b@[j],
        decreases a@.len() - i,
    {
        if a[i] != b[i] {
            return false;
        }
        i = i + 1;
    }
    proof {
        assert(a@ =~= b@);
    }
    true
}

/// Whether `path` lies at or below `root`, component by component.
pub fn path_within(path: &str, root: &str) -> (r: bool)
    ensures
        r == spec_path_within(path@, root@),
{
    let pb = path.as_bytes();
    let rb = root.as_bytes();
    let path_abs = pb.len() > 0 && pb[0] == SEPARATOR;
    let root_abs = rb.len() > 0 && rb[0] == SEPARATOR;
    if path_abs != root_abs {
        return false;
    }
    let pc = split_components(pb);
    let rc = split_components(rb);
    let ghost pv = pc@.map_values(|c: Vec<u8>| c@);
    let ghost rv = rc@.map_values(|c: Vec<u8>| c@);
    assert(pv.len() == pc@.len() && rv.len() == rc@.len());
    assert(pv == components(path_bytes(path@)));
    assert(rv == components(path_bytes(root@)));
    if rc.len() > pc.len() {
        return false;
    }
    let mut i: usize = 0;
    while i < rc.len()
        invariant
            rc@.len() <= pc@.len(),
            i <= rc@.len(),
            pv == pc@.map_values(|c: Vec<u8>| c@),
            rv == rc@.map_values(|c: Vec<u8>| c@),
            pv == components(path_bytes(path@)),
            rv == components(path_bytes(root@)),
            is_absolute(path_bytes(path@)) == is_absolute(path_bytes(root@)),
            forall|j: int| 0 <= j < i ==> pv[j] == rv[j],
        decreases rc@.len() - i,
    {
        if !same_bytes(&pc[i], &rc[i]) {
            assert(pv.subrange(0, rv.len() as int)[i as int] != rv[i as int]);
            return false;
        }
        i = i + 1;
    }
    assert(pv.subrange(0, rv.len() as int) =~= rv);
    true
}

/// The number of components of `p`, the root of an absolute path counting as one.
pub fn path_depth(p: &str) -> (r: usize)
    ensures
        r == spec_path_depth(p@),
{
    let b = p.as_bytes();
    let c = split_components(b);
    proof {
        assert(2 * c@.len() <= b@.len() + 1) by {
            lemma_components_len(b@);
        }
    }
    if b.len() > 0 && b[0] == SEPARATOR {
        c.len() + 1
    } else {
        c.len()
    }
}

proof fn lemma_scan_len(b: Seq<u8>)
    ensures
        2 * scan_components(b).0.len() + scan_components(b).1.len() <= b.len(),
    decreases b.len(),
{
    if b.len() > 0 {
        lemma_scan_len(b.drop_last());
    }
}

proof fn lemma_components_len(b: Seq<u8>)
    ensures
        2 * components(b).len() <= b.len() + 1,
{
    lemma_scan_len(b);
}

} // verus!
