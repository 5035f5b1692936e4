//! The packages of a workspace: which one owns a changed file, and which
//! depend directly on a changed one.
use indexmap::IndexSet;
use vstd::prelude::*;

use crate::error::AppError;
use crate::name_set::{
    first_seen, lemma_first_seen_contains, lemma_first_seen_push, name_set_contains, name_set_insert, new_name_set,
    set_names,
};
use crate::paths::{path_depth, path_within, spec_path_depth, spec_path_within};
use crate::vcs::ChangedFile;

verus! {

/// One package of the workspace and the directory that holds its manifest.
#[derive(Debug, Clone, PartialEq, Eq, Hash)]
pub struct CrateInfo {
    pub name: String,
    pub path: String,
}

/// The packages of a workspace, each with its directory.
#[derive(Debug, Clone)]
pub struct Crates(pub Vec<CrateInfo>);

/// A package as the workspace graph describes it: its name, its directory
/// and the names of its direct dependencies.
#[derive(Debug, Clone, PartialEq, Eq)]
pub struct PackageMetadata {
    pub name: String,
    pub path: String,
    pub dependencies: Vec<String>,
}

/// The workspace graph: every package with its direct dependencies.
#[derive(Debug, Clone)]
pub struct WorkspaceMetadata {
    pub packages: Vec<PackageMetadata>,
}

/// Package `i` owns `path`, and no other package that owns it lies deeper;
/// among equally deep owners the first listed wins.
pub open spec fn is_best_owner(path: Seq<char>, cs: Seq<CrateInfo>, i: int) -> bool {
    &&& 0 <= i < cs.len()
    &&& spec_path_within(path, cs[i].path@)
    &&& forall|j: int|
        0 <= j < cs.len() && spec_path_within(path, #[trigger] cs[j].path@) ==> {
            &&& spec_path_depth(cs[j].path@) <= spec_path_depth(cs[i].path@)
            &&& (j < i ==> spec_path_depth(cs[j].path@) < spec_path_depth(cs[i].path@))
        }
}

/// The name of the package that owns `path`, if any package does.
pub open spec fn owner_name(path: Seq<char>, cs: Seq<CrateInfo>) -> Option<Seq<char>> {
    if exists|i: int| is_best_owner(path, cs, i) {
        Some(cs[choose|i: int| is_best_owner(path, cs, i)].name@)
    } else {
        None
    }
}

pub open spec fn option_seq(o: Option<Seq<char>>) -> Seq<Seq<char>> {
    match o {
        Some(x) => seq![x],
        None => Seq::empty(),
    }
}

/// The owners of one changed file: that of its current path, then that of its old path.
pub open spec fn file_owners(f: ChangedFile, cs: Seq<CrateInfo>) -> Seq<Seq<char>> {
    option_seq(owner_name(f.current_path@, cs)) + match f.old_path {
        Some(p) => option_seq(owner_name(p@, cs)),
        None => Seq::empty(),
    }
}

/// The owners of all changed files, in order, repeats included.
pub open spec fn owners_of(files: Seq<ChangedFile>, cs: Seq<CrateInfo>) -> Seq<Seq<char>>
    decreases files.len(),
{
    if files.len() == 0 {
        Seq::empty()
    } else {
        owners_of(files.drop_last(), cs) + file_owners(files.last(), cs)
    }
}

/// The packages that own a changed file, each once, in order of discovery.
pub open spec fn spec_changed_crates(files: Seq<ChangedFile>, cs: Seq<CrateInfo>) -> Seq<Seq<char>> {
    first_seen(owners_of(files, cs))
}

/// Package `p` names one of `changed` among its direct dependencies.
pub open spec fn depends_on_any(p: PackageMetadata, changed: Seq<Seq<char>>) -> bool {
    exists|k: int| 0 <= k < p.dependencies.len() && changed.contains(#[trigger] p.dependencies@[k]@)
}

/// The names of the packages that depend directly on one of `changed`, in workspace order.
pub open spec fn dependents_of(pkgs: Seq<PackageMetadata>, changed: Seq<Seq<char>>) -> Seq<Seq<char>>
    decreases pkgs.len(),
{
    if pkgs.len() == 0 {
        Seq::empty()
    } else {
        let rest = dependents_of(pkgs.drop_last(), changed);
        if depends_on_any(pkgs.last(), changed) {
            rest.push(pkgs.last().name@)
        } else {
            rest
        }
    }
}

pub open spec fn has_package(pkgs: Seq<PackageMetadata>, name: Seq<char>) -> bool {
    exists|i: int| 0 <= i < pkgs.len() && #[trigger] pkgs[i].name@ == name
}

/// `names[i]` is the first name that is no package of the workspace.
pub open spec fn is_first_unknown(pkgs: Seq<PackageMetadata>, names: Seq<String>, i: int) -> bool {
    &&& 0 <= i < names.len()
    &&& !has_package(pkgs, names[i]@)
    &&& forall|j: int| 0 <= j < i ==> has_package(pkgs, #[trigger] names[j]@)
}

/// Every name is a package of the workspace.
pub open spec fn all_known(pkgs: Seq<PackageMetadata>, names: Seq<String>) -> bool {
    forall|i: int| 0 <= i < names.len() ==> has_package(pkgs, #[trigger] names[i]@)
}

/// The packages of the graph with their directories, in the graph's order.
pub fn get_workspace_crates(metadata: &WorkspaceMetadata) -> (r: Crates)
    ensures
        r.0@.len() == metadata.packages@.len(),
        forall|i: int|
            0 <= i < r.0@.len() ==> #[trigger] r.0@[i].name@ == metadata.packages@[i].name@
                && r.0@[i].path@ == metadata.packages@[i].path@,
{
    let mut out: Vec<CrateInfo> = Vec::new();
    let mut i: usize = 0;
    while i < metadata.packages.len()
        invariant
            i <= metadata.packages@.len(),
            out@.len() == i,
            forall|k: int|
                0 <= k < i ==> #[trigger] out@[k].name@ == metadata.packages@[k].name@
                    && out@[k].path@ == metadata.packages@[k].path@,
        decreases metadata.packages@.len() - i,
    {
        let p = &metadata.packages[i];
        out.push(CrateInfo { name: p.name.clone(), path: p.path.clone() });
        i = i + 1;
    }
    Crates(out)
}

/// The package that owns `file_path`: the one whose directory holds it and lies
/// deepest; `None` where no package's directory holds it.
pub fn find_crate_for_file<'a>(file_path: &str, crates: &'a Crates) -> (r: Option<&'a CrateInfo>)
    ensures
        match r {
            None => forall|j: int|
                0 <= j < crates.0@.len() ==> !spec_path_within(file_path@, #[trigger] crates.0@[j].path@),
            Some(c) => exists|i: int| is_best_owner(file_path@, crates.0@, i) && *c == crates.0@[i],
        },
{
    let cs = &crates.0;
    let mut best: Option<usize> = None;
    let mut best_depth: usize = 0;
    let mut i: usize = 0;
    while i < cs.len()
        invariant
            i <= cs@.len(),
            match best {
                None => forall|j: int|
                    0 <= j < i ==> !spec_path_within(file_path@, #[trigger] cs@[j].path@),
                Some(b) => {
                    &&& b < i
                    &&& spec_path_within(file_path@, cs@[b as int].path@)
                    &&& best_depth == spec_path_depth(cs@[b as int].path@)
                    &&& forall|j: int|
                        0 <= j < i && spec_path_within(file_path@, #[trigger] cs@[j].path@) ==> {
                            &&& spec_path_depth(cs@[j].path@) <= best_depth
                            &&& (j < b ==> spec_path_depth(cs@[j].path@) < best_depth)
                        }
                },
            },
        decreases cs@.len() - i,
    {
        if path_within(file_path, cs[i].path.as_str()) {
            let d = path_depth(cs[i].path.as_str());
            if best.is_none() || d > best_depth {
                best = Some(i);
                best_depth = d;
            }
        }
        i = i + 1;
    }
    match best {
        None => None,
        Some(b) => {
            assert(is_best_owner(file_path@, cs@, b as int));
            Some(&cs[b])
        },
    }
}

proof fn lemma_best_owner_unique(path: Seq<char>, cs: Seq<CrateInfo>, i: int, j: int)
    requires
        is_best_owner(path, cs, i),
        is_best_owner(path, cs, j),
    ensures
        i == j,
{
}

/// What `find_crate_for_file` returns, read as the owner's name.
proof fn lemma_owner_name(path: Seq<char>, cs: Seq<CrateInfo>, r: Option<CrateInfo>)
    requires
        match r {
            None => forall|j: int| 0 <= j < cs.len() ==> !spec_path_within(path, #[trigger] cs[j].path@),
            Some(c) => exists|i: int| is_best_owner(path, cs, i) && c == cs[i],
        },
    ensures
        owner_name(path, cs) == match r {
            None => None::<Seq<char>>,
            Some(c) => Some(c.name@),
        },
{
    match r {
        None => {
            if exists|i: int| is_best_owner(path, cs, i) {
                let i = choose|i: int| is_best_owner(path, cs, i);
                assert(spec_path_within(path, cs[i].path@));
            }
        },
        Some(c) => {
            let i = choose|i: int| is_best_owner(path, cs, i) && c == cs[i];
            let k = choose|k: int| is_best_owner(path, cs, k);
            lemma_best_owner_unique(path, cs, i, k);
        },
    }
}

/// The packages that own a changed file, each named once, in the order found.
/// Both the current and the old path of a renamed file count.
pub fn find_changed_crates(changed_files: &[ChangedFile], crates: &Crates) -> (r: IndexSet<String>)
    ensures
        set_names(r) == spec_changed_crates(changed_files@, crates.0@),
{
    let mut out = new_name_set();
    let mut i: usize = 0;
    while i < changed_files.len()
        invariant
            i <= changed_files@.len(),
            set_names(out) == first_seen(owners_of(changed_files@.subrange(0, i as int), crates.0@)),
        decreases changed_files@.len() - i,
    {
        let ghost before = owners_of(changed_files@.subrange(0, i as int), crates.0@);
        let change = &changed_files[i];
        proof {
            assert(changed_files@.subrange(0, i as int + 1).drop_last() =~= changed_files@.subrange(0, i as int));
            assert(changed_files@.subrange(0, i as int + 1).last() == *change);
        }
        let cur = find_crate_for_file(change.current_path.as_str(), crates);
        proof {
            lemma_owner_name(change.current_path@, crates.0@, match cur { Some(c) => Some(*c), None => None });
        }
        let ghost mid = before + option_seq(owner_name(change.current_path@, crates.0@));
        match cur {
            Some(c) => {
                name_set_insert(&mut out, c.name.clone());
                assert(mid =~= before.push(c.name@));
                proof {
                    lemma_first_seen_push(before, c.name@);
                }
            },
            None => {
                assert(mid =~= before);
            },
        }
        match &change.old_path {
            Some(old) => {
                let prev = find_crate_for_file(old.as_str(), crates);
                proof {
                    lemma_owner_name(old@, crates.0@, match prev { Some(c) => Some(*c), None => None });
                }
                match prev {
                    Some(c) => {
                        name_set_insert(&mut out, c.name.clone());
                        assert(before + file_owners(*change, crates.0@) =~= mid.push(c.name@));
                        proof {
                            lemma_first_seen_push(mid, c.name@);
                        }
                    },
                    None => {
                        assert(before + file_owners(*change, crates.0@) =~= mid);
                    },
                }
            },
            None => {
                assert(before + file_owners(*change, crates.0@) =~= mid);
            },
        }
        i = i + 1;
    }
    proof {
        assert(changed_files@.subrange(0, changed_files@.len() as int) =~= changed_files@);
    }
    out
}

/// The packages that name one of `changed_crates` among their direct dependencies,
/// each once, in workspace order. Only direct dependents count: a package that
/// depends on a dependent is not added.
pub fn find_dependent_crates(changed_crates: &IndexSet<String>, metadata: &WorkspaceMetadata) -> (r: IndexSet<String>)
    ensures
        set_names(r) == first_seen(dependents_of(metadata.packages@, set_names(*changed_crates))),
{
    let ghost changed = set_names(*changed_crates);
    let pkgs = &metadata.packages;
    let mut out = new_name_set();
    let mut i: usize = 0;
    while i < pkgs.len()
        invariant
            i <= pkgs@.len(),
            changed == set_names(*changed_crates),
            set_names(out) == first_seen(dependents_of(pkgs@.subrange(0, i as int), changed)),
        decreases pkgs@.len() - i,
    {
        let p = &pkgs[i];
        let mut hit = false;
        let mut k: usize = 0;
        while k < p.dependencies.len()
            invariant
                k <= p.dependencies@.len(),
                changed == set_names(*changed_crates),
                hit == exists|m: int| 0 <= m < k && changed.contains(#[trigger] p.dependencies@[m]@),
            decreases p.dependencies@.len() - k,
        {
            if name_set_contains(changed_crates, p.dependencies[k].as_str()) {
                hit = true;
            }
            k = k + 1;
        }
        let ghost rest = dependents_of(pkgs@.subrange(0, i as int), changed);
        proof {
            let s = pkgs@.subrange(0, i as int + 1);
            assert(s.drop_last() =~= pkgs@.subrange(0, i as int));
            assert(s.last() == *p);
            assert(hit == depends_on_any(*p, changed));
            lemma_first_seen_push(rest, p.name@);
        }
        if hit {
            name_set_insert(&mut out, p.name.clone());
        }
        i = i + 1;
    }
    proof {
        assert(pkgs@.subrange(0, pkgs@.len() as int) =~= pkgs@);
    }
    out
}

/// Checks that every name of `crates` is a package of the workspace; the first
/// one that is not is reported as unknown.
pub fn verify_crates_exist(metadata: &WorkspaceMetadata, crates: &[String]) -> (r: Result<(), AppError>)
    ensures
        r is Ok <==> all_known(metadata.packages@, crates@),
        r is Err ==> exists|i: int|
            is_first_unknown(metadata.packages@, crates@, i) && r == Err::<(), AppError>(
                AppError::UnknownCrate { crate_name: crates@[i] },
            ),
{
    let pkgs = &metadata.packages;
    let mut i: usize = 0;
    while i < crates.len()
        invariant
            i <= crates@.len(),
            pkgs@ == metadata.packages@,
            forall|j: int| 0 <= j < i ==> has_package(pkgs@, #[trigger] crates@[j]@),
        decreases crates@.len() - i,
    {
        let mut found = false;
        let mut k: usize = 0;
        while k < pkgs.len()
            invariant
                i < crates@.len(),
                k <= pkgs@.len(),
                pkgs@ == metadata.packages@,
                forall|j: int| 0 <= j < i ==> has_package(pkgs@, #[trigger] crates@[j]@),
                found == exists|m: int| 0 <= m < k && #[trigger] pkgs@[m].name@ == crates@[i as int]@,
            decreases pkgs@.len() - k,
        {
            if pkgs[k].name == crates[i] {
                found = true;
            }
            k = k + 1;
        }
        if !found {
            assert(!has_package(pkgs@, crates@[i as int]@));
            assert(is_first_unknown(metadata.packages@, crates@, i as int));
            return Err(AppError::UnknownCrate { crate_name: crates[i].clone() });
        }
        i = i + 1;
    }
    Ok(())
}

/// A file below the directories of two packages is never owned by the shallower one.
pub proof fn lemma_deeper_package_wins(path: Seq<char>, cs: Seq<CrateInfo>, shallow: int, deep: int)
    requires
        0 <= shallow < cs.len(),
        0 <= deep < cs.len(),
        spec_path_within(path, cs[shallow].path@),
        spec_path_within(path, cs[deep].path@),
        spec_path_depth(cs[shallow].path@) < spec_path_depth(cs[deep].path@),
    ensures
        !is_best_owner(path, cs, shallow),
{
}

proof fn lemma_owners_of_contains(files: Seq<ChangedFile>, cs: Seq<CrateInfo>, k: int, name: Seq<char>)
    requires
        0 <= k < files.len(),
        file_owners(files[k], cs).contains(name),
    ensures
        owners_of(files, cs).contains(name),
    decreases files.len(),
{
    let rest = owners_of(files.drop_last(), cs);
    let own = file_owners(files.last(), cs);
    assert(owners_of(files, cs) == rest + own);
    if k == files.len() - 1 {
        let j = choose|j: int| 0 <= j < own.len() && own[j] == name;
        assert((rest + own)[rest.len() + j] == name);
    } else {
        assert(files.drop_last()[k] == files[k]);
        lemma_owners_of_contains(files.drop_last(), cs, k, name);
        let j = choose|j: int| 0 <= j < rest.len() && rest[j] == name;
        assert((rest + own)[j] == name);
    }
}

/// A renamed file marks as changed both the package that owns its old path and
/// the one that owns its new path.
pub proof fn lemma_rename_marks_both(files: Seq<ChangedFile>, cs: Seq<CrateInfo>, k: int)
    requires
        0 <= k < files.len(),
        files[k].old_path is Some,
    ensures
        owner_name(files[k].current_path@, cs) matches Some(n) ==> spec_changed_crates(files, cs).contains(n),
        owner_name(files[k].old_path->Some_0@, cs) matches Some(n) ==> spec_changed_crates(files, cs).contains(n),
{
    let f = files[k];
    let a = option_seq(owner_name(f.current_path@, cs));
    let b = option_seq(owner_name(f.old_path->Some_0@, cs));
    assert(file_owners(f, cs) == a + b);
    if let Some(n) = owner_name(f.current_path@, cs) {
        assert((a + b)[0] == n);
        lemma_owners_of_contains(files, cs, k, n);
        lemma_first_seen_contains(owners_of(files, cs), n);
    }
    if let Some(n) = owner_name(f.old_path->Some_0@, cs) {
        assert((a + b)[a.len() as int] == n);
        lemma_owners_of_contains(files, cs, k, n);
        lemma_first_seen_contains(owners_of(files, cs), n);
    }
}

/// Impact is one hop: a package is a dependent exactly when one of its own
/// direct dependencies changed. Depending on a dependent does not count.
pub proof fn lemma_dependents_single_hop(pkgs: Seq<PackageMetadata>, changed: Seq<Seq<char>>, name: Seq<char>)
    ensures
        first_seen(dependents_of(pkgs, changed)).contains(name) <==> exists|i: int|
            0 <= i < pkgs.len() && #[trigger] pkgs[i].name@ == name && depends_on_any(pkgs[i], changed),
    decreases pkgs.len(),
{
    lemma_first_seen_contains(dependents_of(pkgs, changed), name);
    if pkgs.len() > 0 {
        let init = pkgs.drop_last();
        lemma_dependents_single_hop(init, changed, name);
        lemma_first_seen_contains(dependents_of(init, changed), name);
        let rest = dependents_of(init, changed);
        if exists|i: int| 0 <= i < init.len() && #[trigger] init[i].name@ == name && depends_on_any(init[i], changed) {
            let i = choose|i: int| 0 <= i < init.len() && #[trigger] init[i].name@ == name && depends_on_any(init[i], changed);
            assert(pkgs[i] == init[i]);
        }
        if exists|i: int| 0 <= i < pkgs.len() && #[trigger] pkgs[i].name@ == name && depends_on_any(pkgs[i], changed) {
            let i = choose|i: int| 0 <= i < pkgs.len() && #[trigger] pkgs[i].name@ == name && depends_on_any(pkgs[i], changed);
            if i < pkgs.len() - 1 {
                assert(init[i] == pkgs[i]);
                let j = choose|j: int| 0 <= j < rest.len() && rest[j] == name;
                if depends_on_any(pkgs.last(), changed) {
                    assert(rest.push(pkgs.last().name@)[j] == name);
                }
            } else {
                assert(rest.push(pkgs.last().name@)[rest.len() as int] == name);
            }
        }
        if depends_on_any(pkgs.last(), changed) && dependents_of(pkgs, changed).contains(name) {
            let j = choose|j: int| 0 <= j < rest.len() + 1 && rest.push(pkgs.last().name@)[j] == name;
            if j < rest.len() {
                assert(rest[j] == name);
            } else {
                assert(pkgs[pkgs.len() - 1].name@ == name);
            }
        }
    }
}

} // verus!
