//! Which packages to test, and in what order.
use indexmap::IndexSet;
use vstd::prelude::*;

use crate::error::AppError;
use crate::metadata::{
    all_known, dependents_of, find_changed_crates, find_dependent_crates, is_first_unknown,
    spec_changed_crates, verify_crates_exist, Crates, WorkspaceMetadata,
};
use crate::name_set::{
    first_seen, lemma_first_seen_contains, lemma_first_seen_no_duplicates, lemma_first_seen_push,
    name_set_insert, name_set_to_vec, new_name_set, set_names,
};

verus! {

/// Why a discovered package is tested: it owns a changed file, or it depends on one that does.
#[derive(Debug, Clone, Copy, PartialEq, Eq, Hash, Structural)]
pub enum DiscoveryType {
    Modified,
    Dependent,
}

/// A package named by the user.
#[derive(Debug, Clone, PartialEq, Eq, Hash)]
pub struct ManualTestCrate {
    pub name: String,
}

/// A package found from the changed files.
#[derive(Debug, Clone, PartialEq, Eq, Hash)]
pub struct DiscoveredTestCrate {
    pub name: String,
    pub discovery_type: DiscoveryType,
}

/// The packages of a plan, each name at most once, in the order they were found.
#[derive(Debug, Clone)]
pub enum TestCrates {
    Manual(Vec<ManualTestCrate>),
    Discovered(Vec<DiscoveredTestCrate>),
}

/// Everything a test run needs, fixed before it starts.
#[derive(Debug, Clone)]
pub struct TestPlan {
    pub workspace_root: String,
    pub crates: TestCrates,
    pub with_dependents: bool,
    pub fail_fast: bool,
    pub verbose: bool,
    pub test_runner_args: Vec<String>,
}

pub open spec fn names_of(v: Seq<String>) -> Seq<Seq<char>> {
    v.map_values(|s: String| s@)
}

pub open spec fn manual_names(v: Seq<ManualTestCrate>) -> Seq<Seq<char>> {
    v.map_values(|c: ManualTestCrate| c.name@)
}

pub open spec fn discovered_view(v: Seq<DiscoveredTestCrate>) -> Seq<(Seq<char>, DiscoveryType)> {
    v.map_values(|c: DiscoveredTestCrate| (c.name@, c.discovery_type))
}

pub open spec fn is_modified(c: DiscoveredTestCrate) -> bool {
    c.discovery_type == DiscoveryType::Modified
}

/// The discovered entries: every name once, modified packages first in the order
/// found, then the dependents that are not modified themselves.
pub open spec fn spec_discovered(modified: Seq<Seq<char>>, dependents: Seq<Seq<char>>) -> Seq<(Seq<char>, DiscoveryType)> {
    first_seen(modified + dependents).map_values(
        |n: Seq<char>|
            (n, if modified.contains(n) {
                DiscoveryType::Modified
            } else {
                DiscoveryType::Dependent
            }),
    )
}

impl TestCrates {
    /// No package name appears twice.
    pub open spec fn wf(&self) -> bool {
        match self {
            TestCrates::Manual(v) => manual_names(v@).no_duplicates(),
            TestCrates::Discovered(v) => discovered_view(v@).map_values(
                |e: (Seq<char>, DiscoveryType)| e.0,
            ).no_duplicates(),
        }
    }

    /// The user's list of packages, repeats dropped, in the order given.
    pub fn manual(names: &Vec<String>) -> (r: TestCrates)
        ensures
            r is Manual,
            manual_names(r->Manual_0@) == first_seen(names_of(names@)),
            r.wf(),
    {
        let mut seen = new_name_set();
        let mut out: Vec<ManualTestCrate> = Vec::new();
        let mut i: usize = 0;
        while i < names.len()
            invariant
                i <= names@.len(),
                set_names(seen) == first_seen(names_of(names@.subrange(0, i as int))),
                manual_names(out@) == set_names(seen),
            decreases names@.len() - i,
        {
            proof {
                assert(names_of(names@.subrange(0, i as int + 1)) =~= names_of(names@.subrange(0, i as int)).push(names@[i as int]@));
                lemma_first_seen_push(names_of(names@.subrange(0, i as int)), names@[i as int]@);
            }
            let ghost before = out@;
            if name_set_insert(&mut seen, names[i].clone()) {
                out.push(ManualTestCrate { name: names[i].clone() });
                assert(manual_names(out@) =~= manual_names(before).push(names@[i as int]@));
            }
            i = i + 1;
        }
        proof {
            assert(names@.subrange(0, names@.len() as int) =~= names@);
            lemma_first_seen_no_duplicates(names_of(names@));
        }
        TestCrates::Manual(out)
    }

    /// The discovered entries for the packages that own changed files and their
    /// dependents: modified first, a package never listed twice, and a package
    /// that is both modified and a dependent tagged as modified.
    pub fn discovered(modified: &IndexSet<String>, dependents: &IndexSet<String>) -> (r: TestCrates)
        ensures
            r is Discovered,
            discovered_view(r->Discovered_0@) == spec_discovered(set_names(*modified), set_names(*dependents)),
            r.wf(),
    {
        let ghost m = set_names(*modified);
        let ghost d = set_names(*dependents);
        let mods = name_set_to_vec(modified);
        let deps = name_set_to_vec(dependents);
        let mut seen = new_name_set();
        let mut out: Vec<DiscoveredTestCrate> = Vec::new();
        let mut i: usize = 0;
        while i < mods.len()
            invariant
                i <= mods@.len(),
                names_of(mods@) == m,
                set_names(seen) == first_seen(m.subrange(0, i as int)),
                discovered_view(out@) == set_names(seen).map_values(|n: Seq<char>| (n, DiscoveryType::Modified)),
            decreases mods@.len() - i,
        {
            proof {
                assert(m.subrange(0, i as int + 1) =~= m.subrange(0, i as int).push(m[i as int]));
                lemma_first_seen_push(m.subrange(0, i as int), m[i as int]);
            }
            let ghost before = out@;
            if name_set_insert(&mut seen, mods[i].clone()) {
                out.push(DiscoveredTestCrate { name: mods[i].clone(), discovery_type: DiscoveryType::Modified });
                assert(discovered_view(out@) =~= discovered_view(before).push((m[i as int], DiscoveryType::Modified)));
            }
            i = i + 1;
        }
        proof {
            assert(m.subrange(0, m.len() as int) =~= m);
            assert(m + d.subrange(0, 0) =~= m);
            assert forall|n: Seq<char>| set_names(seen).contains(n) implies m.contains(n) by {
                lemma_first_seen_contains(m, n);
            }
            assert(discovered_view(out@) =~= first_seen(m + d.subrange(0, 0)).map_values(
                |n: Seq<char>| (n, if m.contains(n) { DiscoveryType::Modified } else { DiscoveryType::Dependent }),
            ));
        }
        let mut j: usize = 0;
        while j < deps.len()
            invariant
                j <= deps@.len(),
                names_of(deps@) == d,
                set_names(seen) == first_seen(m + d.subrange(0, j as int)),
                discovered_view(out@) == set_names(seen).map_values(
                    |n: Seq<char>| (n, if m.contains(n) { DiscoveryType::Modified } else { DiscoveryType::Dependent }),
                ),
            decreases deps@.len() - j,
        {
            proof {
                assert(m + d.subrange(0, j as int + 1) =~= (m + d.subrange(0, j as int)).push(d[j as int]));
                lemma_first_seen_push(m + d.subrange(0, j as int), d[j as int]);
                lemma_first_seen_contains(m + d.subrange(0, j as int), d[j as int]);
                if m.contains(d[j as int]) {
                    let k = choose|k: int| 0 <= k < m.len() && m[k] == d[j as int];
                    assert((m + d.subrange(0, j as int))[k] == d[j as int]);
                }
            }
            let ghost before = out@;
            if name_set_insert(&mut seen, deps[j].clone()) {
                out.push(DiscoveredTestCrate { name: deps[j].clone(), discovery_type: DiscoveryType::Dependent });
                assert(discovered_view(out@) =~= discovered_view(before).push((d[j as int], DiscoveryType::Dependent)));
            }
            j = j + 1;
        }
        proof {
            assert(d.subrange(0, d.len() as int) =~= d);
            lemma_first_seen_no_duplicates(m + d);
            assert(discovered_view(out@).map_values(|e: (Seq<char>, DiscoveryType)| e.0) =~= first_seen(m + d));
        }
        TestCrates::Discovered(out)
    }
}

impl TestCrates {
    /// How many entries are modified packages and how many dependents; every
    /// manual entry counts as modified.
    pub fn counts(&self) -> (r: (usize, usize))
        ensures
            self is Manual ==> r == (self->Manual_0@.len() as usize, 0usize),
            self is Discovered ==> r.0 == self->Discovered_0@.filter(|c: DiscoveredTestCrate| is_modified(c)).len()
                && r.0 + r.1 == self->Discovered_0@.len(),
    {
        match self {
            TestCrates::Manual(v) => (v.len(), 0),
            TestCrates::Discovered(v) => {
                let mut modified: usize = 0;
                let mut i: usize = 0;
                while i < v.len()
                    invariant
                        i <= v@.len(),
                        modified == v@.subrange(0, i as int).filter(|c: DiscoveredTestCrate| is_modified(c)).len(),
                        modified <= i,
                    decreases v@.len() - i,
                {
                    proof {
                        let pre = v@.subrange(0, i as int);
                        assert(v@.subrange(0, i as int + 1) =~= pre.push(v@[i as int]));
                        pre.lemma_filter_push(v@[i as int], |c: DiscoveredTestCrate| is_modified(c));
                    }
                    if v[i].discovery_type == DiscoveryType::Modified {
                        modified = modified + 1;
                    }
                    i = i + 1;
                }
                assert(v@.subrange(0, v@.len() as int) =~= v@);
                (modified, v.len() - modified)
            },
        }
    }
}

impl TestPlan {
    /// The names of the packages to test, in plan order: for a manual plan all of
    /// them; for a discovered plan the modified ones, and the dependents too only
    /// where `with_dependents` is set.
    pub open spec fn spec_crates_to_test(&self) -> Seq<Seq<char>> {
        match self.crates {
            TestCrates::Manual(v) => manual_names(v@),
            TestCrates::Discovered(v) => if self.with_dependents {
                discovered_view(v@).map_values(|e: (Seq<char>, DiscoveryType)| e.0)
            } else {
                v@.filter(|c: DiscoveredTestCrate| is_modified(c)).map_values(
                    |c: DiscoveredTestCrate| c.name@,
                )
            },
        }
    }

    /// The names of the packages to test, in plan order.
    pub fn get_crates_to_test(&self) -> (r: Vec<String>)
        ensures
            names_of(r@) == self.spec_crates_to_test(),
    {
        let mut out: Vec<String> = Vec::new();
        match &self.crates {
            TestCrates::Manual(v) => {
                let mut i: usize = 0;
                while i < v.len()
                    invariant
                        i <= v@.len(),
                        names_of(out@) == manual_names(v@.subrange(0, i as int)),
                    decreases v@.len() - i,
                {
                    out.push(v[i].name.clone());
                    assert(manual_names(v@.subrange(0, i as int + 1)) =~= manual_names(v@.subrange(0, i as int)).push(v@[i as int].name@));
                    assert(names_of(out@) =~= names_of(out@.drop_last()).push(v@[i as int].name@));
                    i = i + 1;
                }
                assert(v@.subrange(0, v@.len() as int) =~= v@);
            },
            TestCrates::Discovered(v) => {
                let with_dependents = self.with_dependents;
                let mut i: usize = 0;
                while i < v.len()
                    invariant
                        i <= v@.len(),
                        with_dependents == self.with_dependents,
                        names_of(out@) == if with_dependents {
                            v@.subrange(0, i as int).map_values(|c: DiscoveredTestCrate| c.name@)
                        } else {
                            v@.subrange(0, i as int).filter(|c: DiscoveredTestCrate| is_modified(c)).map_values(
                                |c: DiscoveredTestCrate| c.name@,
                            )
                        },
                    decreases v@.len() - i,
                {
                    let ghost before = out@;
                    let ghost pre = v@.subrange(0, i as int);
                    proof {
                        assert(v@.subrange(0, i as int + 1) =~= pre.push(v@[i as int]));
                        pre.lemma_filter_push(v@[i as int], |c: DiscoveredTestCrate| is_modified(c));
                    }
                    if with_dependents || v[i].discovery_type == DiscoveryType::Modified {
                        out.push(v[i].name.clone());
                        assert(names_of(out@) =~= names_of(before).push(v@[i as int].name@));
                    }
                    i = i + 1;
                }
                assert(v@.subrange(0, v@.len() as int) =~= v@);
                assert(discovered_view(v@).map_values(|e: (Seq<char>, DiscoveryType)| e.0) =~= v@.map_values(
                    |c: DiscoveredTestCrate| c.name@,
                ));
            },
        }
        out
    }

    /// Whether the plan has no package to test.
    pub fn is_empty(&self) -> (r: bool)
        ensures
            r == (self.spec_crates_to_test().len() == 0),
    {
        self.get_crates_to_test().len() == 0
    }
}

/// The discovered entries for a change set: the packages that own a changed
/// file, then their direct dependents.
pub open spec fn spec_discovered_plan(
    files: Seq<crate::vcs::ChangedFile>,
    cs: Seq<crate::metadata::CrateInfo>,
    pkgs: Seq<crate::metadata::PackageMetadata>,
) -> Seq<(Seq<char>, DiscoveryType)> {
    let changed = spec_changed_crates(files, cs);
    spec_discovered(changed, first_seen(dependents_of(pkgs, changed)))
}

/// The packages to test. Where the user named none, they are found from the
/// changed files: the owning packages and their direct dependents. Where the user
/// named some, each must be a package of the workspace, else the first unknown
/// one is reported.
pub fn resolve_test_crates(
    changed_files: &[crate::vcs::ChangedFile],
    crates: &Crates,
    metadata: &WorkspaceMetadata,
    manual: &Vec<String>,
) -> (r: Result<TestCrates, AppError>)
    ensures
        manual@.len() == 0 ==> (r matches Ok(TestCrates::Discovered(v)) && discovered_view(v@)
            == spec_discovered_plan(changed_files@, crates.0@, metadata.packages@)),
        manual@.len() > 0 ==> (r is Ok <==> all_known(metadata.packages@, manual@)),
        manual@.len() > 0 && r is Ok ==> (r matches Ok(TestCrates::Manual(v)) && manual_names(v@)
            == first_seen(names_of(manual@))),
        manual@.len() > 0 && r is Err ==> exists|i: int|
            is_first_unknown(metadata.packages@, manual@, i) && r == Err::<TestCrates, AppError>(
                AppError::UnknownCrate { crate_name: manual@[i] },
            ),
        r is Ok ==> r->Ok_0.wf(),
{
    if manual.len() == 0 {
        let changed = find_changed_crates(changed_files, crates);
        let dependents = find_dependent_crates(&changed, metadata);
        Ok(TestCrates::discovered(&changed, &dependents))
    } else {
        match verify_crates_exist(metadata, manual.as_slice()) {
            Ok(()) => Ok(TestCrates::manual(manual)),
            Err(e) => Err(e),
        }
    }
}

/// Resolving twice from the same change set and workspace graph gives the same
/// ordered entries.
pub proof fn lemma_resolution_idempotent(
    files: Seq<crate::vcs::ChangedFile>,
    cs: Seq<crate::metadata::CrateInfo>,
    pkgs: Seq<crate::metadata::PackageMetadata>,
    first: Seq<DiscoveredTestCrate>,
    second: Seq<DiscoveredTestCrate>,
)
    requires
        discovered_view(first) == spec_discovered_plan(files, cs, pkgs),
        discovered_view(second) == spec_discovered_plan(files, cs, pkgs),
    ensures
        discovered_view(first) == discovered_view(second),
        first.map_values(|c: DiscoveredTestCrate| c.name@) == second.map_values(|c: DiscoveredTestCrate| c.name@),
{
    assert(first.len() == discovered_view(first).len());
    assert forall|i: int| 0 <= i < first.len() implies first[i].name@ == second[i].name@ by {
        assert(discovered_view(first)[i] == discovered_view(second)[i]);
    }
    assert(first.map_values(|c: DiscoveredTestCrate| c.name@) =~= second.map_values(|c: DiscoveredTestCrate| c.name@));
}

/// A manual plan lists the user's packages in the order given, whatever
/// `with_dependents` says; a discovered plan without dependents lists only the
/// modified packages, in discovery order.
pub proof fn lemma_crates_to_test_by_mode(plan: TestPlan)
    ensures
        plan.crates is Manual ==> plan.spec_crates_to_test() == manual_names(plan.crates->Manual_0@),
        plan.crates is Discovered && !plan.with_dependents ==> plan.spec_crates_to_test()
            == plan.crates->Discovered_0@.filter(|c: DiscoveredTestCrate| is_modified(c)).map_values(
            |c: DiscoveredTestCrate| c.name@,
        ),
{
}

} // verus!
