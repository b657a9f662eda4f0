//! The dependency table written beside the collected package list at build
//! time: every package by its place in the sorted list of package names,
//! with the places of its dependencies and the dependencies that are missing
//! from the list.
use vstd::prelude::*;
use crate::license_bundle::names::{insert_sorted, name_set, sorted_strict};
use crate::text::{str_eq, string_views};

verus! {

/// A package as the dependency resolver reports it: its name and the names
/// of the packages it depends on.
pub struct KrateInfo {
    pub name: String,
    pub dependencies: Vec<String>,
}

/// Where a package and its dependencies stand in the list of package names.
pub struct Dependency {
    pub pkg_index: usize,
    pub dependency_index: Vec<usize>,
}

/// A dependency whose name is not in the list of package names.
pub struct MissingDeps {
    pub depend: String,
    pub dependency: String,
}

/// The first position of `x` in `s`.
pub open spec fn position(s: Seq<Seq<char>>, x: Seq<char>) -> Option<int>
    decreases s.len(),
{
    if s.len() == 0 {
        None
    } else {
        match position(s.drop_last(), x) {
            Some(i) => Some(i),
            None => if s.last() == x {
                Some(s.len() - 1)
            } else {
                None
            },
        }
    }
}

/// The positions in `names` of the dependencies `deps` that occur there, in
/// the order of `deps`.
pub open spec fn found_positions(names: Seq<Seq<char>>, deps: Seq<Seq<char>>) -> Seq<int>
    decreases deps.len(),
{
    if deps.len() == 0 {
        seq![]
    } else {
        let rest = found_positions(names, deps.drop_last());
        match position(names, deps.last()) {
            Some(i) => rest.push(i),
            None => rest,
        }
    }
}

/// The dependencies `deps` of the package `pkg` that do not occur in
/// `names`, each as the pair of the package's name and the dependency's.
pub open spec fn missing_of(names: Seq<Seq<char>>, pkg: Seq<char>, deps: Seq<Seq<char>>) -> Seq<(Seq<char>, Seq<char>)>
    decreases deps.len(),
{
    if deps.len() == 0 {
        seq![]
    } else {
        let rest = missing_of(names, pkg, deps.drop_last());
        match position(names, deps.last()) {
            Some(_) => rest,
            None => rest.push((pkg, deps.last())),
        }
    }
}

/// The missing dependencies of all the packages `ks`, package after package.
pub open spec fn missing_table(names: Seq<Seq<char>>, ks: Seq<KrateInfo>) -> Seq<(Seq<char>, Seq<char>)>
    decreases ks.len(),
{
    if ks.len() == 0 {
        seq![]
    } else {
        missing_table(names, ks.drop_last()) + missing_of(
            names,
            ks.last().name@,
            string_views(ks.last().dependencies@),
        )
    }
}

/// The positions held by a vector of indices.
pub open spec fn index_views(v: Seq<usize>) -> Seq<int> {
    v.map_values(|i: usize| i as int)
}

/// The pairs of names held by a list of missing dependencies.
pub open spec fn missing_views(v: Seq<MissingDeps>) -> Seq<(Seq<char>, Seq<char>)> {
    v.map_values(|m: MissingDeps| (m.depend@, m.dependency@))
}

/// The row of the dependency table that belongs to the package `k`.
pub open spec fn row_of(names: Seq<Seq<char>>, k: KrateInfo, d: Dependency) -> bool {
    &&& position(names, k.name@) == Some(d.pkg_index as int)
    &&& index_views(d.dependency_index@) == found_positions(names, string_views(k.dependencies@))
}

proof fn lemma_position(s: Seq<Seq<char>>, x: Seq<char>, i: int)
    requires
        0 <= i <= s.len(),
        forall|j: int| 0 <= j < i ==> s[j] != x,
    ensures
        i == s.len() ==> position(s, x) is None,
        i < s.len() && s[i] == x ==> position(s, x) == Some(i),
    decreases s.len(),
{
    if s.len() > 0 {
        if i == s.len() {
            lemma_position(s.drop_last(), x, i - 1);
        } else {
            lemma_position(s.drop_last(), x, i);
            if i < s.len() - 1 && s[i] == x {
                assert(s.drop_last()[i] == x);
            }
        }
    }
}

/// A name that occurs in a sequence has a first position there, and what
/// stands at that position is the name.
pub proof fn lemma_position_found(s: Seq<Seq<char>>, x: Seq<char>)
    ensures
        s.contains(x) <==> position(s, x) is Some,
        position(s, x) matches Some(i) ==> 0 <= i < s.len() && s[i] == x,
    decreases s.len(),
{
    if s.len() > 0 {
        lemma_position_found(s.drop_last(), x);
        if s.drop_last().contains(x) {
            let j = choose|j: int| 0 <= j < s.drop_last().len() && s.drop_last()[j] == x;
            assert(s[j] == x);
        }
        if s.contains(x) && !s.drop_last().contains(x) {
            let j = choose|j: int| 0 <= j < s.len() && s[j] == x;
            if j < s.len() - 1 {
                assert(s.drop_last()[j] == x);
            }
        }
    }
}

proof fn lemma_found_positions(names: Seq<Seq<char>>, deps: Seq<Seq<char>>)
    ensures
        forall|j: int| 0 <= j < found_positions(names, deps).len() ==> {
            let p = #[trigger] found_positions(names, deps)[j];
            0 <= p < names.len() && deps.contains(names[p])
        },
    decreases deps.len(),
{
    if deps.len() > 0 {
        let rest = deps.drop_last();
        lemma_found_positions(names, rest);
        lemma_position_found(names, deps.last());
        let fp = found_positions(names, deps);
        assert forall|j: int| 0 <= j < fp.len() implies {
            let p = #[trigger] fp[j];
            0 <= p < names.len() && deps.contains(names[p])
        } by {
            if j < found_positions(names, rest).len() {
                let p = found_positions(names, rest)[j];
                assert(fp[j] == p);
                let k = choose|k: int| 0 <= k < rest.len() && rest[k] == names[p];
                assert(deps[k] == names[p]);
            } else {
                assert(deps[deps.len() - 1] == deps.last());
            }
        }
    }
}

/// A row of the dependency table points at names: the package's place in
/// the list holds the package's name, and the place of each dependency
/// holds the name of one of its dependencies.
pub proof fn law_row_points_at_names(names: Seq<Seq<char>>, k: KrateInfo, d: Dependency)
    requires
        row_of(names, k, d),
    ensures
        d.pkg_index < names.len(),
        names[d.pkg_index as int] == k.name@,
        forall|j: int| 0 <= j < d.dependency_index@.len() ==> {
            let p = #[trigger] d.dependency_index@[j];
            p < names.len() && string_views(k.dependencies@).contains(names[p as int])
        },
{
    lemma_position_found(names, k.name@);
    lemma_found_positions(names, string_views(k.dependencies@));
    assert forall|j: int| 0 <= j < d.dependency_index@.len() implies {
        let p = #[trigger] d.dependency_index@[j];
        p < names.len() && string_views(k.dependencies@).contains(names[p as int])
    } by {
        assert(index_views(d.dependency_index@)[j] == d.dependency_index@[j] as int);
    }
}

/// Every dependency of a package is accounted for once: either its place
/// is in the package's row or it is listed as missing, and what is listed
/// as missing is a dependency of the package that is not in the list.
pub proof fn law_dependencies_found_or_missing(names: Seq<Seq<char>>, pkg: Seq<char>, deps: Seq<Seq<char>>)
    ensures
        found_positions(names, deps).len() + missing_of(names, pkg, deps).len() == deps.len(),
        forall|j: int| 0 <= j < missing_of(names, pkg, deps).len() ==> {
            let m = #[trigger] missing_of(names, pkg, deps)[j];
            &&& m.0 == pkg
            &&& deps.contains(m.1)
            &&& !names.contains(m.1)
        },
    decreases deps.len(),
{
    if deps.len() > 0 {
        let rest = deps.drop_last();
        law_dependencies_found_or_missing(names, pkg, rest);
        lemma_position_found(names, deps.last());
        let ms = missing_of(names, pkg, deps);
        let mr = missing_of(names, pkg, rest);
        assert forall|j: int| 0 <= j < ms.len() implies {
            let m = #[trigger] ms[j];
            &&& m.0 == pkg
            &&& deps.contains(m.1)
            &&& !names.contains(m.1)
        } by {
            if j < mr.len() {
                assert(ms[j] == mr[j]);
                let k = choose|k: int| 0 <= k < rest.len() && rest[k] == mr[j].1;
                assert(deps[k] == mr[j].1);
            } else {
                assert(deps[deps.len() - 1] == deps.last());
            }
        }
    }
}

/// The first position of `x` among `names`, if it occurs there.
fn find_name(names: &Vec<String>, x: &str) -> (r: Option<usize>)
    ensures
        match r {
            Some(i) => position(string_views(names@), x@) == Some(i as int),
            None => position(string_views(names@), x@) is None,
        },
{
    let ghost s = string_views(names@);
    let mut i: usize = 0;
    while i < names.len()
        invariant
            0 <= i <= names@.len(),
            s == string_views(names@),
            forall|j: int| 0 <= j < i ==> s[j] != x@,
        decreases names@.len() - i,
    {
        if str_eq(names[i].as_str(), x) {
            proof {
                lemma_position(s, x@, i as int);
            }
            return Some(i);
        }
        i = i + 1;
    }
    proof {
        lemma_position(s, x@, i as int);
    }
    None
}

/// The names of the packages `krates`, sorted, each once.
pub fn package_names(krates: &Vec<KrateInfo>) -> (r: Vec<String>)
    ensures
        sorted_strict(string_views(r@)),
        name_set(r@) == Set::new(|n: Seq<char>| exists|i: int| 0 <= i < krates@.len() && krates@[i].name@ == n),
{
    let mut names: Vec<String> = Vec::new();
    let mut i: usize = 0;
    while i < krates.len()
        invariant
            0 <= i <= krates@.len(),
            sorted_strict(string_views(names@)),
            name_set(names@) == Set::new(|n: Seq<char>| exists|j: int| 0 <= j < i && krates@[j].name@ == n),
        decreases krates@.len() - i,
    {
        let ghost before = name_set(names@);
        insert_sorted(&mut names, krates[i].name.clone());
        proof {
            let target = Set::new(|n: Seq<char>| exists|j: int| 0 <= j < i + 1 && krates@[j].name@ == n);
            assert forall|n: Seq<char>| target.contains(n) implies #[trigger] name_set(names@).contains(n) by {
                let j = choose|j: int| 0 <= j < i + 1 && krates@[j].name@ == n;
                if j < i {
                    assert(before.contains(n));
                }
            }
            assert(name_set(names@) =~= target);
        }
        i = i + 1;
    }
    names
}

/// The missing dependencies of the package `k`, appended to `out` in the
/// order of its dependencies; returns the positions of those found.
fn dependency_row(names: &Vec<String>, k: &KrateInfo, out: &mut Vec<MissingDeps>) -> (r: Vec<usize>)
    ensures
        index_views(r@) == found_positions(string_views(names@), string_views(k.dependencies@)),
        missing_views(final(out)@) == missing_views(old(out)@) + missing_of(
            string_views(names@),
            k.name@,
            string_views(k.dependencies@),
        ),
{
    let ghost s = string_views(names@);
    let ghost deps = string_views(k.dependencies@);
    let ghost start = missing_views(out@);
    let mut found: Vec<usize> = Vec::new();
    let mut j: usize = 0;
    while j < k.dependencies.len()
        invariant
            0 <= j <= k.dependencies@.len(),
            s == string_views(names@),
            deps == string_views(k.dependencies@),
            index_views(found@) == found_positions(s, deps.take(j as int)),
            missing_views(out@) == start + missing_of(s, k.name@, deps.take(j as int)),
        decreases k.dependencies@.len() - j,
    {
        let dep = &k.dependencies[j];
        let ghost prefix = deps.take(j as int);
        proof {
            assert(deps.take(j + 1).drop_last() =~= prefix);
            assert(deps.take(j + 1).last() == dep@);
        }
        match find_name(names, dep.as_str()) {
            Some(p) => {
                found.push(p);
                proof {
                    assert(index_views(found@) =~= found_positions(s, prefix).push(p as int));
                }
            },
            None => {
                let ghost before = missing_views(out@);
                out.push(MissingDeps { depend: k.name.clone(), dependency: dep.clone() });
                proof {
                    assert(missing_views(out@) =~= before.push((k.name@, dep@)));
                    assert(missing_of(s, k.name@, deps.take(j + 1)) =~= missing_of(s, k.name@, prefix).push((k.name@, dep@)));
                }
            },
        }
        j = j + 1;
    }
    proof {
        assert(deps.take(deps.len() as int) =~= deps);
    }
    found
}

/// The dependency table of the packages `krates` against the list `names`:
/// a row for each package, in order, and the dependencies that are not in
/// the list. Each package must itself be in the list.
pub fn dependency_list(names: &Vec<String>, krates: &Vec<KrateInfo>) -> (r: (Vec<Dependency>, Vec<MissingDeps>))
    requires
        forall|i: int| 0 <= i < krates@.len() ==> position(string_views(names@), (#[trigger] krates@[i]).name@) is Some,
    ensures
        r.0@.len() == krates@.len(),
        forall|i: int| 0 <= i < krates@.len() ==> row_of(string_views(names@), #[trigger] krates@[i], r.0@[i]),
        missing_views(r.1@) == missing_table(string_views(names@), krates@),
{
    let ghost s = string_views(names@);
    let mut rows: Vec<Dependency> = Vec::new();
    let mut missing: Vec<MissingDeps> = Vec::new();
    let mut i: usize = 0;
    while i < krates.len()
        invariant
            0 <= i <= krates@.len(),
            s == string_views(names@),
            forall|j: int| 0 <= j < krates@.len() ==> position(s, (#[trigger] krates@[j]).name@) is Some,
            rows@.len() == i,
            forall|j: int| 0 <= j < i ==> row_of(s, #[trigger] krates@[j], rows@[j]),
            missing_views(missing@) == missing_table(s, krates@.take(i as int)),
        decreases krates@.len() - i,
    {
        let k = &krates[i];
        let pkg_index = match find_name(names, k.name.as_str()) {
            Some(p) => p,
            None => {
                proof {
                    assert(position(s, krates@[i as int].name@) is Some);
                }
                0
            },
        };
        let ghost before = missing_views(missing@);
        let dependency_index = dependency_row(names, k, &mut missing);
        rows.push(Dependency { pkg_index, dependency_index });
        proof {
            assert(krates@.take(i + 1).drop_last() =~= krates@.take(i as int));
            assert(krates@.take(i + 1).last() == krates@[i as int]);
            assert(missing_views(missing@) =~= missing_table(s, krates@.take(i + 1)));
            assert(row_of(s, krates@[i as int], rows@[i as int]));
        }
        i = i + 1;
    }
    proof {
        assert(krates@.take(krates@.len() as int) =~= krates@);
    }
    (rows, missing)
}

/// The sorted list of the names of the packages `krates`, each once, and
/// their dependency table against it.
pub fn dependency_table(krates: &Vec<KrateInfo>) -> (r: (Vec<String>, Vec<Dependency>, Vec<MissingDeps>))
    ensures
        sorted_strict(string_views(r.0@)),
        name_set(r.0@) == Set::new(|n: Seq<char>| exists|i: int| 0 <= i < krates@.len() && krates@[i].name@ == n),
        r.1@.len() == krates@.len(),
        forall|i: int| 0 <= i < krates@.len() ==> row_of(string_views(r.0@), #[trigger] krates@[i], r.1@[i]),
        missing_views(r.2@) == missing_table(string_views(r.0@), krates@),
{
    let names = package_names(krates);
    proof {
        assert forall|i: int| 0 <= i < krates@.len() implies position(string_views(names@), (#[trigger] krates@[i]).name@) is Some by {
            assert(name_set(names@).contains(krates@[i].name@));
            lemma_position_found(string_views(names@), krates@[i].name@);
        }
    }
    let (rows, missing) = dependency_list(&names, krates);
    (names, rows, missing)
}

} // verus!
