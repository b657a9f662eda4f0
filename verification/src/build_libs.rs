//! What the build assembles: the license bundle shipped with the
//! application.
use vstd::prelude::*;
use crate::license_bundle::{
    get_names_from_default_license_bundle, license_texts, opt_chars, package_views, License,
    Package, PackageView, PREHNITE_LICENSE_TEXT,
};
use crate::license_bundle::font::font_names;
use crate::license_bundle::names::{insert_sorted, name_set, sorted_strict};
use crate::settings::clone_strings;
use crate::db::schema::clone_opt_string;
use crate::text::{str_eq, string_views};

verus! {

/// The homepage of the application as the collected package metadata gives
/// it.
pub const MY_APP_HOMEPAGE: &'static str = "https://prehnite.jp/";

/// The first position of a package named `name`.
pub open spec fn first_named(v: Seq<PackageView>, name: Seq<char>) -> Option<int>
    decreases v.len(),
{
    if v.len() == 0 {
        None
    } else {
        match first_named(v.drop_last(), name) {
            Some(i) => Some(i),
            None => if v.last().name == name {
                Some(v.len() - 1)
            } else {
                None
            },
        }
    }
}

/// Every package keeps its dependency names sorted.
pub open spec fn all_wf(v: Seq<Package>) -> bool {
    forall|i: int| 0 <= i < v.len() ==> (#[trigger] v[i]).wf()
}

/// What adding the application to a bundle gives: the application's package
/// appended when the bundle has no package named `prehnite`; otherwise the
/// first such package with the names of the default bundle added to its
/// dependencies.
pub open spec fn with_prehnite(v: Seq<PackageView>) -> Seq<PackageView> {
    match first_named(v, "prehnite"@) {
        None => v.push(crate::license_bundle::prehnite_view()),
        Some(i) => v.update(
            i,
            PackageView { dependencies: v[i].dependencies.union(font_names().to_set()), ..v[i] },
        ),
    }
}

proof fn lemma_first_named(v: Seq<PackageView>, name: Seq<char>, i: int)
    requires
        0 <= i <= v.len(),
        forall|j: int| 0 <= j < i ==> v[j].name != name,
    ensures
        i == v.len() ==> first_named(v, name) is None,
        i < v.len() && v[i].name == name ==> first_named(v, name) == Some(i),
    decreases v.len(),
{
    if v.len() > 0 {
        if i == v.len() {
            lemma_first_named(v.drop_last(), name, i - 1);
            assert(v.drop_last().len() == i - 1);
        } else {
            if i < v.len() - 1 {
                lemma_first_named(v.drop_last(), name, i);
                if v[i].name == name {
                    assert(v.drop_last()[i].name == name);
                }
            } else {
                lemma_first_named(v.drop_last(), name, i);
            }
        }
    }
}

/// Adds the application to the license bundle: appends its package when the
/// bundle has none named `prehnite`, otherwise adds the names of the
/// default bundle to the dependencies of the first such package.
pub fn bundle_with_prehnite(license: Vec<Package>) -> (r: Vec<Package>)
    requires
        all_wf(license@),
    ensures
        all_wf(r@),
        package_views(r@) == with_prehnite(package_views(license@)),
{
    let mut license = license;
    let ghost views = package_views(license@);
    let mut i: usize = 0;
    while i < license.len() && !str_eq(license[i].name.as_str(), "prehnite")
        invariant
            0 <= i <= license@.len(),
            views == package_views(license@),
            forall|j: int| 0 <= j < i ==> views[j].name != "prehnite"@,
        decreases license@.len() - i,
    {
        proof {
            assert(views[i as int] == license@[i as int]@);
        }
        i = i + 1;
    }
    proof {
        if i < license@.len() {
            assert(views[i as int] == license@[i as int]@);
        }
        lemma_first_named(views, "prehnite"@, i as int);
    }
    if i == license.len() {
        license.push(Package::prehnite());
        proof {
            assert(package_views(license@) =~= views.push(crate::license_bundle::prehnite_view()));
        }
        license
    } else {
        let p = license.remove(i);
        let names = get_names_from_default_license_bundle();
        let q = p.dependencies(names);
        license.insert(i, q);
        proof {
            assert(package_views(license@) =~= with_prehnite(views));
        }
        license
    }
}

/// Adding the application to a bundle a second time changes nothing: the
/// package it added or extended is found again and already holds the names
/// of the default bundle.
pub proof fn law_bundle_with_prehnite_idempotent(v: Seq<PackageView>)
    ensures
        with_prehnite(with_prehnite(v)) == with_prehnite(v),
{
    let w = with_prehnite(v);
    match first_named(v, "prehnite"@) {
        None => {
            lemma_first_named_none(v, "prehnite"@);
            lemma_first_named(w, "prehnite"@, v.len() as int);
            let p = w[v.len() as int];
            assert(p.dependencies.union(font_names().to_set()) =~= p.dependencies);
            assert(w.update(v.len() as int, PackageView { dependencies: p.dependencies.union(font_names().to_set()), ..p }) =~= w);
        },
        Some(i) => {
            lemma_first_named_some(v, "prehnite"@);
            lemma_first_named(w, "prehnite"@, i);
            let p = w[i];
            assert(p.dependencies.union(font_names().to_set()) =~= p.dependencies);
            assert(w.update(i, PackageView { dependencies: p.dependencies.union(font_names().to_set()), ..p }) =~= w);
        },
    }
}

/// After adding the application, the bundle has a package named
/// `prehnite` that depends on every package of the default bundle; a
/// package is appended only when there was none of that name, and every
/// other package is unchanged.
pub proof fn law_bundle_has_prehnite(v: Seq<PackageView>, j: int, d: Seq<char>)
    ensures
        first_named(with_prehnite(v), "prehnite"@) is Some,
        with_prehnite(v)[first_named(with_prehnite(v), "prehnite"@)->0].name == "prehnite"@,
        font_names().contains(d) ==> with_prehnite(v)[first_named(with_prehnite(v), "prehnite"@)->0].dependencies.contains(d),
        with_prehnite(v).len() == v.len() + if first_named(v, "prehnite"@) is None { 1int } else { 0int },
        0 <= j < v.len() && first_named(v, "prehnite"@) != Some(j) ==> with_prehnite(v)[j] == v[j],
{
    let w = with_prehnite(v);
    match first_named(v, "prehnite"@) {
        None => {
            lemma_first_named_none(v, "prehnite"@);
            lemma_first_named(w, "prehnite"@, v.len() as int);
        },
        Some(i) => {
            lemma_first_named_some(v, "prehnite"@);
            lemma_first_named(w, "prehnite"@, i);
        },
    }
}

proof fn lemma_first_named_none(v: Seq<PackageView>, name: Seq<char>)
    requires
        first_named(v, name) is None,
    ensures
        forall|j: int| 0 <= j < v.len() ==> v[j].name != name,
    decreases v.len(),
{
    if v.len() > 0 {
        lemma_first_named_none(v.drop_last(), name);
        assert forall|j: int| 0 <= j < v.len() implies v[j].name != name by {
            if j < v.len() - 1 {
                assert(v[j] == v.drop_last()[j]);
            }
        }
    }
}

proof fn lemma_first_named_some(v: Seq<PackageView>, name: Seq<char>)
    requires
        first_named(v, name) is Some,
    ensures
        0 <= first_named(v, name)->0 < v.len(),
        v[first_named(v, name)->0].name == name,
        forall|j: int| 0 <= j < first_named(v, name)->0 ==> v[j].name != name,
    decreases v.len(),
{
    if v.len() > 0 {
        match first_named(v.drop_last(), name) {
            Some(i) => {
                lemma_first_named_some(v.drop_last(), name);
                assert forall|j: int| 0 <= j < i implies v[j].name != name by {
                    assert(v[j] == v.drop_last()[j]);
                }
            },
            None => {
                lemma_first_named_none(v.drop_last(), name);
                assert forall|j: int| 0 <= j < v.len() - 1 implies v[j].name != name by {
                    assert(v[j] == v.drop_last()[j]);
                }
            },
        }
    }
}

/// What marking the members of the application gives: a package whose
/// homepage is the application's gets the application's license as its only
/// license text; other packages are unchanged.
pub open spec fn member_licensed(p: PackageView) -> PackageView {
    if p.homepage == Some(MY_APP_HOMEPAGE@) {
        PackageView { licenses: seq![PREHNITE_LICENSE_TEXT@], ..p }
    } else {
        p
    }
}

/// Marking the members twice is marking them once.
pub proof fn law_member_license_idempotent(p: PackageView)
    ensures
        member_licensed(member_licensed(p)) == member_licensed(p),
{
}

/// Gives each package whose homepage is the application's the license of
/// the application's members.
pub fn apply_member_license(packages: Vec<Package>) -> (r: Vec<Package>)
    requires
        all_wf(packages@),
    ensures
        all_wf(r@),
        package_views(r@) == package_views(packages@).map_values(|p: PackageView| member_licensed(p)),
{
    let ghost views = package_views(packages@);
    let mut rest = packages;
    let mut out: Vec<Package> = Vec::new();
    let ghost n = views.len();
    while rest.len() > 0
        invariant
            out@.len() + rest@.len() == n,
            views.len() == n,
            all_wf(out@),
            all_wf(rest@),
            forall|j: int| 0 <= j < out@.len() ==> #[trigger] out@[j]@ == member_licensed(views[j]),
            forall|j: int| 0 <= j < rest@.len() ==> #[trigger] rest@[j]@ == views[out@.len() + j],
        decreases rest@.len(),
    {
        let ghost k = out@.len();
        let ghost before = rest@;
        let p = rest.remove(0);
        proof {
            assert(p@ == views[k as int]);
            assert forall|j: int| 0 <= j < rest@.len() implies #[trigger] rest@[j]@ == views[k + 1 + j] by {
                assert(rest@[j] == before[j + 1]);
            }
        }
        let is_member = match &p.homepage {
            Some(h) => str_eq(h.as_str(), MY_APP_HOMEPAGE),
            None => false,
        };
        if is_member {
            out.push(p.prehnite_member_license());
        } else {
            out.push(p);
        }
    }
    proof {
        assert(package_views(out@) =~= views.map_values(|p: PackageView| member_licensed(p)));
    }
    out
}

/// A crate as the license gatherer reports it: its metadata, the texts of
/// its license files and the names of its dependencies.
pub struct CollectedKrate {
    pub name: String,
    pub authors: Vec<String>,
    pub homepage: Option<String>,
    pub repository: Option<String>,
    pub license_info: String,
    pub license_texts: Vec<String>,
    pub dependencies: Vec<String>,
}

/// The names of the gathered crates.
pub open spec fn krate_names(ks: Seq<CollectedKrate>) -> Set<Seq<char>> {
    Set::new(|n: Seq<char>| exists|i: int| 0 <= i < ks.len() && ks[i].name@ == n)
}

/// The package of a gathered crate: its metadata and license texts, with
/// those of its dependencies that are among `names`.
pub open spec fn collected_view(k: CollectedKrate, names: Set<Seq<char>>) -> PackageView {
    PackageView {
        name: k.name@,
        authors: string_views(k.authors@),
        homepage: opt_chars(k.homepage),
        repository: opt_chars(k.repository),
        license_info: k.license_info@,
        licenses: string_views(k.license_texts@),
        dependencies: name_set(k.dependencies@).intersect(names),
    }
}

/// A package of the bundle keeps what its crate reports: its name, authors,
/// homepage, repository and license information are the crate's; its
/// license texts are the crate's own, or only the application's license for
/// a member of the application; and its dependencies are exactly those of
/// the crate's dependencies that were gathered.
pub proof fn law_collected_package(k: CollectedKrate, names: Set<Seq<char>>, d: Seq<char>)
    ensures
        member_licensed(collected_view(k, names)).name == k.name@,
        member_licensed(collected_view(k, names)).authors == string_views(k.authors@),
        member_licensed(collected_view(k, names)).homepage == opt_chars(k.homepage),
        member_licensed(collected_view(k, names)).repository == opt_chars(k.repository),
        member_licensed(collected_view(k, names)).license_info == k.license_info@,
        opt_chars(k.homepage) != Some(MY_APP_HOMEPAGE@) ==> member_licensed(collected_view(k, names)).licenses == string_views(k.license_texts@),
        opt_chars(k.homepage) == Some(MY_APP_HOMEPAGE@) ==> member_licensed(collected_view(k, names)).licenses == seq![PREHNITE_LICENSE_TEXT@],
        member_licensed(collected_view(k, names)).dependencies.contains(d)
            == (string_views(k.dependencies@).contains(d) && names.contains(d)),
{
}

/// Whether `x` is one of `names`.
fn contains_name(names: &Vec<String>, x: &str) -> (r: bool)
    ensures
        r == name_set(names@).contains(x@),
{
    let mut i: usize = 0;
    while i < names.len()
        invariant
            0 <= i <= names@.len(),
            forall|j: int| 0 <= j < i ==> names@[j]@ != x@,
        decreases names@.len() - i,
    {
        if str_eq(names[i].as_str(), x) {
            proof {
                assert(string_views(names@)[i as int] == x@);
            }
            return true;
        }
        i = i + 1;
    }
    proof {
        if name_set(names@).contains(x@) {
            let j = choose|j: int| 0 <= j < string_views(names@).len() && string_views(names@)[j] == x@;
            assert(names@[j]@ == x@);
        }
    }
    false
}

/// The dependencies `deps` that are among `names`, sorted, each once.
pub fn known_dependencies(deps: &Vec<String>, names: &Vec<String>) -> (r: Vec<String>)
    ensures
        sorted_strict(string_views(r@)),
        name_set(r@) == name_set(deps@).intersect(name_set(names@)),
{
    let mut r: Vec<String> = Vec::new();
    let mut i: usize = 0;
    proof {
        assert(name_set(r@) =~= name_set(deps@.take(0)).intersect(name_set(names@)));
    }
    while i < deps.len()
        invariant
            0 <= i <= deps@.len(),
            sorted_strict(string_views(r@)),
            name_set(r@) == name_set(deps@.take(i as int)).intersect(name_set(names@)),
        decreases deps@.len() - i,
    {
        let ghost before = name_set(r@);
        proof {
            let a = string_views(deps@.take(i + 1));
            let b = string_views(deps@.take(i as int));
            assert(a =~= b.push(deps@[i as int]@));
            b.lemma_push_to_set_commute(deps@[i as int]@);
        }
        if contains_name(names, deps[i].as_str()) {
            insert_sorted(&mut r, deps[i].clone());
            proof {
                assert(name_set(r@) =~= name_set(deps@.take(i + 1)).intersect(name_set(names@)));
            }
        } else {
            proof {
                assert(name_set(r@) =~= name_set(deps@.take(i + 1)).intersect(name_set(names@)));
            }
        }
        i = i + 1;
    }
    proof {
        assert(deps@.take(deps@.len() as int) =~= deps@);
    }
    r
}

/// The licenses of a list of texts.
fn licenses_of(texts: &Vec<String>) -> (r: Vec<License>)
    ensures
        license_texts(r@) == string_views(texts@),
{
    let mut r: Vec<License> = Vec::new();
    let mut i: usize = 0;
    while i < texts.len()
        invariant
            0 <= i <= texts@.len(),
            license_texts(r@) == string_views(texts@.take(i as int)),
        decreases texts@.len() - i,
    {
        let ghost before = license_texts(r@);
        r.push(License { full_text: texts[i].clone() });
        proof {
            assert(license_texts(r@) =~= before.push(texts@[i as int]@));
            assert(string_views(texts@.take(i + 1)) =~= string_views(texts@.take(i as int)).push(texts@[i as int]@));
        }
        i = i + 1;
    }
    proof {
        assert(texts@.take(texts@.len() as int) =~= texts@);
    }
    r
}

/// The license bundle of the gathered crates: one package per crate, in
/// order, whose dependencies are those of the crate's dependencies that were
/// gathered too; a package whose homepage is the application's gets the
/// license of the application's members.
pub fn license_packages(krates: &Vec<CollectedKrate>) -> (r: Vec<Package>)
    ensures
        all_wf(r@),
        package_views(r@) == krates@.map_values(|k: CollectedKrate| member_licensed(collected_view(k, krate_names(krates@)))),
{
    let mut names: Vec<String> = Vec::new();
    let mut i: usize = 0;
    while i < krates.len()
        invariant
            0 <= i <= krates@.len(),
            string_views(names@) == krates@.take(i as int).map_values(|k: CollectedKrate| k.name@),
        decreases krates@.len() - i,
    {
        let ghost before = string_views(names@);
        names.push(krates[i].name.clone());
        proof {
            assert(string_views(names@) =~= before.push(krates@[i as int].name@));
            assert(krates@.take(i + 1).map_values(|k: CollectedKrate| k.name@)
                =~= krates@.take(i as int).map_values(|k: CollectedKrate| k.name@).push(krates@[i as int].name@));
        }
        i = i + 1;
    }
    proof {
        assert(krates@.take(krates@.len() as int) =~= krates@);
        assert(name_set(names@) =~= krate_names(krates@)) by {
            assert forall|n: Seq<char>| krate_names(krates@).contains(n) implies name_set(names@).contains(n) by {
                let j = choose|j: int| 0 <= j < krates@.len() && krates@[j].name@ == n;
                assert(string_views(names@)[j] == n);
            }
            assert forall|n: Seq<char>| name_set(names@).contains(n) implies krate_names(krates@).contains(n) by {
                let j = choose|j: int| 0 <= j < string_views(names@).len() && string_views(names@)[j] == n;
                assert(krates@[j].name@ == n);
            }
        }
    }
    let ghost all = krate_names(krates@);
    let mut r: Vec<Package> = Vec::new();
    let mut i: usize = 0;
    while i < krates.len()
        invariant
            0 <= i <= krates@.len(),
            name_set(names@) == all,
            all == krate_names(krates@),
            r@.len() == i,
            all_wf(r@),
            forall|j: int| 0 <= j < i ==> #[trigger] r@[j]@ == member_licensed(collected_view(krates@[j], all)),
        decreases krates@.len() - i,
    {
        let k = &krates[i];
        let p = Package {
            name: k.name.clone(),
            authors: clone_strings(&k.authors),
            homepage: clone_opt_string(&k.homepage),
            repository: clone_opt_string(&k.repository),
            license_info: k.license_info.clone(),
            licenses: licenses_of(&k.license_texts),
            dependencies: known_dependencies(&k.dependencies, &names),
        };
        let is_member = match &p.homepage {
            Some(h) => str_eq(h.as_str(), MY_APP_HOMEPAGE),
            None => false,
        };
        if is_member {
            r.push(p.prehnite_member_license());
        } else {
            r.push(p);
        }
        i = i + 1;
    }
    proof {
        assert(package_views(r@) =~= krates@.map_values(|k: CollectedKrate| member_licensed(collected_view(k, all))));
    }
    r
}

} // verus!
