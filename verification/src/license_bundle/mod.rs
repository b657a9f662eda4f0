//! The bundle of licenses of the third-party software that the application
//! ships with.
use vstd::prelude::*;
use crate::license_bundle::names::{insert_all_sorted, name_set, sorted_strict};
use crate::text::string_views;

pub mod font;
pub mod names;

verus! {

/// The license of the application and of its members.
pub const PREHNITE_LICENSE_TEXT: &'static str = "This software is provided 'as-is', without any express or implied
warranty. In no event will the authors be held liable for any damages
arising from the use of this software.

Permission is granted to anyone to use this software for any purpose,
including commercial applications, and to alter it and redistribute it
freely, subject to the following restrictions:

1. The origin of this software must not be misrepresented; you must not
   claim that you wrote the original software. If you use this software
   in a product, an acknowledgment in the product documentation would be
   appreciated but is not required.
2. Altered source versions must be plainly marked as such, and must not be
   misrepresented as being the original software.
3. This notice may not be removed or altered from any source distribution.
";

/// One license text of a package.
#[derive(Default, Debug, Clone, PartialEq, Eq)]
pub struct License {
    pub full_text: String,
}

/// A third-party software package and its licenses. The names of the
/// packages it depends on form a set, kept sorted.
#[derive(Default, Debug, Clone, PartialEq, Eq)]
pub struct Package {
    pub name: String,
    pub authors: Vec<String>,
    pub homepage: Option<String>,
    pub repository: Option<String>,
    pub license_info: String,
    pub licenses: Vec<License>,
    pub dependencies: Vec<String>,
}

/// The mathematical form of a package.
pub struct PackageView {
    pub name: Seq<char>,
    pub authors: Seq<Seq<char>>,
    pub homepage: Option<Seq<char>>,
    pub repository: Option<Seq<char>>,
    pub license_info: Seq<char>,
    pub licenses: Seq<Seq<char>>,
    pub dependencies: Set<Seq<char>>,
}

/// The characters of an optional string.
pub open spec fn opt_chars(v: Option<String>) -> Option<Seq<char>> {
    match v {
        Some(s) => Some(s@),
        None => None,
    }
}

/// The texts of a list of licenses.
pub open spec fn license_texts(v: Seq<License>) -> Seq<Seq<char>> {
    v.map_values(|l: License| l.full_text@)
}

impl View for Package {
    type V = PackageView;

    open spec fn view(&self) -> PackageView {
        PackageView {
            name: self.name@,
            authors: string_views(self.authors@),
            homepage: opt_chars(self.homepage),
            repository: opt_chars(self.repository),
            license_info: self.license_info@,
            licenses: license_texts(self.licenses@),
            dependencies: name_set(self.dependencies@),
        }
    }
}

/// A package with a name and license information and nothing else.
pub open spec fn new_view(name: Seq<char>, license_info: Seq<char>) -> PackageView {
    PackageView {
        name,
        authors: Seq::empty(),
        homepage: None,
        repository: None,
        license_info,
        licenses: Seq::empty(),
        dependencies: Set::empty(),
    }
}

impl Package {
    /// The dependency names are kept in strictly increasing order.
    pub open spec fn wf(&self) -> bool {
        sorted_strict(string_views(self.dependencies@))
    }

    /// A package with a name and license information.
    pub fn new(name: &str, license_info: &str) -> (r: Self)
        ensures
            r.wf(),
            r@ == new_view(name@, license_info@),
    {
        let r = Package {
            name: name.to_string(),
            authors: Vec::new(),
            homepage: None,
            repository: None,
            license_info: license_info.to_string(),
            licenses: Vec::new(),
            dependencies: Vec::new(),
        };
        proof {
            assert(string_views(r.authors@) =~= Seq::<Seq<char>>::empty());
            assert(license_texts(r.licenses@) =~= Seq::<Seq<char>>::empty());
            assert(name_set(r.dependencies@) =~= Set::<Seq<char>>::empty());
        }
        r
    }

    /// The package with `author` added to its authors.
    pub fn author(self, author: &str) -> (r: Self)
        requires
            self.wf(),
        ensures
            r.wf(),
            r@ == (PackageView { authors: self@.authors.push(author@), ..self@ }),
    {
        let mut r = self;
        r.authors.push(author.to_string());
        proof {
            assert(string_views(r.authors@) =~= string_views(self.authors@).push(author@));
        }
        r
    }

    /// The package with its homepage set to `url`.
    pub fn homepage(self, url: &str) -> (r: Self)
        requires
            self.wf(),
        ensures
            r.wf(),
            r@ == (PackageView { homepage: Some(url@), ..self@ }),
    {
        let mut r = self;
        r.homepage = Some(url.to_string());
        r
    }

    /// The package with its repository set to `url`.
    pub fn repository(self, url: &str) -> (r: Self)
        requires
            self.wf(),
        ensures
            r.wf(),
            r@ == (PackageView { repository: Some(url@), ..self@ }),
    {
        let mut r = self;
        r.repository = Some(url.to_string());
        r
    }

    /// The package with the license text `license` added.
    pub fn license_text(self, license: String) -> (r: Self)
        requires
            self.wf(),
        ensures
            r.wf(),
            r@ == (PackageView { licenses: self@.licenses.push(license@), ..self@ }),
    {
        let mut r = self;
        let ghost t = license@;
        r.licenses.push(License { full_text: license });
        proof {
            assert(license_texts(r.licenses@) =~= license_texts(self.licenses@).push(t));
        }
        r
    }

    /// The package with all its license texts replaced by `license`.
    pub fn override_license_text(self, license: String) -> (r: Self)
        requires
            self.wf(),
        ensures
            r.wf(),
            r@ == (PackageView { licenses: seq![license@], ..self@ }),
    {
        let mut r = self;
        let ghost t = license@;
        r.licenses.clear();
        r.licenses.push(License { full_text: license });
        proof {
            assert(license_texts(r.licenses@) =~= seq![t]);
        }
        r
    }

    /// The package with the names of `dependencies` added to its
    /// dependencies.
    pub fn dependencies(self, dependencies: Vec<String>) -> (r: Self)
        requires
            self.wf(),
        ensures
            r.wf(),
            r@ == (PackageView {
                dependencies: self@.dependencies.union(name_set(dependencies@)),
                ..self@
            }),
    {
        let mut r = self;
        insert_all_sorted(&mut r.dependencies, dependencies);
        r
    }

    /// The package under the license of the members of the application.
    pub fn prehnite_member_license(self) -> (r: Self)
        requires
            self.wf(),
        ensures
            r.wf(),
            r@ == (PackageView { licenses: seq![PREHNITE_LICENSE_TEXT@], ..self@ }),
    {
        self.override_license_text(PREHNITE_LICENSE_TEXT.to_string())
    }

    /// The package of the application itself.
    pub fn prehnite() -> (r: Self)
        ensures
            r.wf(),
            r@ == prehnite_view(),
    {
        let names = get_names_from_default_license_bundle();
        let ghost nv = names@;
        let r = Package::new("prehnite", "Zlib")
            .author("saku shirakura<saku@sakushira.com>")
            .homepage("https://prehnite.jp")
            .dependencies(names)
            .prehnite_member_license();
        proof {
            assert(Set::<Seq<char>>::empty().union(name_set(nv)) =~= name_set(nv));
            assert(Seq::<Seq<char>>::empty().push("saku shirakura<saku@sakushira.com>"@) =~= seq!["saku shirakura<saku@sakushira.com>"@]);
        }
        r
    }
}

/// The package of the application: Zlib, by its author, with its homepage,
/// depending on every package of the default bundle.
pub open spec fn prehnite_view() -> PackageView {
    PackageView {
        name: "prehnite"@,
        authors: seq!["saku shirakura<saku@sakushira.com>"@],
        homepage: Some("https://prehnite.jp"@),
        repository: None,
        license_info: "Zlib"@,
        licenses: seq![PREHNITE_LICENSE_TEXT@],
        dependencies: crate::license_bundle::font::font_names().to_set(),
    }
}

/// The name of the entry of the license archive that holds the bundle.
pub const BUNDLE_ENTRY_NAME: &'static str = "content";

/// The serialized bundle held in a license archive: its entry `content`, or
/// `None` when the archive cannot be read or has no such entry.
pub fn read_license_bundle_content(data: &[u8]) -> (r: Option<Vec<u8>>)
    ensures
        match r {
            Some(v) => crate::db::util::zip_entry(data@, BUNDLE_ENTRY_NAME@) == Some(v@),
            None => crate::db::util::zip_entry(data@, BUNDLE_ENTRY_NAME@) is None,
        },
{
    crate::db::util::read_zip_entry(data, BUNDLE_ENTRY_NAME)
}

/// The views of a list of packages.
pub open spec fn package_views(v: Seq<Package>) -> Seq<PackageView> {
    v.map_values(|p: Package| p@)
}

/// The bundle used when no license list was collected: the fonts.
pub fn get_default_license_bundle() -> (r: Vec<Package>)
    ensures
        package_views(r@) == crate::license_bundle::font::font_views(),
        forall|i: int| 0 <= i < r@.len() ==> (#[trigger] r@[i]).wf(),
{
    crate::license_bundle::font::font()
}

/// The names of the packages of the default bundle, in order.
pub fn get_names_from_default_license_bundle() -> (r: Vec<String>)
    ensures
        string_views(r@) == crate::license_bundle::font::font_names(),
{
    let bundle = get_default_license_bundle();
    let mut r: Vec<String> = Vec::new();
    let mut i: usize = 0;
    while i < bundle.len()
        invariant
            0 <= i <= bundle@.len(),
            package_views(bundle@) == crate::license_bundle::font::font_views(),
            r@.len() == i,
            forall|j: int| 0 <= j < i ==> #[trigger] r@[j]@ == bundle@[j].name@,
        decreases bundle@.len() - i,
    {
        r.push(bundle[i].name.clone());
        i = i + 1;
    }
    proof {
        let fv = crate::license_bundle::font::font_views();
        let fnm = crate::license_bundle::font::font_names();
        assert(package_views(bundle@).len() == bundle@.len());
        assert(fv.len() == 3 && fnm.len() == 3);
        assert(fv[0].name == fnm[0] && fv[1].name == fnm[1] && fv[2].name == fnm[2]);
        assert forall|j: int| 0 <= j < r@.len() implies #[trigger] string_views(r@)[j] == crate::license_bundle::font::font_names()[j] by {
            assert(package_views(bundle@)[j] == bundle@[j]@);
            assert(fv[j].name == crate::license_bundle::font::font_names()[j]);
        }
        assert(string_views(r@) =~= crate::license_bundle::font::font_names());
    }
    r
}

} // verus!
