//! The license bundle in its standalone form, in which the dependency names
//! of a package form a list that grows at its end.
use vstd::prelude::*;
use crate::license_bundle::{opt_chars, PREHNITE_LICENSE_TEXT};
use crate::license_bundle::font::{MATERIAL_SYMBOLS_LICENSE_TEXT, NOTO_SANS_LICENSE_TEXT, SAWARABI_GOTHIC_LICENSE_TEXT};
use crate::text::string_views;

verus! {

/// One license text of a package.
#[derive(Default, Debug, Clone, PartialEq, Eq)]
pub struct License {
    pub full_text: String,
}

/// A third-party software package, its licenses and the names of the
/// packages it depends on.
#[derive(Default, Debug, Clone, PartialEq, Eq)]
pub struct Package {
    pub name: String,
    pub authors: Vec<String>,
    pub homepage: Option<String>,
    pub repository: Option<String>,
    pub license_info: String,
    pub licenses: Vec<License>,
    pub dependencies: Vec<String>,
}

/// The mathematical form of a package.
pub struct PackageView {
    pub name: Seq<char>,
    pub authors: Seq<Seq<char>>,
    pub homepage: Option<Seq<char>>,
    pub repository: Option<Seq<char>>,
    pub license_info: Seq<char>,
    pub licenses: Seq<Seq<char>>,
    pub dependencies: Seq<Seq<char>>,
}

/// The texts of a list of licenses.
pub open spec fn license_texts(v: Seq<License>) -> Seq<Seq<char>> {
    v.map_values(|l: License| l.full_text@)
}

impl View for Package {
    type V = PackageView;

    open spec fn view(&self) -> PackageView {
        PackageView {
            name: self.name@,
            authors: string_views(self.authors@),
            homepage: opt_chars(self.homepage),
            repository: opt_chars(self.repository),
            license_info: self.license_info@,
            licenses: license_texts(self.licenses@),
            dependencies: string_views(self.dependencies@),
        }
    }
}

/// A package with a name and license information and nothing else.
pub open spec fn new_view(name: Seq<char>, license_info: Seq<char>) -> PackageView {
    PackageView {
        name,
        authors: Seq::empty(),
        homepage: None,
        repository: None,
        license_info,
        licenses: Seq::empty(),
        dependencies: Seq::empty(),
    }
}

impl Package {
    /// A package with a name and license information.
    pub fn new(name: &str, license_info: &str) -> (r: Self)
        ensures
            r@ == new_view(name@, license_info@),
    {
        let r = Package {
            name: name.to_string(),
            authors: Vec::new(),
            homepage: None,
            repository: None,
            license_info: license_info.to_string(),
            licenses: Vec::new(),
            dependencies: Vec::new(),
        };
        proof {
            assert(string_views(r.authors@) =~= Seq::<Seq<char>>::empty());
            assert(license_texts(r.licenses@) =~= Seq::<Seq<char>>::empty());
            assert(string_views(r.dependencies@) =~= Seq::<Seq<char>>::empty());
        }
        r
    }

    /// The package with `author` added to its authors.
    pub fn author(self, author: &str) -> (r: Self)
        ensures
            r@ == (PackageView { authors: self@.authors.push(author@), ..self@ }),
    {
        let mut r = self;
        r.authors.push(author.to_string());
        proof {
            assert(string_views(r.authors@) =~= string_views(self.authors@).push(author@));
        }
        r
    }

    /// The package with its homepage set to `url`.
    pub fn homepage(self, url: &str) -> (r: Self)
        ensures
            r@ == (PackageView { homepage: Some(url@), ..self@ }),
    {
        let mut r = self;
        r.homepage = Some(url.to_string());
        r
    }

    /// The package with its repository set to `url`.
    pub fn repository(self, url: &str) -> (r: Self)
        ensures
            r@ == (PackageView { repository: Some(url@), ..self@ }),
    {
        let mut r = self;
        r.repository = Some(url.to_string());
        r
    }

    /// The package with the license text `license` added.
    pub fn license_text(self, license: String) -> (r: Self)
        ensures
            r@ == (PackageView { licenses: self@.licenses.push(license@), ..self@ }),
    {
        let mut r = self;
        let ghost t = license@;
        r.licenses.push(License { full_text: license });
        proof {
            assert(license_texts(r.licenses@) =~= license_texts(self.licenses@).push(t));
        }
        r
    }

    /// The package with the names of `dependencies` appended to its
    /// dependencies.
    pub fn dependencies(self, dependencies: Vec<String>) -> (r: Self)
        ensures
            r@ == (PackageView {
                dependencies: self@.dependencies + string_views(dependencies@),
                ..self@
            }),
    {
        let mut r = self;
        let mut extra = dependencies;
        let ghost a = string_views(r.dependencies@);
        let ghost b = string_views(extra@);
        r.dependencies.append(&mut extra);
        proof {
            assert(string_views(r.dependencies@) =~= a + b);
        }
        r
    }

    /// The package of the application itself.
    pub fn prehnite() -> (r: Self)
        ensures
            r@ == prehnite_view(),
    {
        let names = get_names_from_default_license_bundle();
        let ghost nv = names@;
        let r = Package::new("prehnite", "Zlib")
            .author("saku shirakura<saku@sakushira.com>")
            .homepage("https://prehnite.jp")
            .repository("https://github.com/saku-shirakura/prehnite")
            .license_text(PREHNITE_LICENSE_TEXT.to_string())
            .dependencies(names);
        proof {
            assert(Seq::<Seq<char>>::empty() + string_views(nv) =~= string_views(nv));
            assert(Seq::<Seq<char>>::empty().push("saku shirakura<saku@sakushira.com>"@) =~= seq!["saku shirakura<saku@sakushira.com>"@]);
            assert(Seq::<Seq<char>>::empty().push(PREHNITE_LICENSE_TEXT@) =~= seq![PREHNITE_LICENSE_TEXT@]);
        }
        r
    }
}

/// The package of the application: Zlib, by its author, with its homepage
/// and repository, depending on every package of the default bundle.
pub open spec fn prehnite_view() -> PackageView {
    PackageView {
        name: "prehnite"@,
        authors: seq!["saku shirakura<saku@sakushira.com>"@],
        homepage: Some("https://prehnite.jp"@),
        repository: Some("https://github.com/saku-shirakura/prehnite"@),
        license_info: "Zlib"@,
        licenses: seq![PREHNITE_LICENSE_TEXT@],
        dependencies: font_names(),
    }
}

/// The font packages: Material Symbols Outlined (Apache-2.0), Noto Sans and
/// Sawarabi Gothic (OFL-1.1), each with its homepage, its repository where
/// it has one, and its license text.
pub open spec fn font_views() -> Seq<PackageView> {
    seq![
        PackageView {
            homepage: Some("https://fonts.google.com/icons"@),
            repository: Some("https://github.com/google/material-design-icons"@),
            licenses: seq![MATERIAL_SYMBOLS_LICENSE_TEXT@],
            ..new_view("Material Symbols Outlined"@, "Apache-2.0"@)
        },
        PackageView {
            homepage: Some("https://fonts.google.com/noto/specimen/Noto+Sans"@),
            repository: Some("https://github.com/notofonts/latin-greek-cyrillic"@),
            licenses: seq![NOTO_SANS_LICENSE_TEXT@],
            ..new_view("Noto Sans"@, "OFL-1.1"@)
        },
        PackageView {
            homepage: Some("https://fonts.google.com/specimen/Sawarabi+Gothic"@),
            licenses: seq![SAWARABI_GOTHIC_LICENSE_TEXT@],
            ..new_view("Sawarabi Gothic"@, "OFL-1.1"@)
        },
    ]
}

/// The names of the font packages, in order.
pub open spec fn font_names() -> Seq<Seq<char>> {
    seq!["Material Symbols Outlined"@, "Noto Sans"@, "Sawarabi Gothic"@]
}

/// The license bundle of the fonts.
pub fn font() -> (r: Vec<Package>)
    ensures
        package_views(r@) == font_views(),
{
    let mut license: Vec<Package> = Vec::new();
    license.push(
        Package::new("Material Symbols Outlined", "Apache-2.0")
            .homepage("https://fonts.google.com/icons")
            .repository("https://github.com/google/material-design-icons")
            .license_text(MATERIAL_SYMBOLS_LICENSE_TEXT.to_string()),
    );
    license.push(
        Package::new("Noto Sans", "OFL-1.1")
            .homepage("https://fonts.google.com/noto/specimen/Noto+Sans")
            .repository("https://github.com/notofonts/latin-greek-cyrillic")
            .license_text(NOTO_SANS_LICENSE_TEXT.to_string()),
    );
    license.push(
        Package::new("Sawarabi Gothic", "OFL-1.1")
            .homepage("https://fonts.google.com/specimen/Sawarabi+Gothic")
            .license_text(SAWARABI_GOTHIC_LICENSE_TEXT.to_string()),
    );
    proof {
        assert(package_views(license@) =~= font_views());
    }
    license
}


/// The views of a list of packages.
pub open spec fn package_views(v: Seq<Package>) -> Seq<PackageView> {
    v.map_values(|p: Package| p@)
}

/// The bundle used when no license list was collected: the fonts.
pub fn get_default_license_bundle() -> (r: Vec<Package>)
    ensures
        package_views(r@) == font_views(),
{
    font()
}

/// The names of the packages of the default bundle, in order.
pub fn get_names_from_default_license_bundle() -> (r: Vec<String>)
    ensures
        string_views(r@) == font_names(),
{
    let bundle = get_default_license_bundle();
    let mut r: Vec<String> = Vec::new();
    let mut i: usize = 0;
    while i < bundle.len()
        invariant
            0 <= i <= bundle@.len(),
            package_views(bundle@) == font_views(),
            r@.len() == i,
            forall|j: int| 0 <= j < i ==> #[trigger] r@[j]@ == bundle@[j].name@,
        decreases bundle@.len() - i,
    {
        r.push(bundle[i].name.clone());
        i = i + 1;
    }
    proof {
        let fv = font_views();
        let fnm = font_names();
        assert(package_views(bundle@).len() == bundle@.len());
        assert(fv.len() == 3 && fnm.len() == 3);
        assert(fv[0].name == fnm[0] && fv[1].name == fnm[1] && fv[2].name == fnm[2]);
        assert forall|j: int| 0 <= j < r@.len() implies #[trigger] string_views(r@)[j] == font_names()[j] by {
            assert(package_views(bundle@)[j] == bundle@[j]@);
            assert(fv[j].name == font_names()[j]);
        }
        assert(string_views(r@) =~= font_names());
    }
    r
}

} // verus!
