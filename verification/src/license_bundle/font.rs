//! The licenses of the fonts that the application ships with.
use vstd::prelude::*;
use crate::license_bundle::{new_view, package_views, Package, PackageView};

verus! {

/// The license notice of Material Symbols Outlined.
pub const MATERIAL_SYMBOLS_LICENSE_TEXT: &'static str = "Licensed under the Apache License, Version 2.0 (the \"License\");
you may not use this file except in compliance with the License.
You may obtain a copy of the License at

    http://www.apache.org/licenses/LICENSE-2.0

Unless required by applicable law or agreed to in writing, software
distributed under the License is distributed on an \"AS IS\" BASIS,
WITHOUT WARRANTIES OR CONDITIONS OF ANY KIND, either express or implied.
See the License for the specific language governing permissions and
limitations under the License.
";

/// The license notice of Noto Sans.
pub const NOTO_SANS_LICENSE_TEXT: &'static str = "This Font Software is licensed under the SIL Open Font License, Version 1.1.
This license is available with a FAQ at: https://openfontlicense.org
";

/// The license notice of Sawarabi Gothic.
pub const SAWARABI_GOTHIC_LICENSE_TEXT: &'static str = "This Font Software is licensed under the SIL Open Font License, Version 1.1.
This license is available with a FAQ at: https://openfontlicense.org
";

/// The font packages: Material Symbols Outlined (Apache-2.0), Noto Sans and
/// Sawarabi Gothic (OFL-1.1), each with its homepage, its repository where
/// it has one, and its license text.
pub open spec fn font_views() -> Seq<PackageView> {
    seq![
        PackageView {
            homepage: Some("https://fonts.google.com/icons"@),
            repository: Some("https://github.com/google/material-design-icons"@),
            licenses: seq![MATERIAL_SYMBOLS_LICENSE_TEXT@],
            ..new_view("Material Symbols Outlined"@, "Apache-2.0"@)
        },
        PackageView {
            homepage: Some("https://fonts.google.com/noto/specimen/Noto+Sans"@),
            repository: Some("https://github.com/notofonts/latin-greek-cyrillic"@),
            licenses: seq![NOTO_SANS_LICENSE_TEXT@],
            ..new_view("Noto Sans"@, "OFL-1.1"@)
        },
        PackageView {
            homepage: Some("https://fonts.google.com/specimen/Sawarabi+Gothic"@),
            licenses: seq![SAWARABI_GOTHIC_LICENSE_TEXT@],
            ..new_view("Sawarabi Gothic"@, "OFL-1.1"@)
        },
    ]
}

/// The names of the font packages, in order.
pub open spec fn font_names() -> Seq<Seq<char>> {
    seq!["Material Symbols Outlined"@, "Noto Sans"@, "Sawarabi Gothic"@]
}

/// The license bundle of the fonts.
pub fn font() -> (r: Vec<Package>)
    ensures
        package_views(r@) == font_views(),
        forall|i: int| 0 <= i < r@.len() ==> (#[trigger] r@[i]).wf(),
{
    let mut license: Vec<Package> = Vec::new();
    license.push(
        Package::new("Material Symbols Outlined", "Apache-2.0")
            .homepage("https://fonts.google.com/icons")
            .repository("https://github.com/google/material-design-icons")
            .license_text(MATERIAL_SYMBOLS_LICENSE_TEXT.to_string()),
    );
    license.push(
        Package::new("Noto Sans", "OFL-1.1")
            .homepage("https://fonts.google.com/noto/specimen/Noto+Sans")
            .repository("https://github.com/notofonts/latin-greek-cyrillic")
            .license_text(NOTO_SANS_LICENSE_TEXT.to_string()),
    );
    license.push(
        Package::new("Sawarabi Gothic", "OFL-1.1")
            .homepage("https://fonts.google.com/specimen/Sawarabi+Gothic")
            .license_text(SAWARABI_GOTHIC_LICENSE_TEXT.to_string()),
    );
    proof {
        assert(package_views(license@) =~= font_views());
    }
    license
}

} // verus!
