//! The fonts of the application and the choice of a default.
use vstd::prelude::*;
use crate::i18n::get_locale_language;
use crate::license_bundle::names::{insert_sorted, name_set, sorted_strict};
use crate::text::{str_eq, string_views};

verus! {

/// The family name of Noto Sans.
pub const NOTO_SANS_NAME: &'static str = "Noto Sans";

/// The family name of Sawarabi Gothic.
pub const SAWARABI_GOTHIC_NAME: &'static str = "Sawarabi Gothic";

/// The family name of Material Symbols Outlined.
pub const MATERIAL_SYMBOLS_OUTLINED_NAME: &'static str = "Material Symbols Outlined";

/// The default font family for the language `language`: Sawarabi Gothic for
/// Japanese, Noto Sans otherwise.
pub fn default_font_family_for(language: &str) -> (r: &'static str)
    ensures
        r@ == if language@ == "ja"@ {
            SAWARABI_GOTHIC_NAME@
        } else {
            NOTO_SANS_NAME@
        },
{
    if str_eq(language, "ja") {
        SAWARABI_GOTHIC_NAME
    } else {
        NOTO_SANS_NAME
    }
}

/// The default font family for the language of the system.
pub fn get_default_font_family() -> (r: &'static str)
    ensures
        r@ == SAWARABI_GOTHIC_NAME@ || r@ == NOTO_SANS_NAME@,
{
    default_font_family_for(get_locale_language().as_str())
}

/// The family names of the loaded fonts, sorted and without repetition.
pub fn font_list_from(families: Vec<String>) -> (r: Vec<String>)
    ensures
        sorted_strict(string_views(r@)),
        name_set(r@) == name_set(families@),
{
    let mut r: Vec<String> = Vec::new();
    let mut i: usize = 0;
    proof {
        assert(name_set(r@) =~= name_set(families@.take(0)));
    }
    while i < families.len()
        invariant
            0 <= i <= families@.len(),
            sorted_strict(string_views(r@)),
            name_set(r@) == name_set(families@.take(i as int)),
        decreases families@.len() - i,
    {
        insert_sorted(&mut r, families[i].clone());
        proof {
            let a = string_views(families@.take(i + 1));
            let b = string_views(families@.take(i as int));
            assert(a =~= b.push(families@[i as int]@));
            b.lemma_push_to_set_commute(families@[i as int]@);
        }
        i = i + 1;
    }
    proof {
        assert(families@.take(families@.len() as int) =~= families@);
    }
    r
}

} // verus!
