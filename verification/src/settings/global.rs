//! The application-wide settings as one record.
use vstd::prelude::*;
use crate::i18n::{SupportedLanguages, DEFAULT_LANG_ID};

verus! {

/// The application-wide settings: the language, the font, the file opened
/// last and whether it is opened at start.
#[derive(Clone, Debug)]
pub struct GlobalSettings {
    locale: Option<SupportedLanguages>,
    font: Option<String>,
    last_opened_file: Option<String>,
    auto_open_last_opened_file: Option<bool>,
}

/// The mathematical form of the settings.
pub struct GlobalSettingsView {
    pub locale: Option<SupportedLanguages>,
    pub font: Option<Seq<char>>,
    pub last_opened_file: Option<Seq<char>>,
    pub auto_open_last_opened_file: Option<bool>,
}

impl View for GlobalSettings {
    type V = GlobalSettingsView;

    closed spec fn view(&self) -> GlobalSettingsView {
        GlobalSettingsView {
            locale: self.locale,
            font: crate::settings::value::opt_view(self.font),
            last_opened_file: crate::settings::value::opt_view(self.last_opened_file),
            auto_open_last_opened_file: self.auto_open_last_opened_file,
        }
    }
}

impl Default for GlobalSettings {
    /// The defaults: the default language, no font, no file opened last, and
    /// opening the file opened last at start.
    fn default() -> (r: Self)
        ensures
            r@ == (GlobalSettingsView {
                locale: Some(DEFAULT_LANG_ID),
                font: None,
                last_opened_file: None,
                auto_open_last_opened_file: Some(true),
            }),
    {
        GlobalSettings {
            locale: Some(DEFAULT_LANG_ID),
            font: None,
            last_opened_file: None,
            auto_open_last_opened_file: Some(true),
        }
    }
}

impl GlobalSettings {
    /// The language.
    pub fn get_locale(&self) -> (r: Option<SupportedLanguages>)
        ensures
            r == self@.locale,
    {
        self.locale
    }

    /// Sets the language.
    pub fn set_locale(&mut self, locale: Option<SupportedLanguages>)
        ensures
            final(self)@ == (GlobalSettingsView { locale, ..old(self)@ }),
    {
        self.locale = locale;
    }

    /// The font.
    pub fn get_font(&self) -> (r: Option<String>)
        ensures
            crate::settings::value::opt_view(r) == self@.font,
    {
        crate::db::schema::clone_opt_string(&self.font)
    }

    /// Sets the font.
    pub fn set_font(&mut self, font: Option<String>)
        ensures
            final(self)@ == (GlobalSettingsView { font: crate::settings::value::opt_view(font), ..old(self)@ }),
    {
        self.font = font;
    }

    /// The file opened last.
    pub fn get_last_opened_file(&self) -> (r: Option<String>)
        ensures
            crate::settings::value::opt_view(r) == self@.last_opened_file,
    {
        crate::db::schema::clone_opt_string(&self.last_opened_file)
    }

    /// Sets the file opened last.
    pub fn set_last_opened_file(&mut self, path: Option<String>)
        ensures
            final(self)@ == (GlobalSettingsView {
                last_opened_file: crate::settings::value::opt_view(path),
                ..old(self)@
            }),
    {
        self.last_opened_file = path;
    }

    /// Whether the file opened last is opened at start.
    pub fn get_auto_open_last_opened_file(&self) -> (r: Option<bool>)
        ensures
            r == self@.auto_open_last_opened_file,
    {
        self.auto_open_last_opened_file
    }

    /// Sets whether the file opened last is opened at start.
    pub fn set_auto_open_last_opened_file(&mut self, value: Option<bool>)
        ensures
            final(self)@ == (GlobalSettingsView { auto_open_last_opened_file: value, ..old(self)@ }),
    {
        self.auto_open_last_opened_file = value;
    }
}

} // verus!
