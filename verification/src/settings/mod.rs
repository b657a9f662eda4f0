//! Settings of the application: keys, entries, categories and the registry.
use vstd::prelude::*;
use crate::text::{str_eq, string_views};
use crate::settings::value::{SettingValue, SettingValueType};
use crate::i18n::{i18n, i18n_spec, CurrentI18nBundle};

pub mod global;
pub mod registry;
pub mod value;

verus! {

/// The database a setting lives in.
#[derive(Debug, Clone, Copy, PartialEq, Eq, Structural, Hash)]
pub enum DBType {
    /// The application-wide settings database.
    AppGlobal,
    /// The database of the open book.
    PrehniteBook,
}

/// Keys of the application-wide settings.
#[derive(Debug, Clone, Copy, PartialEq, Eq, Structural, PartialOrd, Ord, Hash)]
pub enum GlobalSettingKey {
    /// Language and region.
    Locale,
    /// Font.
    Font,
    /// Path of the file opened last.
    LastOpened,
    /// Whether the file opened last is opened at start.
    AutoOpenLastOpened,
}

/// Keys of the settings of a book.
#[derive(Debug, Clone, Copy, PartialEq, Eq, Structural, PartialOrd, Ord, Hash)]
pub enum BookSettingKey {
    /// Not used.
    Todo,
}

/// A key of any setting of the application.
#[derive(Debug, Clone, Copy, PartialEq, Eq, Structural, PartialOrd, Ord, Hash)]
pub enum SettingKey {
    /// An application-wide setting.
    Global(GlobalSettingKey),
    /// A setting of a book.
    Book(BookSettingKey),
}

/// A key text that names no setting key.
#[derive(Debug, Clone, Copy, PartialEq, Eq, Structural)]
pub enum UnknownSettingKey {
    VariantNotFound,
}

impl GlobalSettingKey {
    /// The text under which the key is stored.
    pub open spec fn key_text(self) -> Seq<char> {
        match self {
            GlobalSettingKey::Locale => "locale"@,
            GlobalSettingKey::Font => "font"@,
            GlobalSettingKey::LastOpened => "last-opened-file"@,
            GlobalSettingKey::AutoOpenLastOpened => "auto-open-last-opened-file"@,
        }
    }

    /// The text under which the key is stored.
    pub fn as_str(&self) -> (r: &'static str)
        ensures
            r@ == self.key_text(),
    {
        match self {
            GlobalSettingKey::Locale => "locale",
            GlobalSettingKey::Font => "font",
            GlobalSettingKey::LastOpened => "last-opened-file",
            GlobalSettingKey::AutoOpenLastOpened => "auto-open-last-opened-file",
        }
    }

    /// The key stored under the text `s`.
    pub fn try_from_str(s: &str) -> (r: Result<Self, UnknownSettingKey>)
        ensures
            match r {
                Ok(k) => k.key_text() == s@,
                Err(_) => forall|k: GlobalSettingKey| k.key_text() != s@,
            },
    {
        if str_eq(s, "locale") {
            Ok(GlobalSettingKey::Locale)
        } else if str_eq(s, "font") {
            Ok(GlobalSettingKey::Font)
        } else if str_eq(s, "last-opened-file") {
            Ok(GlobalSettingKey::LastOpened)
        } else if str_eq(s, "auto-open-last-opened-file") {
            Ok(GlobalSettingKey::AutoOpenLastOpened)
        } else {
            Err(UnknownSettingKey::VariantNotFound)
        }
    }
}

impl BookSettingKey {
    /// The text under which the key is stored.
    pub open spec fn key_text(self) -> Seq<char> {
        match self {
            BookSettingKey::Todo => "locked"@,
        }
    }

    /// The text under which the key is stored.
    pub fn as_str(&self) -> (r: &'static str)
        ensures
            r@ == self.key_text(),
    {
        match self {
            BookSettingKey::Todo => "locked",
        }
    }

    /// The key stored under the text `s`.
    pub fn try_from_str(s: &str) -> (r: Result<Self, UnknownSettingKey>)
        ensures
            match r {
                Ok(k) => k.key_text() == s@,
                Err(_) => forall|k: BookSettingKey| k.key_text() != s@,
            },
    {
        if str_eq(s, "locked") {
            Ok(BookSettingKey::Todo)
        } else {
            Err(UnknownSettingKey::VariantNotFound)
        }
    }
}

impl SettingKey {
    /// The text under which the key is stored.
    pub open spec fn key_text(self) -> Seq<char> {
        match self {
            SettingKey::Global(g) => g.key_text(),
            SettingKey::Book(b) => b.key_text(),
        }
    }

    /// The database the setting lives in.
    pub open spec fn db_type_spec(self) -> DBType {
        match self {
            SettingKey::Global(_) => DBType::AppGlobal,
            SettingKey::Book(_) => DBType::PrehniteBook,
        }
    }

    /// The text under which the key is stored.
    pub fn as_str(&self) -> (r: &'static str)
        ensures
            r@ == self.key_text(),
    {
        match self {
            SettingKey::Global(g) => g.as_str(),
            SettingKey::Book(b) => b.as_str(),
        }
    }

    /// The text under which the key is stored, as a `String` (what its
    /// `Display` writes).
    pub fn to_key_string(&self) -> (r: String)
        ensures
            r@ == self.key_text(),
    {
        self.as_str().to_string()
    }

    /// The database the setting lives in.
    pub fn db_type(&self) -> (r: DBType)
        ensures
            r == self.db_type_spec(),
    {
        match self {
            SettingKey::Global(_) => DBType::AppGlobal,
            SettingKey::Book(_) => DBType::PrehniteBook,
        }
    }

    /// The key of the database `target` stored under the text `s`: a global
    /// key for the global database, a book key for a book.
    pub fn parse_for(target: DBType, s: &str) -> (r: Result<SettingKey, UnknownSettingKey>)
        ensures
            match r {
                Ok(k) => k.key_text() == s@ && k.db_type_spec() == target,
                Err(_) => forall|k: SettingKey| k.db_type_spec() == target ==> k.key_text() != s@,
            },
    {
        match target {
            DBType::AppGlobal => match GlobalSettingKey::try_from_str(s) {
                Ok(g) => Ok(SettingKey::Global(g)),
                Err(e) => Err(e),
            },
            DBType::PrehniteBook => match BookSettingKey::try_from_str(s) {
                Ok(b) => Ok(SettingKey::Book(b)),
                Err(e) => Err(e),
            },
        }
    }
}

impl From<GlobalSettingKey> for SettingKey {
    fn from(value: GlobalSettingKey) -> (r: Self)
        ensures
            r == SettingKey::Global(value),
    {
        SettingKey::Global(value)
    }
}

impl vstd::std_specs::convert::FromSpecImpl<GlobalSettingKey> for SettingKey {
    open spec fn obeys_from_spec() -> bool {
        true
    }

    open spec fn from_spec(v: GlobalSettingKey) -> SettingKey {
        SettingKey::Global(v)
    }
}

impl From<BookSettingKey> for SettingKey {
    fn from(value: BookSettingKey) -> (r: Self)
        ensures
            r == SettingKey::Book(value),
    {
        SettingKey::Book(value)
    }
}

impl vstd::std_specs::convert::FromSpecImpl<BookSettingKey> for SettingKey {
    open spec fn obeys_from_spec() -> bool {
        true
    }

    open spec fn from_spec(v: BookSettingKey) -> SettingKey {
        SettingKey::Book(v)
    }
}

impl From<SettingKey> for DBType {
    fn from(value: SettingKey) -> (r: Self)
        ensures
            r == value.db_type_spec(),
    {
        value.db_type()
    }
}

impl vstd::std_specs::convert::FromSpecImpl<SettingKey> for DBType {
    open spec fn obeys_from_spec() -> bool {
        true
    }

    open spec fn from_spec(v: SettingKey) -> DBType {
        v.db_type_spec()
    }
}


/// The characters of each string of an optional list.
pub open spec fn opt_strings_view(v: Option<Vec<String>>) -> Option<Seq<Seq<char>>> {
    match v {
        Some(l) => Some(string_views(l@)),
        None => None,
    }
}

/// A copy of a list of strings.
pub fn clone_strings(v: &Vec<String>) -> (r: Vec<String>)
    ensures
        r@ == v@,
{
    let mut r: Vec<String> = Vec::new();
    let mut i: usize = 0;
    while i < v.len()
        invariant
            0 <= i <= v.len(),
            r@ == v@.take(i as int),
        decreases v.len() - i,
    {
        r.push(v[i].clone());
        i = i + 1;
        assert(r@ =~= v@.take(i as int));
    }
    assert(v@.take(v.len() as int) =~= v@);
    r
}

/// One entry of the settings: its key, the i18n key of its name, its default
/// value (whose variant fixes the type of the setting), whether the settings
/// screen shows it, and the values a combo box offers for it.
#[derive(Debug)]
pub struct SettingEntry {
    setting_key: SettingKey,
    display_key: &'static str,
    default_value: SettingValueType,
    is_visible: bool,
    selectable_values: Option<Vec<String>>,
}

/// The mathematical form of a setting entry.
pub struct EntryView {
    pub key: SettingKey,
    pub display_key: Seq<char>,
    pub default_value: SettingValue,
    pub is_visible: bool,
    pub selectable: Option<Seq<Seq<char>>>,
}

impl View for SettingEntry {
    type V = EntryView;

    closed spec fn view(&self) -> EntryView {
        EntryView {
            key: self.setting_key,
            display_key: self.display_key@,
            default_value: self.default_value@,
            is_visible: self.is_visible,
            selectable: opt_strings_view(self.selectable_values),
        }
    }
}

impl SettingEntry {
    /// The default value of the entry, as it is held.
    pub closed spec fn default_spec(self) -> SettingValueType {
        self.default_value
    }

    /// The mathematical form of the default is the default of the view.
    pub proof fn lemma_default_view(self)
        ensures
            self.default_spec()@ == self@.default_value,
    {
    }

    /// A visible entry named after its key, with no values to select.
    pub fn new(setting_key: SettingKey, default_value: SettingValueType) -> (r: Self)
        ensures
            r@.key == setting_key,
            r@.display_key == setting_key.key_text(),
            r.default_spec() == default_value,
            r@.default_value == default_value@,
            r@.is_visible,
            r@.selectable is None,
    {
        SettingEntry {
            setting_key,
            display_key: setting_key.as_str(),
            default_value,
            is_visible: true,
            selectable_values: None,
        }
    }

    /// The key of the entry.
    pub fn get_setting_key(&self) -> (r: SettingKey)
        ensures
            r == self@.key,
    {
        self.setting_key
    }

    /// The i18n key of the name of the entry.
    pub fn get_display_key(&self) -> (r: &'static str)
        ensures
            r@ == self@.display_key,
    {
        self.display_key
    }

    /// The name of the entry in the language of `current`.
    pub fn get_display(&self, current: &CurrentI18nBundle) -> (r: String)
        ensures
            r@ == i18n_spec(current@, self@.display_key),
    {
        i18n(current, self.display_key)
    }

    /// Whether the settings screen shows the entry.
    pub fn get_is_visible(&self) -> (r: bool)
        ensures
            r == self@.is_visible,
    {
        self.is_visible
    }

    /// The values a combo box offers for the entry.
    pub fn get_selectable_values(&self) -> (r: Option<Vec<String>>)
        ensures
            opt_strings_view(r) == self@.selectable,
    {
        match &self.selectable_values {
            Some(v) => Some(clone_strings(v)),
            None => None,
        }
    }

    /// The default value of the entry.
    pub fn default_value(&self) -> (r: &SettingValueType)
        ensures
            *r == self.default_spec(),
    {
        &self.default_value
    }

    /// The entry with the given visibility on the settings screen.
    pub fn visibility(self, is_visible: bool) -> (r: Self)
        ensures
            r@ == (EntryView { is_visible, ..self@ }),
            r.default_spec() == self.default_spec(),
    {
        let mut r = self;
        r.is_visible = is_visible;
        r
    }

    /// The entry named by the i18n key `display_key`.
    pub fn display_key(self, display_key: &'static str) -> (r: Self)
        ensures
            r@ == (EntryView { display_key: display_key@, ..self@ }),
            r.default_spec() == self.default_spec(),
    {
        let mut r = self;
        r.display_key = display_key;
        r
    }

    /// The entry offering `values` to select. Only a string setting offers
    /// values.
    pub fn selectable_values(self, values: &[&str]) -> (r: Self)
        requires
            self.default_spec() is String,
        ensures
            r@ == (EntryView { selectable: Some(values@.map_values(|v: &str| v@)), ..self@ }),
            r.default_spec() == self.default_spec(),
    {
        let mut list: Vec<String> = Vec::new();
        let mut i: usize = 0;
        while i < values.len()
            invariant
                0 <= i <= values@.len(),
                list@.len() == i,
            forall|j: int| 0 <= j < i ==> #[trigger] list@[j]@ == values@[j]@,
            decreases values@.len() - i,
        {
            let t = values[i].to_string();
            proof {
                vstd::string::to_string_from_display_ensures_for_str(values@[i as int], t);
            }
            list.push(t);
            i = i + 1;
        }
        assert(string_views(list@) =~= values@.map_values(|v: &str| v@));
        let mut r = self;
        r.selectable_values = Some(list);
        r
    }
}

impl Clone for SettingEntry {
    fn clone(&self) -> (r: Self)
        ensures
            r@ == self@,
            r.default_spec() == self.default_spec(),
    {
        SettingEntry {
            setting_key: self.setting_key,
            display_key: self.display_key,
            default_value: self.default_value.clone(),
            is_visible: self.is_visible,
            selectable_values: match &self.selectable_values {
                Some(v) => Some(clone_strings(v)),
                None => None,
            },
        }
    }
}

/// A category of the settings: the i18n key of its name and its entries.
#[derive(Debug)]
pub struct SettingCategory {
    category_name_i18n_key: &'static str,
    entries: Vec<SettingEntry>,
}

impl SettingCategory {
    /// The i18n key of the name of the category.
    pub closed spec fn name_key(self) -> Seq<char> {
        self.category_name_i18n_key@
    }

    /// The entries of the category.
    pub closed spec fn entries_spec(self) -> Seq<SettingEntry> {
        self.entries@
    }

    /// An empty category named by the i18n key `category_name_i18n_key`.
    pub fn new(category_name_i18n_key: &'static str) -> (r: Self)
        ensures
            r.name_key() == category_name_i18n_key@,
            r.entries_spec() == Seq::<SettingEntry>::empty(),
    {
        SettingCategory { category_name_i18n_key, entries: Vec::new() }
    }

    /// The category with `entry` added at the end.
    pub fn add(self, entry: SettingEntry) -> (r: Self)
        ensures
            r.name_key() == self.name_key(),
            r.entries_spec() == self.entries_spec().push(entry),
    {
        let mut r = self;
        r.entries.push(entry);
        r
    }

    /// The entries of the category.
    pub fn entries(&self) -> (r: &Vec<SettingEntry>)
        ensures
            r@ == self.entries_spec(),
    {
        &self.entries
    }

    /// The name of the category in the language of `current`.
    pub fn category_name(&self, current: &CurrentI18nBundle) -> (r: String)
        ensures
            r@ == i18n_spec(current@, self.name_key()),
    {
        i18n(current, self.category_name_i18n_key)
    }

    /// The i18n key of the name of the category.
    pub fn category_name_key(&self) -> (r: &'static str)
        ensures
            r@ == self.name_key(),
    {
        self.category_name_i18n_key
    }
}

/// Different keys are stored under different texts.
pub proof fn lemma_key_text_injective(k: SettingKey, j: SettingKey)
    ensures
        k.key_text() == j.key_text() ==> k == j,
{
    reveal_strlit("locale");
    reveal_strlit("font");
    reveal_strlit("last-opened-file");
    reveal_strlit("auto-open-last-opened-file");
    reveal_strlit("locked");
    if k.key_text() == j.key_text() {
        let t = k.key_text();
        assert(t.len() == j.key_text().len());
        if t.len() > 0 {
            assert(t[0] == j.key_text()[0]);
        }
        if t.len() > 1 {
            assert(t[1] == j.key_text()[1]);
        }
        if t.len() > 3 {
            assert(t[3] == j.key_text()[3]);
        }
    }
}

/// Parsing the stored text of a key, in the database of that key, gives the
/// key back.
pub proof fn law_key_text_parses_back(k: SettingKey, r: Result<SettingKey, UnknownSettingKey>)
    requires
        match r {
            Ok(j) => j.key_text() == k.key_text() && j.db_type_spec() == k.db_type_spec(),
            Err(_) => forall|j: SettingKey| j.db_type_spec() == k.db_type_spec() ==> j.key_text() != k.key_text(),
        },
    ensures
        r == Ok::<SettingKey, UnknownSettingKey>(k),
{
    match r {
        Ok(j) => {
            lemma_key_text_injective(k, j);
        },
        Err(_) => {
            assert(k.db_type_spec() == k.db_type_spec());
        },
    }
}

} // verus!
