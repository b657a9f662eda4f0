//! The registry of the settings: their categories, entries and current
//! values.
use vstd::prelude::*;
use crate::db::schema::Setting;
use crate::settings::value::{
    convert_spec, lemma_value_text_round_trip, opt_view, same_kind, value_text, SettingValue,
    SettingValueType,
};
use crate::settings::{DBType, EntryView, GlobalSettingKey, SettingCategory, SettingEntry, SettingKey};
use crate::i18n::{fallback_locale, supported_ids, supported_lang_id, DEFAULT_LANG_ID};

verus! {

/// The values held by a list of pairs, a later pair of a key replacing an
/// earlier one.
pub open spec fn pairs_map(vs: Seq<(SettingKey, SettingValueType)>) -> Map<SettingKey, SettingValue>
    decreases vs.len(),
{
    if vs.len() == 0 {
        Map::empty()
    } else {
        pairs_map(vs.drop_last()).insert(vs.last().0, vs.last().1@)
    }
}

/// The entries of a list, a later entry of a key replacing an earlier one.
pub open spec fn entries_map(es: Seq<SettingEntry>) -> Map<SettingKey, EntryView>
    decreases es.len(),
{
    if es.len() == 0 {
        Map::empty()
    } else {
        entries_map(es.drop_last()).insert(es.last()@.key, es.last()@)
    }
}

/// No key occurs twice among the pairs.
pub open spec fn pair_keys_unique(vs: Seq<(SettingKey, SettingValueType)>) -> bool {
    forall|i: int, j: int| 0 <= i < j < vs.len() ==> #[trigger] vs[i].0 != #[trigger] vs[j].0
}

/// No key occurs twice among the entries.
pub open spec fn entry_keys_unique(es: Seq<SettingEntry>) -> bool {
    forall|i: int, j: int| 0 <= i < j < es.len() ==> #[trigger] es[i]@.key != #[trigger] es[j]@.key
}

/// The values after setting each entry of `es` to its default, in order.
pub open spec fn with_defaults(m: Map<SettingKey, SettingValue>, es: Seq<SettingEntry>) -> Map<SettingKey, SettingValue>
    decreases es.len(),
{
    if es.len() == 0 {
        m
    } else {
        with_defaults(m, es.drop_last()).insert(es.last()@.key, es.last()@.default_value)
    }
}

/// The entries after adding each entry of `es`, in order.
pub open spec fn with_entries(m: Map<SettingKey, EntryView>, es: Seq<SettingEntry>) -> Map<SettingKey, EntryView>
    decreases es.len(),
{
    if es.len() == 0 {
        m
    } else {
        with_entries(m, es.drop_last()).insert(es.last()@.key, es.last()@)
    }
}

/// The key of the database `target` stored under the text `text`, if any.
pub open spec fn key_named(target: DBType, text: Seq<char>) -> Option<SettingKey> {
    if exists|k: SettingKey| k.db_type_spec() == target && k.key_text() == text {
        Some(choose|k: SettingKey| k.db_type_spec() == target && k.key_text() == text)
    } else {
        None
    }
}

/// The value read from a stored row of key `k`: converted to the type of
/// the entry of `k` when there is one, kept as text otherwise.
pub open spec fn loaded_value(entries: Map<SettingKey, EntryView>, k: SettingKey, text: Option<Seq<char>>) -> SettingValue {
    if entries.contains_key(k) {
        convert_spec(entries[k].default_value, text)
    } else {
        SettingValue::Text(text)
    }
}

/// The values after reading one stored row of the database `target`: a
/// row whose key text names no key of that database is ignored.
pub open spec fn apply_row(
    entries: Map<SettingKey, EntryView>,
    target: DBType,
    m: Map<SettingKey, SettingValue>,
    key_text: Seq<char>,
    value: Option<Seq<char>>,
) -> Map<SettingKey, SettingValue> {
    match key_named(target, key_text) {
        Some(k) => m.insert(k, loaded_value(entries, k, value)),
        None => m,
    }
}

/// The values after reading the stored rows in order.
pub open spec fn apply_rows(
    entries: Map<SettingKey, EntryView>,
    target: DBType,
    m: Map<SettingKey, SettingValue>,
    rows: Seq<Setting>,
) -> Map<SettingKey, SettingValue>
    decreases rows.len(),
{
    if rows.len() == 0 {
        m
    } else {
        let prev = apply_rows(entries, target, m, rows.drop_last());
        apply_row(entries, target, prev, rows.last().setting_key@, opt_view(rows.last().setting_value))
    }
}

/// The keys of the entries that live in the database `target`, in order.
pub open spec fn keys_of(es: Seq<SettingEntry>, target: DBType) -> Seq<SettingKey>
    decreases es.len(),
{
    if es.len() == 0 {
        Seq::empty()
    } else if es.last()@.key.db_type_spec() == target {
        keys_of(es.drop_last(), target).push(es.last()@.key)
    } else {
        keys_of(es.drop_last(), target)
    }
}

/// The registry of the settings: the categories shown on the settings
/// screen, the entries by key and the current value of each key.
#[derive(Debug)]
pub struct SettingRegistry {
    pub categories: Vec<SettingCategory>,
    pub entries: Vec<SettingEntry>,
    values: Vec<(SettingKey, SettingValueType)>,
}

impl SettingRegistry {
    /// No key occurs twice among the entries nor among the values.
    pub closed spec fn wf(&self) -> bool {
        &&& entry_keys_unique(self.entries@)
        &&& pair_keys_unique(self.values@)
    }

    /// The entries held, in order.
    pub closed spec fn entries_spec(&self) -> Seq<SettingEntry> {
        self.entries@
    }

    /// The categories held, in order.
    pub closed spec fn categories_spec(&self) -> Seq<SettingCategory> {
        self.categories@
    }

    /// The pairs of keys and values held.
    pub closed spec fn values_spec(&self) -> Seq<(SettingKey, SettingValueType)> {
        self.values@
    }

    /// The current value of each key.
    pub open spec fn value_map(&self) -> Map<SettingKey, SettingValue> {
        pairs_map(self.values_spec())
    }

    /// The entry of each key.
    pub open spec fn entry_map(&self) -> Map<SettingKey, EntryView> {
        entries_map(self.entries_spec())
    }

    /// An empty registry.
    pub fn new() -> (r: Self)
        ensures
            r.wf(),
            r.categories_spec() == Seq::<SettingCategory>::empty(),
            r.entry_map() == Map::<SettingKey, EntryView>::empty(),
            r.value_map() == Map::<SettingKey, SettingValue>::empty(),
    {
        SettingRegistry { categories: Vec::new(), entries: Vec::new(), values: Vec::new() }
    }

    /// The position of the value of `key`.
    fn find_value(&self, key: SettingKey) -> (r: Option<usize>)
        ensures
            match r {
                Some(i) => i < self.values_spec().len() && self.values_spec()[i as int].0 == key,
                None => forall|i: int| 0 <= i < self.values_spec().len() ==> self.values_spec()[i].0 != key,
            },
    {
        let mut i: usize = 0;
        while i < self.values.len()
            invariant
                0 <= i <= self.values@.len(),
                forall|j: int| 0 <= j < i ==> self.values@[j].0 != key,
            decreases self.values@.len() - i,
        {
            if self.values[i].0 == key {
                return Some(i);
            }
            i = i + 1;
        }
        None
    }

    /// The position of the entry of `key`.
    fn find_entry(&self, key: SettingKey) -> (r: Option<usize>)
        ensures
            match r {
                Some(i) => i < self.entries@.len() && self.entries@[i as int]@.key == key,
                None => forall|i: int| 0 <= i < self.entries@.len() ==> self.entries@[i]@.key != key,
            },
    {
        let mut i: usize = 0;
        while i < self.entries.len()
            invariant
                0 <= i <= self.entries@.len(),
                forall|j: int| 0 <= j < i ==> self.entries@[j]@.key != key,
            decreases self.entries@.len() - i,
        {
            if self.entries[i].get_setting_key() == key {
                return Some(i);
            }
            i = i + 1;
        }
        None
    }

    /// Sets the value of `key`, adding the key when it has no value yet.
    fn put_value(&mut self, key: SettingKey, value: SettingValueType)
        requires
            pair_keys_unique(old(self).values_spec()),
        ensures
            pair_keys_unique(final(self).values_spec()),
            final(self).value_map() == old(self).value_map().insert(key, value@),
            final(self).entries_spec() == old(self).entries_spec(),
            final(self).categories_spec() == old(self).categories_spec(),
    {
        let ghost before = self.values@;
        match self.find_value(key) {
            Some(i) => {
                self.values.set(i, (key, value));
                proof {
                    lemma_pairs_map_update(before, i as int, key, value);
                }
            },
            None => {
                self.values.push((key, value));
                proof {
                    assert(self.values@.drop_last() =~= before);
                }
            },
        }
    }

    /// Sets the entry of its key, adding the key when it has no entry yet.
    fn put_entry(&mut self, entry: SettingEntry)
        requires
            entry_keys_unique(old(self).entries@),
        ensures
            entry_keys_unique(final(self).entries@),
            final(self).entry_map() == old(self).entry_map().insert(entry@.key, entry@),
            final(self).values_spec() == old(self).values_spec(),
            final(self).categories_spec() == old(self).categories_spec(),
    {
        let ghost before = self.entries@;
        let ghost ev = entry@;
        match self.find_entry(entry.get_setting_key()) {
            Some(i) => {
                self.entries.set(i, entry);
                proof {
                    lemma_entries_map_update(before, i as int, self.entries@[i as int]);
                }
            },
            None => {
                self.entries.push(entry);
                proof {
                    assert(self.entries@.drop_last() =~= before);
                }
            },
        }
    }

    /// The registry with `category` added: each entry of the category gets
    /// its default as value and becomes the entry of its key, later entries
    /// replacing earlier ones of the same key, and the category is appended.
    pub fn add_category(self, category: SettingCategory) -> (r: Self)
        requires
            self.wf(),
        ensures
            r.wf(),
            r.categories_spec() == self.categories_spec().push(category),
            r.value_map() == with_defaults(self.value_map(), category.entries_spec()),
            r.entry_map() == with_entries(self.entry_map(), category.entries_spec()),
    {
        let mut r = self;
        let ghost v0 = r.value_map();
        let ghost e0 = r.entry_map();
        let ghost es = category.entries_spec();
        let n = category.entries().len();
        let mut i: usize = 0;
        while i < n
            invariant
                n == category.entries_spec().len(),
                es == category.entries_spec(),
                0 <= i <= n,
                r.wf(),
                r.value_map() == with_defaults(v0, es.take(i as int)),
                r.entry_map() == with_entries(e0, es.take(i as int)),
                r.categories@ == self.categories@,
            decreases n - i,
        {
            let e = &category.entries()[i];
            let ghost ev = e@;
            proof {
                e.lemma_default_view();
                assert(es.take(i + 1).drop_last() =~= es.take(i as int));
            }
            r.put_value(e.get_setting_key(), e.default_value().clone());
            let c = e.clone();
            r.put_entry(c);
            i = i + 1;
        }
        proof {
            assert(es.take(n as int) =~= es);
        }
        r.categories.push(category);
        r
    }

    /// The current value of `key`.
    pub fn get(&self, key: &SettingKey) -> (r: Option<SettingValueType>)
        requires
            self.wf(),
        ensures
            match r {
                Some(v) => self.value_map().contains_key(*key) && self.value_map()[*key] == v@,
                None => !self.value_map().contains_key(*key),
            },
    {
        match self.find_value(*key) {
            Some(i) => {
                proof {
                    lemma_pairs_map_lookup(self.values@, i as int);
                }
                Some(self.values[i].1.clone())
            },
            None => {
                proof {
                    lemma_pairs_map_absent(self.values@, *key);
                }
                None
            },
        }
    }

    /// The default value of the entry of `key`.
    pub fn get_default(&self, key: SettingKey) -> (r: Option<SettingValueType>)
        requires
            self.wf(),
        ensures
            match r {
                Some(v) => self.entry_map().contains_key(key) && self.entry_map()[key].default_value == v@,
                None => !self.entry_map().contains_key(key),
            },
    {
        match self.find_entry(key) {
            Some(i) => {
                proof {
                    lemma_entries_map_lookup(self.entries@, i as int);
                    self.entries@[i as int].lemma_default_view();
                }
                Some(self.entries[i].default_value().clone())
            },
            None => {
                proof {
                    lemma_entries_map_absent(self.entries@, key);
                }
                None
            },
        }
    }

    /// Replaces the value of `key` by `value` when the key has a value; a
    /// key without a value is left without one.
    pub fn apply(&mut self, key: SettingKey, value: SettingValueType)
        requires
            old(self).wf(),
        ensures
            final(self).wf(),
            final(self).value_map() == if old(self).value_map().contains_key(key) {
                old(self).value_map().insert(key, value@)
            } else {
                old(self).value_map()
            },
            final(self).entry_map() == old(self).entry_map(),
            final(self).categories_spec() == old(self).categories_spec(),
    {
        match self.find_value(key) {
            Some(i) => {
                let ghost before = self.values@;
                proof {
                    lemma_pairs_map_lookup(before, i as int);
                }
                self.values.set(i, (key, value));
                proof {
                    lemma_pairs_map_update(before, i as int, key, value);
                }
            },
            None => {
                proof {
                    lemma_pairs_map_absent(self.values@, key);
                }
            },
        }
    }

    /// Reads the stored rows of the database `target` in order: a row whose
    /// key text names a key of that database sets the value of that key, read
    /// in the type of the entry of the key (as text when the key has no
    /// entry); other rows are ignored.
    pub fn load_rows(&mut self, target: DBType, rows: &Vec<Setting>)
        requires
            old(self).wf(),
        ensures
            final(self).wf(),
            final(self).value_map() == apply_rows(old(self).entry_map(), target, old(self).value_map(), rows@),
            final(self).entry_map() == old(self).entry_map(),
            final(self).categories_spec() == old(self).categories_spec(),
    {
        let ghost m0 = self.value_map();
        let ghost ents = self.entry_map();
        let mut i: usize = 0;
        while i < rows.len()
            invariant
                0 <= i <= rows@.len(),
                self.wf(),
                self.entry_map() == ents,
                self.categories_spec() == old(self).categories_spec(),
                self.value_map() == apply_rows(ents, target, m0, rows@.take(i as int)),
            decreases rows@.len() - i,
        {
            let row = &rows[i];
            proof {
                assert(rows@.take(i + 1).drop_last() =~= rows@.take(i as int));
            }
            match SettingKey::parse_for(target, row.setting_key.as_str()) {
                Ok(k) => {
                    proof {
                        lemma_key_named(target, row.setting_key@, k);
                    }
                    let v = match self.find_entry(k) {
                        Some(j) => {
                            proof {
                                lemma_entries_map_lookup(self.entries@, j as int);
                                self.entries@[j as int].lemma_default_view();
                            }
                            self.entries[j].default_value().converter(row.setting_value.clone())
                        },
                        None => {
                            proof {
                                lemma_entries_map_absent(self.entries@, k);
                            }
                            SettingValueType::String(row.setting_value.clone())
                        },
                    };
                    self.put_value(k, v);
                },
                Err(_) => {
                    proof {
                        assert(key_named(target, row.setting_key@) is None);
                    }
                },
            }
            i = i + 1;
        }
        proof {
            assert(rows@.take(rows@.len() as int) =~= rows@);
        }
    }

    /// The keys of the entries that live in the database `target`, the keys
    /// whose values a save of that database writes.
    pub fn keys_to_save(&self, target: DBType) -> (r: Vec<SettingKey>)
        ensures
            r@ == keys_of(self.entries_spec(), target),
    {
        let mut r: Vec<SettingKey> = Vec::new();
        let mut i: usize = 0;
        while i < self.entries.len()
            invariant
                0 <= i <= self.entries@.len(),
                r@ == keys_of(self.entries@.take(i as int), target),
            decreases self.entries@.len() - i,
        {
            proof {
                assert(self.entries@.take(i + 1).drop_last() =~= self.entries@.take(i as int));
            }
            let k = self.entries[i].get_setting_key();
            if k.db_type() == target {
                r.push(k);
            }
            i = i + 1;
        }
        proof {
            assert(self.entries@.take(self.entries@.len() as int) =~= self.entries@);
        }
        r
    }

    /// The text under which the value of `key` is stored; `None` for an
    /// unset value. The key must have a value.
    pub fn stored_text(&self, key: SettingKey) -> (r: Option<String>)
        requires
            self.wf(),
            self.value_map().contains_key(key),
        ensures
            opt_view(r) == value_text(self.value_map()[key]),
    {
        match self.get(&key) {
            Some(v) => v.to_opt_string(),
            None => None,
        }
    }

    /// A copy of the current values, one pair per key.
    pub fn get_values(&self) -> (r: Vec<(SettingKey, SettingValueType)>)
        requires
            self.wf(),
        ensures
            pairs_map(r@) == self.value_map(),
            pair_keys_unique(r@),
    {
        let mut r: Vec<(SettingKey, SettingValueType)> = Vec::new();
        let mut i: usize = 0;
        while i < self.values.len()
            invariant
                0 <= i <= self.values@.len(),
                r@ == self.values@.take(i as int),
            decreases self.values@.len() - i,
        {
            let p = (self.values[i].0, self.values[i].1.clone());
            r.push(p);
            i = i + 1;
            proof {
                assert(r@ =~= self.values@.take(i as int));
            }
        }
        proof {
            assert(self.values@.take(self.values@.len() as int) =~= self.values@);
        }
        r
    }

    /// The categories of the settings screen.
    pub fn get_categories(&self) -> (r: &Vec<SettingCategory>)
        ensures
            r@ == self.categories_spec(),
    {
        &self.categories
    }

    /// The entries, one per key.
    pub fn get_entries(&self) -> (r: &Vec<SettingEntry>)
        ensures
            r@ == self.entries_spec(),
    {
        &self.entries
    }
}

/// The entries of the application-wide settings, with `locale` as the
/// default language.
pub open spec fn global_entries(locale: Seq<char>) -> Map<SettingKey, EntryView> {
    map![
        SettingKey::Global(GlobalSettingKey::Locale) => EntryView {
            key: SettingKey::Global(GlobalSettingKey::Locale),
            display_key: "settings_entry_locale"@,
            default_value: SettingValue::Text(Some(locale)),
            is_visible: true,
            selectable: Some(supported_ids()),
        },
        SettingKey::Global(GlobalSettingKey::Font) => EntryView {
            key: SettingKey::Global(GlobalSettingKey::Font),
            display_key: "settings_entry_font"@,
            default_value: SettingValue::Text(None),
            is_visible: true,
            selectable: Some(Seq::empty()),
        },
        SettingKey::Global(GlobalSettingKey::LastOpened) => EntryView {
            key: SettingKey::Global(GlobalSettingKey::LastOpened),
            display_key: "last-opened-file"@,
            default_value: SettingValue::Text(None),
            is_visible: false,
            selectable: None,
        },
        SettingKey::Global(GlobalSettingKey::AutoOpenLastOpened) => EntryView {
            key: SettingKey::Global(GlobalSettingKey::AutoOpenLastOpened),
            display_key: "settings_entry_auto-open-last-opened-file"@,
            default_value: SettingValue::Bool(Some(true)),
            is_visible: true,
            selectable: None,
        }
    ]
}

/// The registry of the application: one category, `settings_category_general`,
/// holding the language (default `locale`, offering the supported
/// languages), the font (unset, offering no value), the file opened last
/// (unset, hidden) and whether to open it at start (default `true`); each
/// value starts at its default.
pub fn registry_with_locale(locale: String) -> (r: SettingRegistry)
    ensures
        r.wf(),
        r.categories_spec().len() == 1,
        r.categories_spec()[0].name_key() == "settings_category_general"@,
        r.entry_map() == global_entries(locale@),
        r.value_map() == global_entries(locale@).map_values(|e: EntryView| e.default_value),
{
    let ghost loc = locale@;
    let supported = supported_lang_id();
    let no_values: Vec<&str> = Vec::new();
    let e1 = SettingEntry::new(SettingKey::Global(GlobalSettingKey::Locale), SettingValueType::String(Some(locale)))
        .display_key("settings_entry_locale")
        .selectable_values(supported.as_slice());
    let e2 = SettingEntry::new(SettingKey::Global(GlobalSettingKey::Font), SettingValueType::String(None))
        .selectable_values(no_values.as_slice())
        .display_key("settings_entry_font");
    let e3 = SettingEntry::new(SettingKey::Global(GlobalSettingKey::LastOpened), SettingValueType::String(None))
        .visibility(false);
    let e4 = SettingEntry::new(SettingKey::Global(GlobalSettingKey::AutoOpenLastOpened), SettingValueType::Bool(Some(true)))
        .display_key("settings_entry_auto-open-last-opened-file");
    let ghost (v1, v2, v3, v4) = (e1@, e2@, e3@, e4@);
    let category = SettingCategory::new("settings_category_general").add(e1).add(e2).add(e3).add(e4);
    let ghost es = category.entries_spec();
    let r = SettingRegistry::new().add_category(category);
    proof {
        assert(no_values@.map_values(|v: &str| v@) =~= Seq::<Seq<char>>::empty());
        assert(es.len() == 4);
        assert(es.drop_last().drop_last().drop_last().drop_last() =~= Seq::<SettingEntry>::empty());
        assert(es[0]@ == v1);
        assert(es[1]@ == v2);
        assert(es[2]@ == v3);
        assert(es[3]@ == v4);
        reveal_with_fuel(with_defaults, 5);
        reveal_with_fuel(with_entries, 5);
        assert(r.entry_map() =~= global_entries(loc));
        assert(r.value_map() =~= global_entries(loc).map_values(|e: EntryView| e.default_value));
    }
    r
}

/// The registry of the application, with the system's locale as the default
/// language when it is supported and the name of the default language
/// otherwise.
pub fn registry() -> (r: SettingRegistry)
    ensures
        r.wf(),
        r.categories_spec().len() == 1,
        r.categories_spec()[0].name_key() == "settings_category_general"@,
        exists|locale: Seq<char>| {
            &&& (supported_ids().contains(locale) || locale == DEFAULT_LANG_ID.name_text())
            &&& r.entry_map() == global_entries(locale)
            &&& r.value_map() == global_entries(locale).map_values(|e: EntryView| e.default_value)
        },
{
    let locale = fallback_locale();
    let ghost l = locale@;
    let r = registry_with_locale(locale);
    proof {
        assert((supported_ids().contains(l) || l == DEFAULT_LANG_ID.name_text()) && r.entry_map() == global_entries(l)
            && r.value_map() == global_entries(l).map_values(|e: EntryView| e.default_value));
    }
    r
}

impl Default for SettingRegistry {
    fn default() -> (r: Self)
        ensures
            r.wf(),
            r.categories_spec() == Seq::<SettingCategory>::empty(),
            r.entry_map() == Map::<SettingKey, EntryView>::empty(),
            r.value_map() == Map::<SettingKey, SettingValue>::empty(),
    {
        SettingRegistry::new()
    }
}

// ---------------------------------------------------------------------------
// Lemmas on the maps of pairs and entries
// ---------------------------------------------------------------------------

/// With unique keys, the map of the pairs holds the value of each pair.
pub proof fn lemma_pairs_map_lookup(vs: Seq<(SettingKey, SettingValueType)>, i: int)
    requires
        pair_keys_unique(vs),
        0 <= i < vs.len(),
    ensures
        pairs_map(vs).contains_key(vs[i].0),
        pairs_map(vs)[vs[i].0] == vs[i].1@,
    decreases vs.len(),
{
    if i < vs.len() - 1 {
        lemma_pairs_map_lookup(vs.drop_last(), i);
        assert(vs.drop_last()[i] == vs[i]);
        assert(vs[i].0 != vs[vs.len() - 1].0);
    }
}

/// A key of no pair is not in the map of the pairs.
pub proof fn lemma_pairs_map_absent(vs: Seq<(SettingKey, SettingValueType)>, k: SettingKey)
    requires
        forall|i: int| 0 <= i < vs.len() ==> vs[i].0 != k,
    ensures
        !pairs_map(vs).contains_key(k),
    decreases vs.len(),
{
    if vs.len() > 0 {
        assert forall|i: int| 0 <= i < vs.drop_last().len() implies vs.drop_last()[i].0 != k by {
            assert(vs.drop_last()[i] == vs[i]);
        }
        lemma_pairs_map_absent(vs.drop_last(), k);
    }
}

/// Replacing the pair at `i` by a pair of the same key replaces the value of
/// that key.
pub proof fn lemma_pairs_map_update(vs: Seq<(SettingKey, SettingValueType)>, i: int, k: SettingKey, v: SettingValueType)
    requires
        pair_keys_unique(vs),
        0 <= i < vs.len(),
        vs[i].0 == k,
    ensures
        pair_keys_unique(vs.update(i, (k, v))),
        pairs_map(vs.update(i, (k, v))) == pairs_map(vs).insert(k, v@),
    decreases vs.len(),
{
    let ws = vs.update(i, (k, v));
    assert forall|a: int, b: int| 0 <= a < b < ws.len() implies #[trigger] ws[a].0 != #[trigger] ws[b].0 by {
        assert(ws[a].0 == vs[a].0);
        assert(ws[b].0 == vs[b].0);
    }
    if i == vs.len() - 1 {
        assert(ws.drop_last() =~= vs.drop_last());
        assert(pairs_map(ws) =~= pairs_map(vs).insert(k, v@));
    } else {
        lemma_pairs_map_update(vs.drop_last(), i, k, v);
        assert(ws.drop_last() =~= vs.drop_last().update(i, (k, v)));
        assert(vs.last().0 != k);
        assert(pairs_map(ws) =~= pairs_map(vs).insert(k, v@));
    }
}

/// With unique keys, the map of the entries holds each entry.
pub proof fn lemma_entries_map_lookup(es: Seq<SettingEntry>, i: int)
    requires
        entry_keys_unique(es),
        0 <= i < es.len(),
    ensures
        entries_map(es).contains_key(es[i]@.key),
        entries_map(es)[es[i]@.key] == es[i]@,
    decreases es.len(),
{
    if i < es.len() - 1 {
        lemma_entries_map_lookup(es.drop_last(), i);
        assert(es.drop_last()[i] == es[i]);
        assert(es[i]@.key != es[es.len() - 1]@.key);
    }
}

/// A key of no entry is not in the map of the entries.
pub proof fn lemma_entries_map_absent(es: Seq<SettingEntry>, k: SettingKey)
    requires
        forall|i: int| 0 <= i < es.len() ==> es[i]@.key != k,
    ensures
        !entries_map(es).contains_key(k),
    decreases es.len(),
{
    if es.len() > 0 {
        assert forall|i: int| 0 <= i < es.drop_last().len() implies es.drop_last()[i]@.key != k by {
            assert(es.drop_last()[i] == es[i]);
        }
        lemma_entries_map_absent(es.drop_last(), k);
    }
}

/// Replacing the entry at `i` by an entry of the same key replaces the entry
/// of that key.
pub proof fn lemma_entries_map_update(es: Seq<SettingEntry>, i: int, e: SettingEntry)
    requires
        entry_keys_unique(es),
        0 <= i < es.len(),
        es[i]@.key == e@.key,
    ensures
        entry_keys_unique(es.update(i, e)),
        entries_map(es.update(i, e)) == entries_map(es).insert(e@.key, e@),
    decreases es.len(),
{
    let ws = es.update(i, e);
    assert forall|a: int, b: int| 0 <= a < b < ws.len() implies #[trigger] ws[a]@.key != #[trigger] ws[b]@.key by {
        assert(ws[a]@.key == es[a]@.key);
        assert(ws[b]@.key == es[b]@.key);
    }
    if i == es.len() - 1 {
        assert(ws.drop_last() =~= es.drop_last());
        assert(entries_map(ws) =~= entries_map(es).insert(e@.key, e@));
    } else {
        lemma_entries_map_update(es.drop_last(), i, e);
        assert(ws.drop_last() =~= es.drop_last().update(i, e));
        assert(es.last()@.key != e@.key);
        assert(entries_map(ws) =~= entries_map(es).insert(e@.key, e@));
    }
}

/// A key whose stored text is `text` in the database `target` is the key
/// that text names there.
pub proof fn lemma_key_named(target: DBType, text: Seq<char>, k: SettingKey)
    requires
        k.db_type_spec() == target,
        k.key_text() == text,
    ensures
        key_named(target, text) == Some(k),
{
    let c = choose|j: SettingKey| j.db_type_spec() == target && j.key_text() == text;
    crate::settings::lemma_key_text_injective(c, k);
}

// ---------------------------------------------------------------------------
// Laws
// ---------------------------------------------------------------------------

/// What a save writes for a key is what a load reads back: storing the value
/// `v` of key `k` as its text and reading that row in `k`'s database, with an
/// entry of `k` whose default has the type of `v`, gives `v` as the value
/// of `k`.
pub proof fn law_stored_value_loads_back(
    entries: Map<SettingKey, EntryView>,
    m: Map<SettingKey, SettingValue>,
    k: SettingKey,
    v: SettingValue,
)
    requires
        entries.contains_key(k),
        same_kind(entries[k].default_value, v),
    ensures
        apply_row(entries, k.db_type_spec(), m, k.key_text(), value_text(v)).contains_key(k),
        apply_row(entries, k.db_type_spec(), m, k.key_text(), value_text(v))[k] == v,
{
    lemma_key_named(k.db_type_spec(), k.key_text(), k);
    lemma_value_text_round_trip(entries[k].default_value, v);
}

/// After applying a value to a key that has a value, reading that key gives
/// the applied value; the values of other keys stay as they were.
pub proof fn law_apply_then_get(before: Map<SettingKey, SettingValue>, k: SettingKey, v: SettingValue, other: SettingKey)
    requires
        before.contains_key(k),
        other != k,
    ensures
        before.insert(k, v)[k] == v,
        before.insert(k, v).contains_key(other) == before.contains_key(other),
        before.contains_key(other) ==> before.insert(k, v)[other] == before[other],
{
}

/// Whether some entry of `es` has the key `k`.
pub open spec fn has_entry_key(es: Seq<SettingEntry>, k: SettingKey) -> bool {
    exists|i: int| 0 <= i < es.len() && (#[trigger] es[i])@.key == k
}

/// Adding a category adds each of its entries, with its default as value,
/// and leaves the entries and values of other keys as they were; so every
/// key with an entry keeps having a value.
pub proof fn law_add_category(
    entries: Map<SettingKey, EntryView>,
    values: Map<SettingKey, SettingValue>,
    es: Seq<SettingEntry>,
    k: SettingKey,
)
    ensures
        with_entries(entries, es).contains_key(k) == (entries.contains_key(k) || has_entry_key(es, k)),
        with_defaults(values, es).contains_key(k) == (values.contains_key(k) || has_entry_key(es, k)),
        !has_entry_key(es, k) && entries.contains_key(k) ==> with_entries(entries, es)[k] == entries[k],
        !has_entry_key(es, k) && values.contains_key(k) ==> with_defaults(values, es)[k] == values[k],
        has_entry_key(es, k) ==> with_defaults(values, es)[k] == with_entries(entries, es)[k].default_value,
        entries.dom().subset_of(values.dom()) ==> with_entries(entries, es).dom().subset_of(with_defaults(values, es).dom()),
    decreases es.len(),
{
    if es.len() > 0 {
        let prev = es.drop_last();
        law_add_category(entries, values, prev, k);
        if has_entry_key(es, k) && es.last()@.key != k {
            let i = choose|i: int| 0 <= i < es.len() && (#[trigger] es[i])@.key == k;
            assert(prev[i] == es[i]);
            assert(has_entry_key(prev, k));
        }
        if has_entry_key(prev, k) {
            let i = choose|i: int| 0 <= i < prev.len() && (#[trigger] prev[i])@.key == k;
            assert(es[i] == prev[i]);
        }
        if entries.dom().subset_of(values.dom()) {
            assert forall|j: SettingKey| with_entries(entries, es).dom().contains(j) implies with_defaults(values, es).dom().contains(j) by {
                law_add_category(entries, values, prev, j);
                if has_entry_key(prev, j) {
                    let i = choose|i: int| 0 <= i < prev.len() && (#[trigger] prev[i])@.key == j;
                    assert(es[i] == prev[i]);
                }
            }
        }
    }
}

/// After adding a category, the entry stored under the key of one of its
/// entries is that entry, and the value is its default, when no later entry
/// of the category has the same key (in particular when the key occurs once
/// in the category).
pub proof fn law_add_category_entry(
    entries: Map<SettingKey, EntryView>,
    values: Map<SettingKey, SettingValue>,
    es: Seq<SettingEntry>,
    i: int,
)
    requires
        0 <= i < es.len(),
        forall|j: int| i < j < es.len() ==> (#[trigger] es[j])@.key != es[i]@.key,
    ensures
        with_entries(entries, es).contains_key(es[i]@.key),
        with_entries(entries, es)[es[i]@.key] == es[i]@,
        with_defaults(values, es).contains_key(es[i]@.key),
        with_defaults(values, es)[es[i]@.key] == es[i]@.default_value,
    decreases es.len(),
{
    if i < es.len() - 1 {
        let prev = es.drop_last();
        assert forall|j: int| i < j < prev.len() implies (#[trigger] prev[j])@.key != prev[i]@.key by {
            assert(prev[j] == es[j]);
        }
        assert(es.last() == es[es.len() - 1]);
        law_add_category_entry(entries, values, prev, i);
    }
}

/// A save of the database `target` writes exactly the keys of the entries
/// that live in that database: a key is written if and only if some entry
/// has it and it belongs to `target`.
pub proof fn law_keys_to_save(es: Seq<SettingEntry>, target: DBType, k: SettingKey)
    ensures
        keys_of(es, target).contains(k) == (has_entry_key(es, k) && k.db_type_spec() == target),
        keys_of(es, target).len() <= es.len(),
    decreases es.len(),
{
    if es.len() > 0 {
        let prev = es.drop_last();
        law_keys_to_save(prev, target, k);
        if has_entry_key(es, k) && es.last()@.key != k {
            let i = choose|i: int| 0 <= i < es.len() && (#[trigger] es[i])@.key == k;
            assert(prev[i] == es[i]);
        }
        if has_entry_key(prev, k) {
            let i = choose|i: int| 0 <= i < prev.len() && (#[trigger] prev[i])@.key == k;
            assert(es[i] == prev[i]);
        }
        if es.last()@.key == k {
            assert(es[es.len() - 1] == es.last());
        }
        let kp = keys_of(prev, target);
        if es.last()@.key.db_type_spec() == target {
            assert(keys_of(es, target) == kp.push(es.last()@.key));
            if kp.contains(k) {
                let j = choose|j: int| 0 <= j < kp.len() && kp[j] == k;
                assert(keys_of(es, target)[j] == k);
            }
            if es.last()@.key == k {
                assert(keys_of(es, target)[kp.len() as int] == k);
            }
        }
    }
}

/// Whether row `i` of `rows` names the key `k` of the database `target`.
pub open spec fn row_names(rows: Seq<Setting>, i: int, target: DBType, k: SettingKey) -> bool {
    key_named(target, rows[i].setting_key@) == Some(k)
}

/// Loading stored rows sets each key from the last row that names it, read
/// in the type of the key's entry; a key that no row names keeps its value
/// (or stays without one).
pub proof fn law_load_rows(
    entries: Map<SettingKey, EntryView>,
    target: DBType,
    m: Map<SettingKey, SettingValue>,
    rows: Seq<Setting>,
    k: SettingKey,
    i: int,
)
    ensures
        (forall|j: int| 0 <= j < rows.len() ==> !row_names(rows, j, target, k)) ==> {
            &&& apply_rows(entries, target, m, rows).contains_key(k) == m.contains_key(k)
            &&& m.contains_key(k) ==> apply_rows(entries, target, m, rows)[k] == m[k]
        },
        0 <= i < rows.len() && row_names(rows, i, target, k)
            && (forall|j: int| i < j < rows.len() ==> !row_names(rows, j, target, k)) ==> {
            &&& apply_rows(entries, target, m, rows).contains_key(k)
            &&& apply_rows(entries, target, m, rows)[k] == loaded_value(entries, k, opt_view(rows[i].setting_value))
        },
    decreases rows.len(),
{
    if rows.len() > 0 {
        let prev = rows.drop_last();
        assert forall|j: int| 0 <= j < prev.len() implies prev[j] == rows[j] by {}
        law_load_rows(entries, target, m, prev, k, i);
        let last = rows.len() - 1;
        assert(rows.last() == rows[last]);
        if forall|j: int| 0 <= j < rows.len() ==> !row_names(rows, j, target, k) {
            assert(!row_names(rows, last, target, k));
            assert forall|j: int| 0 <= j < prev.len() implies !row_names(prev, j, target, k) by {
                assert(!row_names(rows, j, target, k));
            }
        }
        if 0 <= i < rows.len() && row_names(rows, i, target, k)
            && (forall|j: int| i < j < rows.len() ==> !row_names(rows, j, target, k)) {
            if i < last {
                assert(!row_names(rows, last, target, k));
                assert(row_names(prev, i, target, k));
                assert forall|j: int| i < j < prev.len() implies !row_names(prev, j, target, k) by {
                    assert(!row_names(rows, j, target, k));
                }
            }
        }
    }
}

} // verus!
