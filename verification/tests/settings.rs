use prehnite_core::db::schema::Setting;
use prehnite_core::i18n::{parse_lang_bundle, CurrentI18nBundle};
use prehnite_core::settings::global::GlobalSettings;
use prehnite_core::settings::registry::{registry, registry_with_locale, SettingRegistry};
use prehnite_core::settings::value::SettingValueType;
use prehnite_core::settings::{
    BookSettingKey, DBType, GlobalSettingKey, SettingCategory, SettingEntry, SettingKey,
    UnknownSettingKey,
};

fn row(key: &str, value: Option<&str>) -> Setting {
    Setting { id: 0, setting_key: key.to_string(), setting_value: value.map(|v| v.to_string()) }
}

fn text(v: Option<SettingValueType>) -> Option<String> {
    v.and_then(|v| v.as_string())
}

#[test]
fn key_texts() {
    assert_eq!(GlobalSettingKey::Locale.as_str(), "locale");
    assert_eq!(GlobalSettingKey::Font.as_str(), "font");
    assert_eq!(GlobalSettingKey::LastOpened.as_str(), "last-opened-file");
    assert_eq!(GlobalSettingKey::AutoOpenLastOpened.as_str(), "auto-open-last-opened-file");
    assert_eq!(BookSettingKey::Todo.as_str(), "locked");
    assert_eq!(SettingKey::Global(GlobalSettingKey::Font).to_key_string(), "font");
}

#[test]
fn key_text_round_trip() {
    for k in [
        GlobalSettingKey::Locale,
        GlobalSettingKey::Font,
        GlobalSettingKey::LastOpened,
        GlobalSettingKey::AutoOpenLastOpened,
    ] {
        assert_eq!(GlobalSettingKey::try_from_str(k.as_str()), Ok(k));
        let key = SettingKey::from(k);
        assert_eq!(SettingKey::parse_for(DBType::AppGlobal, key.as_str()), Ok(key));
    }
    assert_eq!(BookSettingKey::try_from_str("locked"), Ok(BookSettingKey::Todo));
}

#[test]
fn unknown_key_texts_are_refused() {
    assert_eq!(GlobalSettingKey::try_from_str("Locale"), Err(UnknownSettingKey::VariantNotFound));
    assert_eq!(BookSettingKey::try_from_str("locale"), Err(UnknownSettingKey::VariantNotFound));
    assert_eq!(
        SettingKey::parse_for(DBType::PrehniteBook, "locale"),
        Err(UnknownSettingKey::VariantNotFound)
    );
    assert_eq!(
        SettingKey::parse_for(DBType::AppGlobal, "locked"),
        Err(UnknownSettingKey::VariantNotFound)
    );
}

#[test]
fn keys_know_their_database() {
    assert_eq!(SettingKey::Global(GlobalSettingKey::Locale).db_type(), DBType::AppGlobal);
    assert_eq!(DBType::from(SettingKey::Book(BookSettingKey::Todo)), DBType::PrehniteBook);
    assert_eq!(SettingKey::from(BookSettingKey::Todo), SettingKey::Book(BookSettingKey::Todo));
}

#[test]
fn value_conversions() {
    let b = SettingValueType::Bool(None);
    assert_eq!(b.converter(Some("true".to_string())).as_bool(), Some(true));
    assert_eq!(b.converter(Some("yes".to_string())).as_bool(), None);
    let i = SettingValueType::Int(None);
    assert_eq!(i.converter(Some("-42".to_string())).as_int(), Some(-42));
    assert_eq!(i.converter(Some("+7".to_string())).as_int(), Some(7));
    assert_eq!(i.converter(Some("9223372036854775808".to_string())).as_int(), None);
    assert_eq!(i.converter(None).as_int(), None);
    let s = SettingValueType::String(None);
    assert_eq!(s.converter(Some("abc".to_string())).as_string(), Some("abc".to_string()));
    assert_eq!(SettingValueType::Int(Some(3)).as_bool(), None);
    assert_eq!(SettingValueType::Bool(Some(true)).as_string(), None);
}

#[test]
fn value_text_round_trip() {
    assert_eq!(SettingValueType::Bool(Some(false)).to_opt_string(), Some("false".to_string()));
    assert_eq!(SettingValueType::Int(Some(-120)).to_opt_string(), Some("-120".to_string()));
    assert_eq!(SettingValueType::String(None).to_opt_string(), None);
    let stored = SettingValueType::Int(Some(i64::MIN)).to_opt_string();
    assert_eq!(SettingValueType::Int(None).converter(stored).as_int(), Some(i64::MIN));
}

#[test]
fn set_changes_nothing_visible() {
    let v = SettingValueType::Int(Some(1));
    v.clone().set(SettingValueType::Int(Some(2)));
    assert_eq!(v.as_int(), Some(1));
}

#[test]
fn application_registry_defaults() {
    let r = registry_with_locale("ja-JP".to_string());
    assert_eq!(r.get_categories().len(), 1);
    assert_eq!(r.get_categories()[0].category_name_key(), "settings_category_general");
    assert_eq!(r.get_entries().len(), 4);
    assert_eq!(text(r.get(&SettingKey::Global(GlobalSettingKey::Locale))), Some("ja-JP".to_string()));
    assert_eq!(text(r.get(&SettingKey::Global(GlobalSettingKey::Font))), None);
    assert_eq!(
        r.get(&SettingKey::Global(GlobalSettingKey::AutoOpenLastOpened)).and_then(|v| v.as_bool()),
        Some(true)
    );
    assert!(r.get(&SettingKey::Book(BookSettingKey::Todo)).is_none());
    let locale = &r.get_entries()[0];
    assert_eq!(locale.get_display_key(), "settings_entry_locale");
    assert_eq!(
        locale.get_selectable_values(),
        Some(vec!["en-US".to_string(), "ja-JP".to_string()])
    );
    let last = &r.get_entries()[2];
    assert_eq!(last.get_setting_key(), SettingKey::Global(GlobalSettingKey::LastOpened));
    assert!(!last.get_is_visible());
    assert_eq!(last.get_selectable_values(), None);
}

#[test]
fn system_registry_has_general_category() {
    let r = registry();
    assert_eq!(r.get_categories().len(), 1);
    assert_eq!(r.get_entries().len(), 4);
}

#[test]
fn applied_value_reads_back() {
    let mut r = registry_with_locale("en-US".to_string());
    let key = SettingKey::Global(GlobalSettingKey::Font);
    r.apply(key, SettingValueType::String(Some("Noto Sans".to_string())));
    assert_eq!(text(r.get(&key)), Some("Noto Sans".to_string()));
    assert_eq!(r.stored_text(key), Some("Noto Sans".to_string()));
    assert_eq!(text(r.get(&SettingKey::Global(GlobalSettingKey::Locale))), Some("en-US".to_string()));
}

#[test]
fn apply_to_unknown_key_changes_nothing() {
    let mut r = SettingRegistry::new();
    r.apply(SettingKey::Global(GlobalSettingKey::Font), SettingValueType::String(None));
    assert!(r.get(&SettingKey::Global(GlobalSettingKey::Font)).is_none());
    assert!(r.get_values().is_empty());
}

#[test]
fn loaded_rows_are_read_in_the_type_of_their_entry() {
    let mut r = registry_with_locale("en-US".to_string());
    let rows = vec![
        row("auto-open-last-opened-file", Some("false")),
        row("locale", Some("ja-JP")),
        row("locked", Some("x")),
        row("unknown", Some("y")),
        row("font", Some("A")),
        row("font", Some("B")),
    ];
    r.load_rows(DBType::AppGlobal, &rows);
    assert_eq!(
        r.get(&SettingKey::Global(GlobalSettingKey::AutoOpenLastOpened)).and_then(|v| v.as_bool()),
        Some(false)
    );
    assert_eq!(text(r.get(&SettingKey::Global(GlobalSettingKey::Locale))), Some("ja-JP".to_string()));
    assert_eq!(text(r.get(&SettingKey::Global(GlobalSettingKey::Font))), Some("B".to_string()));
    assert!(r.get(&SettingKey::Book(BookSettingKey::Todo)).is_none());
}

#[test]
fn unparsable_stored_bool_becomes_unset() {
    let mut r = registry_with_locale("en-US".to_string());
    r.load_rows(DBType::AppGlobal, &vec![row("auto-open-last-opened-file", Some("1"))]);
    assert_eq!(
        r.get(&SettingKey::Global(GlobalSettingKey::AutoOpenLastOpened)).and_then(|v| v.as_bool()),
        None
    );
    assert!(r.get(&SettingKey::Global(GlobalSettingKey::AutoOpenLastOpened)).is_some());
}

#[test]
fn stored_value_loads_back() {
    let mut r = registry_with_locale("en-US".to_string());
    let key = SettingKey::Global(GlobalSettingKey::AutoOpenLastOpened);
    r.apply(key, SettingValueType::Bool(Some(false)));
    let saved = r.stored_text(key);
    let mut fresh = registry_with_locale("en-US".to_string());
    fresh.load_rows(DBType::AppGlobal, &vec![Setting { id: 1, setting_key: key.to_key_string(), setting_value: saved }]);
    assert_eq!(fresh.get(&key).and_then(|v| v.as_bool()), Some(false));
}

#[test]
fn keys_to_save_by_database() {
    let r = registry_with_locale("en-US".to_string());
    assert_eq!(
        r.keys_to_save(DBType::AppGlobal),
        vec![
            SettingKey::Global(GlobalSettingKey::Locale),
            SettingKey::Global(GlobalSettingKey::Font),
            SettingKey::Global(GlobalSettingKey::LastOpened),
            SettingKey::Global(GlobalSettingKey::AutoOpenLastOpened),
        ]
    );
    assert!(r.keys_to_save(DBType::PrehniteBook).is_empty());
}

#[test]
fn later_category_entry_replaces_earlier_one() {
    let key = SettingKey::Global(GlobalSettingKey::Font);
    let first = SettingCategory::new("a").add(SettingEntry::new(key, SettingValueType::String(None)));
    let second = SettingCategory::new("b")
        .add(SettingEntry::new(key, SettingValueType::String(Some("X".to_string()))).visibility(false));
    let r = SettingRegistry::new().add_category(first).add_category(second);
    assert_eq!(r.get_categories().len(), 2);
    assert_eq!(r.get_entries().len(), 1);
    assert_eq!(text(r.get(&key)), Some("X".to_string()));
    assert_eq!(text(r.get_default(key)), Some("X".to_string()));
    assert!(!r.get_entries()[0].get_is_visible());
    assert_eq!(r.get_values().len(), 1);
}

#[test]
fn entry_builders() {
    let e = SettingEntry::new(SettingKey::Global(GlobalSettingKey::Locale), SettingValueType::String(None));
    assert_eq!(e.get_display_key(), "locale");
    assert!(e.get_is_visible());
    let e = e.display_key("settings_entry_locale").selectable_values(&["a", "b"]);
    assert_eq!(e.get_display_key(), "settings_entry_locale");
    assert_eq!(e.get_selectable_values(), Some(vec!["a".to_string(), "b".to_string()]));
    assert!(e.default_value().clone().as_string().is_none());
}

#[test]
fn entry_and_category_names_are_translated() {
    let current = CurrentI18nBundle::new(Some(parse_lang_bundle("en-US").unwrap()));
    let c = SettingCategory::new("settings_category_general")
        .add(SettingEntry::new(SettingKey::Global(GlobalSettingKey::Font), SettingValueType::String(None))
            .display_key("settings_entry_font"));
    assert_eq!(c.category_name(&current), "General");
    assert_eq!(c.entries()[0].get_display(&current), "Font");
    let none = CurrentI18nBundle::new(None);
    assert_eq!(c.category_name(&none), "settings_category_general");
}

#[test]
fn global_settings_defaults_and_setters() {
    let mut g = GlobalSettings::default();
    assert_eq!(g.get_locale(), Some(prehnite_core::i18n::SupportedLanguages::EnUS));
    assert_eq!(g.get_font(), None);
    assert_eq!(g.get_last_opened_file(), None);
    assert_eq!(g.get_auto_open_last_opened_file(), Some(true));
    g.set_font(Some("Noto Sans".to_string()));
    g.set_last_opened_file(Some("/tmp/a.prehnite".to_string()));
    g.set_auto_open_last_opened_file(Some(false));
    g.set_locale(None);
    assert_eq!(g.get_font(), Some("Noto Sans".to_string()));
    assert_eq!(g.get_last_opened_file(), Some("/tmp/a.prehnite".to_string()));
    assert_eq!(g.get_auto_open_last_opened_file(), Some(false));
    assert_eq!(g.get_locale(), None);
}

#[test]
fn value_conversions_from_plain_values() {
    let v: SettingValueType = true.into();
    assert_eq!(v.as_bool(), Some(true));
    let v: SettingValueType = 7i64.into();
    assert_eq!(Option::<i64>::from(v), Some(7));
    let v: SettingValueType = "x".to_string().into();
    assert_eq!(Option::<String>::from(v), Some("x".to_string()));
    let v: SettingValueType = Option::<String>::None.into();
    assert_eq!(v.to_opt_string(), None);
    let v: SettingValueType = Some(false).into();
    assert_eq!(Option::<i64>::from(v), None);
    let v = SettingValueType::from(Option::<i64>::None);
    assert_eq!(v.as_int(), None);
}
