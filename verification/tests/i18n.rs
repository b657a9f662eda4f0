use prehnite_core::i18n::{
    checked_parse_lang_bundle, checked_switch_lang_bundle,
    fallback_locale_from, get_ftl_str, get_locale_language, get_locale_lang_id_from, i18n, i18n_fmt, language_of,
    parse_lang_bundle, supported_lang_id, switch_lang_bundle, try_get_ftl_str,
    CurrentI18nBundle, I18nError, SupportedLanguages, TryGetFtlPathError, DEFAULT_LANG_ID,
    SUPPORTED_LANG_ID,
    EN_US_FTL, JA_JP_FTL,
};

#[test]
fn valid_check_get_for_all_supported_languages() {
    for i in SUPPORTED_LANG_ID {
        try_get_ftl_str(i).unwrap();
    }
}

#[test]
fn supported_languages_are_english_and_japanese() {
    assert_eq!(supported_lang_id(), vec!["en-US", "ja-JP"]);
    assert_eq!(SUPPORTED_LANG_ID, ["en-US", "ja-JP"]);
}

#[test]
fn ftl_lookup_by_identifier_and_language() {
    assert_eq!(try_get_ftl_str("en-US").unwrap(), EN_US_FTL);
    assert_eq!(try_get_ftl_str("en").unwrap(), EN_US_FTL);
    assert_eq!(try_get_ftl_str("ja-JP").unwrap(), JA_JP_FTL);
    assert_eq!(try_get_ftl_str("ja").unwrap(), JA_JP_FTL);
    assert_eq!(get_ftl_str("ja"), JA_JP_FTL);
}

#[test]
fn ftl_lookup_of_unsupported_identifier_fails() {
    assert_eq!(try_get_ftl_str("AYgAV6Lky"), Err(TryGetFtlPathError::LangNotFound));
    assert_eq!(try_get_ftl_str("fr-FR"), Err(TryGetFtlPathError::LangNotFound));
    assert_eq!(try_get_ftl_str(DEFAULT_LANG_ID.as_str()), Err(TryGetFtlPathError::LangNotFound));
}

#[test]
fn language_names_are_variant_names() {
    assert_eq!(SupportedLanguages::EnUS.as_str(), "EnUS");
    assert_eq!(SupportedLanguages::JaJP.to_name_string(), "JaJP");
    assert_eq!(SupportedLanguages::from_name("JaJP"), Ok(SupportedLanguages::JaJP));
    assert!(SupportedLanguages::from_name("ja-JP").is_err());
    assert_eq!(
        SupportedLanguages::variants(),
        vec![SupportedLanguages::EnUS, SupportedLanguages::JaJP]
    );
    assert_eq!(DEFAULT_LANG_ID, SupportedLanguages::EnUS);
}

#[test]
fn lang_id_is_canonicalized() {
    let mut current = CurrentI18nBundle::new(None);
    assert_eq!(switch_lang_bundle(&mut current, "en"), Ok(true));
    assert_eq!(current.get_bundle().unwrap().lang_text(), "en");
    assert_eq!(language_of("en_us"), "en");
    assert_eq!(language_of("JA"), "ja");
}

#[test]
fn invalid_lang_bundle_identifier_is_refused() {
    assert_eq!(parse_lang_bundle("AYgAV6Lky").err(), Some(I18nError::FailedToParseLangId));
}

#[test]
fn bundles_of_supported_languages_format_messages() {
    let en = parse_lang_bundle("en-US").unwrap();
    assert_eq!(en.lang_text(), "en-US");
    let current = CurrentI18nBundle::new(Some(en));
    assert_eq!(i18n(&current, "task"), "Task");
    assert_eq!(i18n(&current, "settings_category_general"), "General");
    let ja = parse_lang_bundle("ja-JP").unwrap();
    let current = CurrentI18nBundle::new(Some(ja));
    assert_eq!(i18n(&current, "task"), "タスク");
}

#[test]
fn missing_message_shows_its_key() {
    let none = CurrentI18nBundle::new(None);
    assert_eq!(i18n(&none, "task"), "task");
    let en = parse_lang_bundle("en").unwrap();
    let current = CurrentI18nBundle::new(Some(en));
    assert_eq!(i18n(&current, "no-such-message"), "no-such-message");
}

#[test]
fn switching_language_loads_once() {
    let mut current = CurrentI18nBundle::new(None);
    assert_eq!(switch_lang_bundle(&mut current, "ja-JP"), Ok(true));
    assert_eq!(current.get_bundle().unwrap().lang_text(), "ja-JP");
    assert_eq!(switch_lang_bundle(&mut current, "ja-JP"), Ok(false));
    assert_eq!(switch_lang_bundle(&mut current, "en-US"), Ok(true));
    assert_eq!(i18n(&current, "task"), "Task");
}

#[test]
fn switching_to_invalid_identifier_fails_and_keeps_bundle() {
    let mut current = CurrentI18nBundle::new(None);
    assert_eq!(switch_lang_bundle(&mut current, "en-US"), Ok(true));
    assert_eq!(
        switch_lang_bundle(&mut current, "AYgAV6Lky"),
        Err(I18nError::FailedToParseLangId)
    );
    assert_eq!(current.get_bundle().unwrap().lang_text(), "en-US");
}

#[test]
fn fallback_locale_keeps_supported_locales_only() {
    assert_eq!(fallback_locale_from(Some("ja-JP".to_string())), "ja-JP");
    assert_eq!(fallback_locale_from(Some("fr-FR".to_string())), "EnUS");
    assert_eq!(fallback_locale_from(None), "EnUS");
}

#[test]
fn locale_lang_id_defaults_to_language_name() {
    assert_eq!(get_locale_lang_id_from(Some("de-DE".to_string())), "de-DE");
    assert_eq!(get_locale_lang_id_from(None), "EnUS");
}

#[test]
fn language_of_identifier() {
    assert_eq!(language_of("ja-JP"), "ja");
    assert_eq!(language_of("en"), "en");
    assert_eq!(language_of("EnUS"), "en");
    assert_eq!(language_of("x!"), "en");
}

#[test]
fn valid_identifier_without_resource_is_reported() {
    assert!(checked_parse_lang_bundle("fr-FR").is_none());
    assert_eq!(
        checked_parse_lang_bundle("AYgAV6Lky").unwrap().err(),
        Some(I18nError::FailedToParseLangId)
    );
    assert_eq!(checked_parse_lang_bundle("ja").unwrap().unwrap().lang_text(), "ja");
    let mut current = CurrentI18nBundle::new(None);
    assert_eq!(checked_switch_lang_bundle(&mut current, "de"), None);
    assert!(current.get_bundle().is_none());
    assert_eq!(checked_switch_lang_bundle(&mut current, "en"), Some(Ok(true)));
    assert_eq!(current.get_bundle().unwrap().lang_text(), "en");
}

#[test]
fn formatting_with_arguments() {
    let current = CurrentI18nBundle::new(Some(parse_lang_bundle("en-US").unwrap()));
    let args = vec![("name".to_string(), "x".to_string())];
    assert_eq!(i18n_fmt(&current, "task", Some(&args)), "Task");
    assert_eq!(i18n_fmt(&current, "task", None), "Task");
    assert_eq!(i18n_fmt(&current, "absent", Some(&args)), "absent");
    let none = CurrentI18nBundle::new(None);
    assert_eq!(i18n_fmt(&none, "task", Some(&args)), "task");
}

#[test]
#[should_panic]
fn invalid_check_unsupported() {
    try_get_ftl_str("AYgAV6Lky").unwrap();
}

#[test]
#[should_panic]
fn invalid_lang_id() {
    parse_lang_bundle("AYgAV6Lky").unwrap();
}

#[test]
fn every_supported_language_has_a_bundle() {
    let mut current = CurrentI18nBundle::new(None);
    for i in SUPPORTED_LANG_ID {
        assert_eq!(checked_switch_lang_bundle(&mut current, i), Some(Ok(true)));
        assert_eq!(current.get_bundle().unwrap().lang_text(), i);
    }
}

#[test]
fn system_language_is_a_language_subtag() {
    let l = get_locale_language();
    assert!((2..=8).contains(&l.len()) && l.len() != 4);
    assert!(l.chars().all(|c| c.is_ascii_lowercase()));
    assert_eq!(language_of("zh_Hant_TW"), "zh");
}

#[test]
fn switching_to_the_loaded_language_needs_no_resource() {
    let mut current = CurrentI18nBundle::new(None);
    assert_eq!(checked_switch_lang_bundle(&mut current, "en-US"), Some(Ok(true)));
    assert_eq!(checked_switch_lang_bundle(&mut current, "en_US"), Some(Ok(false)));
    assert_eq!(checked_switch_lang_bundle(&mut current, "en-us"), Some(Ok(false)));
    assert_eq!(switch_lang_bundle(&mut current, "en_us"), Ok(false));
    assert_eq!(current.get_bundle().unwrap().lang_text(), "en-US");
    assert_eq!(checked_switch_lang_bundle(&mut current, "fr"), None);
    assert_eq!(current.get_bundle().unwrap().lang_text(), "en-US");
}
