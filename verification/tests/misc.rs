use prehnite_core::util::{book_file_step, BookFileAction, BookFileAlert, BookFileEvent, BookFileState};
use prehnite_core::builder::{dependency_list, dependency_table, package_names, KrateInfo};
use prehnite_core::db::schema::{Item, ItemType, Task};
use prehnite_core::font::{
    default_font_family_for, font_list_from, get_default_font_family, NOTO_SANS_NAME,
    SAWARABI_GOTHIC_NAME,
};
use prehnite_core::settings::value::SettingValueType;
use prehnite_core::text::{bool_to_string, join, str_eq, str_less};
use prehnite_core::util::{
    fatal_init_db_error_content, fatal_initialize_app_error_content,
    fatal_initialize_setting_registry_error_content, FileOpe, OpenPrehniteBookStatus, FATAL_EN,
    FATAL_JA,
};
use prehnite_core::i18n::{parse_lang_bundle, CurrentI18nBundle};
use prehnite_core::widget::{is_focused, task_line, task_progress_status_str, IconFamily, ItemRow};

fn strings(v: &[&str]) -> Vec<String> {
    v.iter().map(|s| s.to_string()).collect()
}

fn krate(name: &str, deps: &[&str]) -> KrateInfo {
    KrateInfo { name: name.to_string(), dependencies: strings(deps) }
}

fn task(done: bool) -> Task {
    Task { is_finished: done, ..Default::default() }
}

fn item(tasks: Option<Vec<Task>>) -> Item {
    Item {
        id: 1,
        created_at: 0,
        item_type: ItemType::Headline(None),
        title: "t".to_string(),
        references: None,
        tags: None,
        background_info_list: None,
        tasks,
    }
}

#[test]
fn task_progress_counts_unfinished_tasks() {
    assert_eq!(task_progress_status_str(&item(None)), "-");
    assert_eq!(task_progress_status_str(&item(Some(vec![]))), "-");
    let tasks = vec![task(true), task(false), task(false)];
    assert_eq!(task_progress_status_str(&item(Some(tasks))), "(2/3)");
    let tasks: Vec<Task> = (0..12).map(|i| task(i % 4 == 0)).collect();
    assert_eq!(task_progress_status_str(&item(Some(tasks))), "(9/12)");
}

#[test]
fn item_row_folding() {
    let mut row = ItemRow::new();
    assert!(!row.is_folded());
    row.toggle_folded();
    assert!(row.is_folded());
    row.toggle_folded();
    assert!(!row.is_folded());
}

#[test]
fn icon_font() {
    assert_eq!(IconFamily::MaterialSymbolsOutlined.font_name(), "Material Symbols Outlined");
}

#[test]
fn default_fonts() {
    assert_eq!(default_font_family_for("ja"), SAWARABI_GOTHIC_NAME);
    assert_eq!(default_font_family_for("en"), NOTO_SANS_NAME);
    assert_eq!(default_font_family_for("ja-JP"), NOTO_SANS_NAME);
    let f = get_default_font_family();
    assert!(f == NOTO_SANS_NAME || f == SAWARABI_GOTHIC_NAME);
}

#[test]
fn font_list_is_sorted_and_unique() {
    let r = font_list_from(strings(&["Noto Sans", "Arial", "Noto Sans", "Sawarabi Gothic", "Arial"]));
    assert_eq!(r, strings(&["Arial", "Noto Sans", "Sawarabi Gothic"]));
    assert!(font_list_from(vec![]).is_empty());
}

#[test]
fn fatal_messages_by_language() {
    let (title, message) = fatal_init_db_error_content("ja");
    assert_eq!(title, FATAL_JA);
    assert!(message.starts_with("アプリ設定用のデータベースが作成できません。"));
    let (title, message) = fatal_init_db_error_content("en");
    assert_eq!(title, FATAL_EN);
    assert!(message.starts_with("Unable to create database for app settings."));
    assert_eq!(fatal_initialize_app_error_content("fr"), ("Fatal error", "Application initialization failed."));
    assert_eq!(
        fatal_initialize_setting_registry_error_content("ja"),
        ("致命的なエラー", "設定レジストリの読み込みに失敗しました。")
    );
}

#[test]
fn file_dialog_status() {
    assert!(OpenPrehniteBookStatus::Success.is_success());
    assert!(!OpenPrehniteBookStatus::Failed.is_success());
    assert!(!OpenPrehniteBookStatus::NotSelected.is_success());
    assert_ne!(FileOpe::Open, FileOpe::New);
}

#[test]
fn text_helpers() {
    let int = |s: &str| SettingValueType::Int(None).converter(Some(s.to_string())).as_int();
    let boolean = |s: &str| SettingValueType::Bool(None).converter(Some(s.to_string())).as_bool();
    assert_eq!(int("-0012"), Some(-12));
    assert_eq!(int("+5"), Some(5));
    assert_eq!(int(""), None);
    assert_eq!(int("-"), None);
    assert_eq!(int("9223372036854775807"), Some(i64::MAX));
    assert_eq!(int("-9223372036854775808"), Some(i64::MIN));
    assert_eq!(int("1 "), None);
    assert_eq!(boolean("true"), Some(true));
    assert_eq!(boolean("True"), None);
    assert_eq!(bool_to_string(false), "false");
    assert!(str_eq("日本", "日本"));
    assert!(!str_eq("a", "ab"));
    assert!(str_less("a", "ab"));
    assert!(str_less("B", "a"));
    assert!(!str_less("b", "b"));
    assert_eq!(join(&strings(&["a", "b", "c"]), ", "), "a, b, c");
    assert_eq!(join(&strings(&[]), ","), "");
    assert_eq!(join(&strings(&["x"]), ","), "x");
}

#[test]
fn package_names_are_sorted_and_unique() {
    let ks = vec![krate("serde", &[]), krate("anyhow", &[]), krate("serde", &[])];
    assert_eq!(package_names(&ks), strings(&["anyhow", "serde"]));
}

#[test]
fn dependency_rows_point_at_names() {
    let ks = vec![
        krate("zip", &["flate2", "missing", "anyhow"]),
        krate("anyhow", &[]),
        krate("flate2", &["gone"]),
    ];
    let (names, rows, missing) = dependency_table(&ks);
    assert_eq!(names, strings(&["anyhow", "flate2", "zip"]));
    assert_eq!(rows.len(), 3);
    assert_eq!(rows[0].pkg_index, 2);
    assert_eq!(rows[0].dependency_index, vec![1, 0]);
    assert_eq!(rows[1].pkg_index, 0);
    assert!(rows[1].dependency_index.is_empty());
    assert_eq!(rows[2].pkg_index, 1);
    let pairs: Vec<(String, String)> = missing.into_iter().map(|m| (m.depend, m.dependency)).collect();
    assert_eq!(
        pairs,
        vec![
            ("zip".to_string(), "missing".to_string()),
            ("flate2".to_string(), "gone".to_string())
        ]
    );
}

#[test]
fn dependency_positions_are_first_positions() {
    let names = strings(&["a", "b", "a"]);
    let (rows, missing) = dependency_list(&names, &vec![krate("a", &["a", "b"])]);
    assert_eq!(rows[0].pkg_index, 0);
    assert_eq!(rows[0].dependency_index, vec![0, 1]);
    assert!(missing.is_empty());
}

fn paragraph_item(id: i64) -> Item {
    Item { id, item_type: ItemType::Paragraph(None), ..item(None) }
}

#[test]
fn task_line_is_translated() {
    let current = CurrentI18nBundle::new(Some(parse_lang_bundle("ja-JP").unwrap()));
    assert_eq!(task_line(&current, &item(Some(vec![task(false)]))), "タスク: (1/1)");
    let none = CurrentI18nBundle::new(None);
    assert_eq!(task_line(&none, &item(None)), "task: -");
}

#[test]
fn focus_and_paragraph_rows() {
    assert!(is_focused(3, Some(3)));
    assert!(!is_focused(3, Some(4)));
    assert!(!is_focused(3, None));
    let items = vec![paragraph_item(5), item(None), paragraph_item(7)];
    let mut row = ItemRow::new();
    assert_eq!(row.paragraph_rows(Some(&items), Some(7)), vec![(5, false), (7, true)]);
    assert!(row.paragraph_rows(None, Some(7)).is_empty());
    row.toggle_folded();
    assert!(row.paragraph_rows(Some(&items), None).is_empty());
}


#[test]
fn opening_a_new_book_removes_the_old_file_first() {
    let (s, a) = book_file_step(BookFileState::Choosing(FileOpe::New), BookFileEvent::Chosen(true));
    assert_eq!((s, a), (BookFileState::Removing, BookFileAction::RemoveFile));
    let (s, a) = book_file_step(s, BookFileEvent::Removed(false));
    assert_eq!((s, a), (BookFileState::CheckingAfterRemoval, BookFileAction::CheckExists));
    let (s, a) = book_file_step(s, BookFileEvent::Exists(None));
    assert_eq!(s, BookFileState::Finished(OpenPrehniteBookStatus::Failed));
    assert_eq!(a, BookFileAction::Alert(BookFileAlert::PermissionDenied));
    let (s, a) = book_file_step(BookFileState::CheckingAfterRemoval, BookFileEvent::Exists(Some(false)));
    assert_eq!((s, a), (BookFileState::Opening, BookFileAction::OpenBook));
    let (s, a) = book_file_step(s, BookFileEvent::Opened(true));
    assert_eq!((s, a), (BookFileState::Finished(OpenPrehniteBookStatus::Success), BookFileAction::SaveSettings));
}

#[test]
fn opening_a_missing_book_fails_and_forgets_it() {
    let (s, a) = book_file_step(BookFileState::Choosing(FileOpe::Open), BookFileEvent::Chosen(true));
    assert_eq!((s, a), (BookFileState::CheckingExistence, BookFileAction::CheckExists));
    let (s, a) = book_file_step(s, BookFileEvent::Exists(Some(false)));
    assert_eq!((s, a), (BookFileState::Forgetting, BookFileAction::Alert(BookFileAlert::FileNotFound)));
    assert_eq!(BookFileAlert::FileNotFound.i18n_keys(), ("error", "file-notfound"));
    let (s, a) = book_file_step(s, BookFileEvent::Done);
    assert_eq!((s, a), (BookFileState::Finished(OpenPrehniteBookStatus::Failed), BookFileAction::ForgetLastOpenedAndSave));
}

#[test]
fn canceled_dialog_and_stray_events() {
    let (s, a) = book_file_step(BookFileState::Choosing(FileOpe::Open), BookFileEvent::Chosen(false));
    assert_eq!((s, a), (BookFileState::Finished(OpenPrehniteBookStatus::NotSelected), BookFileAction::Nothing));
    let (s, a) = book_file_step(BookFileState::Opening, BookFileEvent::Opened(false));
    assert_eq!((s, a), (BookFileState::Finished(OpenPrehniteBookStatus::Failed), BookFileAction::Nothing));
    let (s, a) = book_file_step(BookFileState::Opening, BookFileEvent::Removed(true));
    assert_eq!((s, a), (BookFileState::Opening, BookFileAction::Nothing));
    assert_eq!(BookFileAlert::PermissionDenied.i18n_keys(), ("error", "permission-denied"));
}
