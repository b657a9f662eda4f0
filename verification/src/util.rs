//! Opening book files and the messages of fatal errors.
use vstd::prelude::*;
use crate::text::str_eq;

verus! {

/// The kind of file dialog.
#[derive(Clone, Copy, Debug, PartialEq, Eq, Structural)]
pub enum FileOpe {
    New,
    Open,
}

/// What came of a file dialog.
#[derive(Clone, Copy, Debug, PartialEq, Eq, Structural)]
pub enum OpenPrehniteBookStatus {
    Success,
    Failed,
    NotSelected,
}

impl OpenPrehniteBookStatus {
    /// Whether a file path was obtained.
    pub fn is_success(&self) -> (r: bool)
        ensures
            r <==> (*self is Success),
    {
        match self {
            OpenPrehniteBookStatus::Success => true,
            _ => false,
        }
    }
}

/// An error shown while opening a book file.
#[derive(Clone, Copy, Debug, PartialEq, Eq, Structural)]
pub enum BookFileAlert {
    /// The file of a new book exists and cannot be removed.
    PermissionDenied,
    /// The file to open does not exist.
    FileNotFound,
}

impl BookFileAlert {
    /// The i18n keys of the title and of the message of the alert.
    pub fn i18n_keys(&self) -> (r: (&'static str, &'static str))
        ensures
            (r.0@, r.1@) == match self {
                BookFileAlert::PermissionDenied => ("error"@, "permission-denied"@),
                BookFileAlert::FileNotFound => ("error"@, "file-notfound"@),
            },
    {
        match self {
            BookFileAlert::PermissionDenied => ("error", "permission-denied"),
            BookFileAlert::FileNotFound => ("error", "file-notfound"),
        }
    }
}

/// Where opening a book file stands.
#[derive(Clone, Copy, Debug, PartialEq, Eq, Structural)]
pub enum BookFileState {
    /// The file dialog of the given kind is open.
    Choosing(FileOpe),
    /// The old file at the path of a new book is being removed.
    Removing,
    /// The removal failed; whether the file is still there is being checked.
    CheckingAfterRemoval,
    /// Whether the file to open exists is being checked.
    CheckingExistence,
    /// The missing file was reported; the file opened last is being
    /// forgotten.
    Forgetting,
    /// The book is being opened.
    Opening,
    /// Opening ended with the given status.
    Finished(OpenPrehniteBookStatus),
}

/// What the application reports back after performing an action.
#[derive(Clone, Copy, Debug, PartialEq, Eq, Structural)]
pub enum BookFileEvent {
    /// The dialog gave a path or not.
    Chosen(bool),
    /// The removal of the old file succeeded or not.
    Removed(bool),
    /// Whether the file exists, `None` when that could not be told.
    Exists(Option<bool>),
    /// The book was opened or not.
    Opened(bool),
    /// The last action was performed.
    Done,
}

/// What the application is to do next.
#[derive(Clone, Copy, Debug, PartialEq, Eq, Structural)]
pub enum BookFileAction {
    /// Remove the file at the path.
    RemoveFile,
    /// Tell whether the file at the path exists.
    CheckExists,
    /// Show the alert.
    Alert(BookFileAlert),
    /// Forget the file opened last and save the settings.
    ForgetLastOpenedAndSave,
    /// Open the book at the path.
    OpenBook,
    /// Save the settings.
    SaveSettings,
    /// Nothing more.
    Nothing,
}

/// The next state and action of opening a book file: without a path the
/// dialog ends as not selected; a new book first
/// removes the old file at its path, and fails with an alert when the file
/// is still there afterwards (or that cannot be told); an existing book fails
/// with an alert, forgetting the file opened last, when the file does not
/// exist (or that cannot be told); then the book is opened and, when that
/// succeeds, the settings are saved. An event that does not fit the state
/// changes nothing.
pub open spec fn book_file_next(state: BookFileState, event: BookFileEvent) -> (BookFileState, BookFileAction) {
    match (state, event) {
        (BookFileState::Choosing(_), BookFileEvent::Chosen(false)) => (BookFileState::Finished(OpenPrehniteBookStatus::NotSelected), BookFileAction::Nothing),
        (BookFileState::Choosing(FileOpe::New), BookFileEvent::Chosen(true)) => (BookFileState::Removing, BookFileAction::RemoveFile),
        (BookFileState::Choosing(FileOpe::Open), BookFileEvent::Chosen(true)) => (BookFileState::CheckingExistence, BookFileAction::CheckExists),
        (BookFileState::Removing, BookFileEvent::Removed(true)) => (BookFileState::Opening, BookFileAction::OpenBook),
        (BookFileState::Removing, BookFileEvent::Removed(false)) => (BookFileState::CheckingAfterRemoval, BookFileAction::CheckExists),
        (BookFileState::CheckingAfterRemoval, BookFileEvent::Exists(e)) => if e != Some(false) {
            (BookFileState::Finished(OpenPrehniteBookStatus::Failed), BookFileAction::Alert(BookFileAlert::PermissionDenied))
        } else {
            (BookFileState::Opening, BookFileAction::OpenBook)
        },
        (BookFileState::CheckingExistence, BookFileEvent::Exists(e)) => if e == Some(true) {
            (BookFileState::Opening, BookFileAction::OpenBook)
        } else {
            (BookFileState::Forgetting, BookFileAction::Alert(BookFileAlert::FileNotFound))
        },
        (BookFileState::Forgetting, BookFileEvent::Done) => (BookFileState::Finished(OpenPrehniteBookStatus::Failed), BookFileAction::ForgetLastOpenedAndSave),
        (BookFileState::Opening, BookFileEvent::Opened(true)) => (BookFileState::Finished(OpenPrehniteBookStatus::Success), BookFileAction::SaveSettings),
        (BookFileState::Opening, BookFileEvent::Opened(false)) => (BookFileState::Finished(OpenPrehniteBookStatus::Failed), BookFileAction::Nothing),
        _ => (state, BookFileAction::Nothing),
    }
}

/// One step of opening a book file: the next state and the action to
/// perform, given the event of the last action.
pub fn book_file_step(state: BookFileState, event: BookFileEvent) -> (r: (BookFileState, BookFileAction))
    ensures
        r == book_file_next(state, event),
{
    match (state, event) {
        (BookFileState::Choosing(ope), BookFileEvent::Chosen(chosen)) => if !chosen {
            (BookFileState::Finished(OpenPrehniteBookStatus::NotSelected), BookFileAction::Nothing)
        } else {
            match ope {
                FileOpe::New => (BookFileState::Removing, BookFileAction::RemoveFile),
                FileOpe::Open => (BookFileState::CheckingExistence, BookFileAction::CheckExists),
            }
        },
        (BookFileState::Removing, BookFileEvent::Removed(removed)) => if removed {
            (BookFileState::Opening, BookFileAction::OpenBook)
        } else {
            (BookFileState::CheckingAfterRemoval, BookFileAction::CheckExists)
        },
        (BookFileState::CheckingAfterRemoval, BookFileEvent::Exists(e)) => match e {
            Some(false) => (BookFileState::Opening, BookFileAction::OpenBook),
            _ => (BookFileState::Finished(OpenPrehniteBookStatus::Failed), BookFileAction::Alert(BookFileAlert::PermissionDenied)),
        },
        (BookFileState::CheckingExistence, BookFileEvent::Exists(e)) => match e {
            Some(true) => (BookFileState::Opening, BookFileAction::OpenBook),
            _ => (BookFileState::Forgetting, BookFileAction::Alert(BookFileAlert::FileNotFound)),
        },
        (BookFileState::Forgetting, BookFileEvent::Done) => (BookFileState::Finished(OpenPrehniteBookStatus::Failed), BookFileAction::ForgetLastOpenedAndSave),
        (BookFileState::Opening, BookFileEvent::Opened(opened)) => if opened {
            (BookFileState::Finished(OpenPrehniteBookStatus::Success), BookFileAction::SaveSettings)
        } else {
            (BookFileState::Finished(OpenPrehniteBookStatus::Failed), BookFileAction::Nothing)
        },
        _ => (state, BookFileAction::Nothing),
    }
}

/// A book is opened only when its file is known to be there to open: every
/// step into the opening state comes from a successful removal of the old
/// file of a new book, from a file of a new book known to be gone, or from a
/// file known to exist.
pub proof fn law_open_only_when_file_ready(state: BookFileState, event: BookFileEvent)
    requires
        state != BookFileState::Opening,
        book_file_next(state, event).0 == BookFileState::Opening,
    ensures
        (state == BookFileState::Removing && event == BookFileEvent::Removed(true))
            || (state == BookFileState::CheckingAfterRemoval && event == BookFileEvent::Exists(Some(false)))
            || (state == BookFileState::CheckingExistence && event == BookFileEvent::Exists(Some(true))),
{
}

/// A book is opened exactly when its file is known to be ready: outside the
/// opening state, a step leads to opening the book if and only if the old
/// file of a new book was removed, is known to be gone after a failed
/// removal, or the file to open is known to exist.
pub proof fn law_open_exactly_when_file_ready(state: BookFileState, event: BookFileEvent)
    requires
        state != BookFileState::Opening,
    ensures
        (book_file_next(state, event).0 == BookFileState::Opening) == (
            (state == BookFileState::Removing && event == BookFileEvent::Removed(true))
            || (state == BookFileState::CheckingAfterRemoval && event == BookFileEvent::Exists(Some(false)))
            || (state == BookFileState::CheckingExistence && event == BookFileEvent::Exists(Some(true)))
        ),
        book_file_next(state, event).0 == BookFileState::Opening ==> book_file_next(state, event).1 == BookFileAction::OpenBook,
{
}

/// What each kind of dialog leads to: a canceled dialog ends as not
/// selected with nothing done; a new book first removes the old file; an
/// existing book first checks that its file exists; a file to open that is
/// not known to exist is reported missing and then forgotten, ending in
/// failure; a file of a new book that is still there (or not known to be
/// gone) after a failed removal is reported as not writable, ending in
/// failure; a book that cannot be opened ends in failure; a finished opening
/// stays finished and does nothing.
pub proof fn law_book_file_outcomes(ope: FileOpe, e: Option<bool>, event: BookFileEvent, status: OpenPrehniteBookStatus)
    ensures
        book_file_next(BookFileState::Choosing(ope), BookFileEvent::Chosen(false))
            == (BookFileState::Finished(OpenPrehniteBookStatus::NotSelected), BookFileAction::Nothing),
        book_file_next(BookFileState::Choosing(FileOpe::New), BookFileEvent::Chosen(true)).1 == BookFileAction::RemoveFile,
        book_file_next(BookFileState::Choosing(FileOpe::Open), BookFileEvent::Chosen(true)).1 == BookFileAction::CheckExists,
        e != Some(true) ==> book_file_next(BookFileState::CheckingExistence, BookFileEvent::Exists(e)).1
            == BookFileAction::Alert(BookFileAlert::FileNotFound),
        book_file_next(BookFileState::Forgetting, BookFileEvent::Done)
            == (BookFileState::Finished(OpenPrehniteBookStatus::Failed), BookFileAction::ForgetLastOpenedAndSave),
        e != Some(false) ==> book_file_next(BookFileState::CheckingAfterRemoval, BookFileEvent::Exists(e))
            == (BookFileState::Finished(OpenPrehniteBookStatus::Failed), BookFileAction::Alert(BookFileAlert::PermissionDenied)),
        book_file_next(BookFileState::Opening, BookFileEvent::Opened(false)).0 == BookFileState::Finished(OpenPrehniteBookStatus::Failed),
        book_file_next(BookFileState::Finished(status), event) == (BookFileState::Finished(status), BookFileAction::Nothing),
{
}

/// Opening succeeds only when the book was opened, and the settings are
/// saved then.
pub proof fn law_success_only_when_opened(state: BookFileState, event: BookFileEvent)
    requires
        book_file_next(state, event).0 == BookFileState::Finished(OpenPrehniteBookStatus::Success),
        state != BookFileState::Finished(OpenPrehniteBookStatus::Success),
    ensures
        state == BookFileState::Opening,
        event == BookFileEvent::Opened(true),
        book_file_next(state, event).1 == BookFileAction::SaveSettings,
{
}

/// The title of fatal errors in Japanese.
pub const FATAL_JA: &'static str = "致命的なエラー";

/// The title of fatal errors in English.
pub const FATAL_EN: &'static str = "Fatal error";

/// The message shown when the database of the settings cannot be created,
/// in Japanese.
pub const FATAL_INIT_DB_ERROR_MESSAGE_JA: &'static str = "アプリ設定用のデータベースが作成できません。
アプリ用ディレクトリが決定できませんでした。
PREHNITE_GLOBAL_DIR_PATH 環境変数を以下のように指定してください。
例(実行時のディレクトリに作成): PREHNITE_GLOBAL_DIR_PATH = \".\"";

/// The message shown when the database of the settings cannot be created,
/// in English.
pub const FATAL_INIT_DB_ERROR_MESSAGE_EN: &'static str = "Unable to create database for app settings.
Could not determine directory for app.
Specify the PREHNITE_GLOBAL_DIR_PATH environment variable as follows:
Example (created in the runtime directory): PREHNITE_GLOBAL_DIR_PATH = \".\"";

/// The message shown when the application cannot start, in Japanese.
pub const FATAL_INIT_APP_ERROR_MESSAGE_JA: &'static str = "アプリケーションの初期化に失敗しました。";

/// The message shown when the application cannot start, in English.
pub const FATAL_INIT_APP_ERROR_MESSAGE_EN: &'static str = "Application initialization failed.";

/// The message shown when the settings registry cannot be read, in
/// Japanese.
pub const FATAL_INIT_SETTING_REGISTRY_ERROR_MESSAGE_JA: &'static str = "設定レジストリの読み込みに失敗しました。";

/// The message shown when the settings registry cannot be read, in English.
pub const FATAL_INIT_SETTING_REGISTRY_ERROR_MESSAGE_EN: &'static str = "Failed to load settings registry.";

/// Picks the Japanese pair for the language `ja` and the English pair for
/// any other.
pub open spec fn localized(language: Seq<char>, ja: (Seq<char>, Seq<char>), en: (Seq<char>, Seq<char>)) -> (Seq<char>, Seq<char>) {
    if language == "ja"@ {
        ja
    } else {
        en
    }
}

/// The title and message shown when the database of the settings cannot be
/// created, in the language `language`.
pub fn fatal_init_db_error_content(language: &str) -> (r: (&'static str, &'static str))
    ensures
        (r.0@, r.1@) == localized(
            language@,
            (FATAL_JA@, FATAL_INIT_DB_ERROR_MESSAGE_JA@),
            (FATAL_EN@, FATAL_INIT_DB_ERROR_MESSAGE_EN@),
        ),
{
    if str_eq(language, "ja") {
        (FATAL_JA, FATAL_INIT_DB_ERROR_MESSAGE_JA)
    } else {
        (FATAL_EN, FATAL_INIT_DB_ERROR_MESSAGE_EN)
    }
}

/// The title and the first line of the message shown when the application
/// cannot start, in the language `language`.
pub fn fatal_initialize_app_error_content(language: &str) -> (r: (&'static str, &'static str))
    ensures
        (r.0@, r.1@) == localized(
            language@,
            (FATAL_JA@, FATAL_INIT_APP_ERROR_MESSAGE_JA@),
            (FATAL_EN@, FATAL_INIT_APP_ERROR_MESSAGE_EN@),
        ),
{
    if str_eq(language, "ja") {
        (FATAL_JA, FATAL_INIT_APP_ERROR_MESSAGE_JA)
    } else {
        (FATAL_EN, FATAL_INIT_APP_ERROR_MESSAGE_EN)
    }
}

/// The title and message shown when the settings registry cannot be read,
/// in the language `language`.
pub fn fatal_initialize_setting_registry_error_content(language: &str) -> (r: (&'static str, &'static str))
    ensures
        (r.0@, r.1@) == localized(
            language@,
            (FATAL_JA@, FATAL_INIT_SETTING_REGISTRY_ERROR_MESSAGE_JA@),
            (FATAL_EN@, FATAL_INIT_SETTING_REGISTRY_ERROR_MESSAGE_EN@),
        ),
{
    if str_eq(language, "ja") {
        (FATAL_JA, FATAL_INIT_SETTING_REGISTRY_ERROR_MESSAGE_JA)
    } else {
        (FATAL_EN, FATAL_INIT_SETTING_REGISTRY_ERROR_MESSAGE_EN)
    }
}

} // verus!
