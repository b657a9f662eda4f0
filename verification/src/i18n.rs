//! Translations: the supported languages, their Fluent resources and the
//! lookup of messages by i18n key.
use vstd::prelude::*;
use crate::settings::value::opt_view;
use crate::text::str_eq;

verus! {

// ---------------------------------------------------------------------------
// Outside types and the trusted calls into unic-langid, fluent-bundle and
// sys-locale
// ---------------------------------------------------------------------------

/// A parsed language identifier of unic-langid.
#[verifier::external_type_specification]
#[verifier::external_body]
pub struct ExLanguageIdentifier(unic_langid::LanguageIdentifier);

/// A parsed Fluent resource.
#[verifier::external_type_specification]
#[verifier::external_body]
pub struct ExFluentResource(fluent_bundle::FluentResource);

/// The thread-safe memoizer of formatters of a bundle.
#[verifier::external_type_specification]
#[verifier::external_body]
pub struct ExIntlLangMemoizer(intl_memoizer::concurrent::IntlLangMemoizer);

/// A Fluent bundle: the messages of one language.
#[verifier::external_type_specification]
#[verifier::external_body]
#[verifier::reject_recursive_types(R)]
#[verifier::reject_recursive_types(M)]
pub struct ExFluentBundle<R, M>(fluent_bundle::bundle::FluentBundle<R, M>);

/// What parsing `text` as a language identifier gives: its canonical text
/// and the text of its language subtag, or `None` when it is not a valid
/// identifier.
pub uninterp spec fn langid_parse(text: Seq<char>) -> Option<(Seq<char>, Seq<char>)>;

/// Whether `source` parses as a Fluent resource without errors.
pub uninterp spec fn ftl_parses(source: Seq<char>) -> bool;

/// Whether adding the resource parsed from `source` to a bundle of language
/// `lang` that already holds the resources parsed from `sources` reports no
/// error (no message or term of it is already defined).
pub uninterp spec fn ftl_adds(lang: Seq<char>, sources: Seq<Seq<char>>, source: Seq<char>) -> bool;

/// The message `id`, formatted with the string arguments `args` (pairs of
/// name and value; none at all for `None`), of a bundle of language `lang`
/// holding the resources parsed from `sources`, with bidirectional isolation
/// marks on or off; `None` when the bundle has no message `id` or the
/// message has no value.
pub uninterp spec fn fluent_format(lang: Seq<char>, sources: Seq<Seq<char>>, isolating: bool, id: Seq<char>, args: Option<Seq<(Seq<char>, Seq<char>)>>) -> Option<Seq<char>>;

/// The pairs of characters of optional string arguments.
pub open spec fn args_view(args: Option<&Vec<(String, String)>>) -> Option<Seq<(Seq<char>, Seq<char>)>> {
    match args {
        Some(v) => Some(v@.map_values(|p: (String, String)| (p.0@, p.1@))),
        None => None,
    }
}

/// A language identifier with its canonical text and its language subtag.
pub struct LangId {
    id: unic_langid::LanguageIdentifier,
    text: String,
    language: String,
}

impl View for LangId {
    type V = (Seq<char>, Seq<char>);

    closed spec fn view(&self) -> (Seq<char>, Seq<char>) {
        (self.text@, self.language@)
    }
}

impl LangId {
    /// The canonical text of the identifier.
    pub fn text(&self) -> (r: &String)
        ensures
            r@ == self@.0,
    {
        &self.text
    }

    /// The language subtag of the identifier.
    pub fn language(&self) -> (r: &String)
        ensures
            r@ == self@.1,
    {
        &self.language
    }
}

/// Parses a language identifier.
///
/// Trusted: `str::parse::<unic_langid::LanguageIdentifier>`, with the
/// identifier's `to_string` and the `to_string` of its `language` subtag.
/// The result is named by `langid_parse`. Two facts of the source are
/// stated: a text without `-` or `_` is a single language subtag, and a
/// language subtag of four characters is refused; the language subtag of a
/// parsed identifier is written in lowercase ASCII letters, two, three or
/// five to eight of them (`und` when it is unspecified).
#[verifier::external_body]
pub(crate) fn parse_lang_id(s: &str) -> (r: Option<LangId>)
    ensures
        match r {
            Some(l) => langid_parse(s@) == Some(l@),
            None => langid_parse(s@) is None,
        },
        (s@.len() == 4 && forall|i: int| 0 <= i < 4 ==> s@[i] != '-' && s@[i] != '_') ==> r is None,
        r matches Some(l) ==> language_subtag(l@.1),
{
    match s.parse::<unic_langid::LanguageIdentifier>() {
        Ok(id) => {
            let text = id.to_string();
            let language = id.language.to_string();
            Some(LangId { id, text, language })
        },
        Err(_) => None,
    }
}

/// A Fluent resource with the source it was parsed from.
pub struct FtlResource {
    res: fluent_bundle::FluentResource,
    source: Ghost<Seq<char>>,
}

impl View for FtlResource {
    type V = Seq<char>;

    closed spec fn view(&self) -> Seq<char> {
        self.source@
    }
}

/// Parses a Fluent resource.
///
/// Trusted: `FluentResource::try_new`. Success is named by `ftl_parses`;
/// on parse errors the resource and the errors are dropped.
#[verifier::external_body]
pub(crate) fn new_ftl_resource(source: String) -> (r: Result<FtlResource, ()>)
    ensures
        r is Ok <==> ftl_parses(source@),
        r matches Ok(x) ==> x@ == source@,
{
    let ghost g = source@;
    match fluent_bundle::FluentResource::try_new(source) {
        Ok(res) => Ok(FtlResource { res, source: Ghost(g) }),
        Err(_) => Err(()),
    }
}

/// The mathematical form of a bundle: its language, the sources of its
/// resources in the order they were added, and whether it isolates
/// placeables.
pub struct BundleView {
    pub lang: Seq<char>,
    pub sources: Seq<Seq<char>>,
    pub isolating: bool,
}

/// A thread-safe Fluent bundle of one language.
pub struct LangBundle {
    bundle: fluent_bundle::bundle::FluentBundle<fluent_bundle::FluentResource, intl_memoizer::concurrent::IntlLangMemoizer>,
    lang_text: String,
    sources: Ghost<Seq<Seq<char>>>,
    isolating: Ghost<bool>,
}

impl View for LangBundle {
    type V = BundleView;

    closed spec fn view(&self) -> BundleView {
        BundleView { lang: self.lang_text@, sources: self.sources@, isolating: self.isolating@ }
    }
}

impl LangBundle {
    /// The canonical text of the language of the bundle.
    pub fn lang_text(&self) -> (r: &String)
        ensures
            r@ == self@.lang,
    {
        &self.lang_text
    }
}

/// A new bundle of the language `lang`, without resources.
///
/// Trusted: `FluentBundle::new_concurrent` with `lang` as the only locale,
/// which holds no resource and isolates placeables.
#[verifier::external_body]
pub(crate) fn new_lang_bundle(lang: &LangId) -> (r: LangBundle)
    ensures
        r@ == (BundleView { lang: lang@.0, sources: Seq::empty(), isolating: true }),
{
    LangBundle {
        bundle: fluent_bundle::concurrent::FluentBundle::new_concurrent(vec![lang.id.clone()]),
        lang_text: lang.text.clone(),
        sources: Ghost(Seq::empty()),
        isolating: Ghost(true),
    }
}

/// Adds a resource to a bundle.
///
/// Trusted: `FluentBundle::add_resource`, which keeps the resource whether
/// or not some of its entries were already defined; whether it reports
/// errors is named by `ftl_adds`.
#[verifier::external_body]
pub(crate) fn add_ftl_resource(b: &mut LangBundle, r: FtlResource) -> (res: Result<(), ()>)
    ensures
        final(b)@ == (BundleView { sources: old(b)@.sources.push(r@), ..old(b)@ }),
        res is Ok <==> ftl_adds(old(b)@.lang, old(b)@.sources, r@),
{
    let ghost g = r@;
    let out = b.bundle.add_resource(r.res);
    proof {
        b.sources = Ghost(b.sources@.push(g));
    }
    match out {
        Ok(()) => Ok(()),
        Err(_) => Err(()),
    }
}

/// Turns the isolation of placeables on or off.
///
/// Trusted: `FluentBundle::set_use_isolating`.
#[verifier::external_body]
pub(crate) fn set_use_isolating(b: &mut LangBundle, value: bool)
    ensures
        final(b)@ == (BundleView { isolating: value, ..old(b)@ }),
{
    b.bundle.set_use_isolating(value);
    proof {
        b.isolating = Ghost(value);
    }
}

/// Formats the message `id` of a bundle, with string arguments if given.
///
/// Trusted: `FluentBundle::get_message`, the message's `value` and
/// `FluentBundle::format_pattern` with the arguments collected into
/// `FluentArgs` (or none), whose errors are dropped. The result is named by
/// `fluent_format`.
#[verifier::external_body]
pub(crate) fn format_message(b: &LangBundle, id: &str, args: Option<&Vec<(String, String)>>) -> (r: Option<String>)
    ensures
        opt_view(r) == fluent_format(b@.lang, b@.sources, b@.isolating, id@, args_view(args)),
{
    let pattern = b.bundle.get_message(id)?.value()?;
    let fargs: Option<fluent_bundle::FluentArgs> =
        args.map(|v| v.iter().map(|p| (p.0.as_str(), p.1.as_str())).collect());
    let mut errors = vec![];
    Some(b.bundle.format_pattern(pattern, fargs.as_ref(), &mut errors).to_string())
}

/// The locale of the system, such as `en-US`.
///
/// Trusted: `sys_locale::get_locale`. Its result depends on the machine, so
/// nothing is stated of it.
#[verifier::external_body]
pub(crate) fn system_locale() -> Option<String> {
    sys_locale::get_locale()
}

// ---------------------------------------------------------------------------
// Supported languages and their resources
// ---------------------------------------------------------------------------

/// The Fluent resource of American English.
pub const EN_US_FTL: &'static str = "settings_category_general = General
settings_entry_locale = Language
settings_entry_font = Font
settings_entry_auto-open-last-opened-file = Open the last opened file at startup
last-opened-file = Last opened file
task = Task
error = Error
permission-denied = Permission denied.
file-notfound = The file was not found.
new-file = New book
open-file = Open book
";

/// The Fluent resource of Japanese.
pub const JA_JP_FTL: &'static str = "settings_category_general = 全般
settings_entry_locale = 言語
settings_entry_font = フォント
settings_entry_auto-open-last-opened-file = 起動時に最後に開いたファイルを開く
last-opened-file = 最後に開いたファイル
task = タスク
error = エラー
permission-denied = アクセスが拒否されました。
file-notfound = ファイルが見つかりません。
new-file = 新しいブック
open-file = ブックを開く
";

/// The identifiers of the supported languages.
pub open spec fn supported_ids() -> Seq<Seq<char>> {
    seq!["en-US"@, "ja-JP"@]
}

/// The identifiers of the supported languages.
pub const SUPPORTED_LANG_ID: [&'static str; 2] = ["en-US", "ja-JP"];

/// The identifiers of the supported languages: `en-US` and `ja-JP`.
pub fn supported_lang_id() -> (r: Vec<&'static str>)
    ensures
        r@.map_values(|s: &str| s@) == supported_ids(),
{
    let ids = SUPPORTED_LANG_ID;
    let r = vec![ids[0], ids[1]];
    assert(r@.map_values(|s: &str| s@) =~= supported_ids());
    r
}

/// The languages of the application.
#[derive(Debug, Clone, Copy, PartialEq, Eq, Structural)]
pub enum SupportedLanguages {
    EnUS,
    JaJP,
}

/// The default language.
pub const DEFAULT_LANG_ID: SupportedLanguages = SupportedLanguages::EnUS;

/// A text that names no supported language.
#[derive(Debug, Clone, Copy, PartialEq, Eq, Structural)]
pub enum UnknownLanguage {
    VariantNotFound,
}

impl SupportedLanguages {
    /// The name of the language (its variant name, as its `Display` and its
    /// `&'static str` conversion write it).
    pub open spec fn name_text(self) -> Seq<char> {
        match self {
            SupportedLanguages::EnUS => "EnUS"@,
            SupportedLanguages::JaJP => "JaJP"@,
        }
    }

    /// The name of the language.
    pub fn as_str(&self) -> (r: &'static str)
        ensures
            r@ == self.name_text(),
    {
        match self {
            SupportedLanguages::EnUS => "EnUS",
            SupportedLanguages::JaJP => "JaJP",
        }
    }

    /// The name of the language, as a `String`.
    pub fn to_name_string(&self) -> (r: String)
        ensures
            r@ == self.name_text(),
    {
        self.as_str().to_string()
    }

    /// The language named `s`.
    pub fn from_name(s: &str) -> (r: Result<Self, UnknownLanguage>)
        ensures
            match r {
                Ok(l) => l.name_text() == s@,
                Err(_) => forall|l: SupportedLanguages| l.name_text() != s@,
            },
    {
        if str_eq(s, "EnUS") {
            Ok(SupportedLanguages::EnUS)
        } else if str_eq(s, "JaJP") {
            Ok(SupportedLanguages::JaJP)
        } else {
            Err(UnknownLanguage::VariantNotFound)
        }
    }

    /// All languages, in declaration order.
    pub fn variants() -> (r: Vec<SupportedLanguages>)
        ensures
            r@ == seq![SupportedLanguages::EnUS, SupportedLanguages::JaJP],
    {
        vec![SupportedLanguages::EnUS, SupportedLanguages::JaJP]
    }
}

/// The Fluent source of the language `lang_id`, if it is supported.
pub open spec fn ftl_source(lang_id: Seq<char>) -> Option<Seq<char>> {
    if lang_id == "ja-JP"@ || lang_id == "ja"@ {
        Some(JA_JP_FTL@)
    } else if lang_id == "en-US"@ || lang_id == "en"@ {
        Some(EN_US_FTL@)
    } else {
        None
    }
}

/// No language resource exists for an identifier.
#[derive(Debug, Clone, Copy, PartialEq, Eq, Structural)]
pub enum TryGetFtlPathError {
    LangNotFound,
}

/// The Fluent source of the language `lang_id`: `ja-JP` and `ja` give the
/// Japanese resource, `en-US` and `en` the English one.
pub fn try_get_ftl_str(lang_id: &str) -> (r: Result<String, TryGetFtlPathError>)
    ensures
        match r {
            Ok(s) => ftl_source(lang_id@) == Some(s@),
            Err(_) => ftl_source(lang_id@) is None,
        },
{
    if str_eq(lang_id, "ja-JP") || str_eq(lang_id, "ja") {
        Ok(JA_JP_FTL.to_string())
    } else if str_eq(lang_id, "en-US") || str_eq(lang_id, "en") {
        Ok(EN_US_FTL.to_string())
    } else {
        Err(TryGetFtlPathError::LangNotFound)
    }
}

/// The Fluent source of the language `lang_id`. The fallback for an
/// unsupported identifier looks up the name of the default language, for
/// which no resource exists, so the identifier must be supported.
pub fn get_ftl_str(lang_id: &str) -> (r: String)
    requires
        ftl_source(lang_id@) is Some,
    ensures
        ftl_source(lang_id@) == Some(r@),
{
    match try_get_ftl_str(lang_id) {
        Ok(s) => s,
        Err(_) => {
            proof {
                assert(false);
            }
            String::new()
        },
    }
}

// ---------------------------------------------------------------------------
// Bundles
// ---------------------------------------------------------------------------

/// Errors of the translations.
#[derive(Debug, Clone, Copy, PartialEq, Eq, Structural)]
pub enum I18nError {
    /// The language identifier is not valid.
    FailedToParseLangId,
    /// The Fluent resource has syntax errors.
    FailedToParseFTL,
    /// The Fluent resource could not be added to the bundle.
    FailedToAddResource,
    /// The new language could not be saved in the settings.
    FailedToApplySetting,
}

/// What building the bundle of `lang_id` gives: its language, its resource
/// and no isolation, or the first error met.
pub open spec fn lang_bundle_spec(lang_id: Seq<char>) -> Result<BundleView, I18nError> {
    match langid_parse(lang_id) {
        None => Err(I18nError::FailedToParseLangId),
        Some((canon, _)) => {
            let src = ftl_source(lang_id)->0;
            if !ftl_parses(src) {
                Err(I18nError::FailedToParseFTL)
            } else if !ftl_adds(canon, Seq::empty(), src) {
                Err(I18nError::FailedToAddResource)
            } else {
                Ok(BundleView { lang: canon, sources: seq![src], isolating: false })
            }
        },
    }
}

/// Builds the bundle of the language `lang_id` from its resource, without
/// isolation of placeables. A valid identifier must have a resource.
pub fn parse_lang_bundle(lang_id: &str) -> (r: Result<LangBundle, I18nError>)
    requires
        bundle_buildable(lang_id@),
    ensures
        match r {
            Ok(b) => lang_bundle_spec(lang_id@) == Ok::<BundleView, I18nError>(b@),
            Err(e) => lang_bundle_spec(lang_id@) == Err::<BundleView, I18nError>(e),
        },
{
    let id = match parse_lang_id(lang_id) {
        Some(id) => id,
        None => return Err(I18nError::FailedToParseLangId),
    };
    let resource = match new_ftl_resource(get_ftl_str(lang_id)) {
        Ok(r) => r,
        Err(_) => return Err(I18nError::FailedToParseFTL),
    };
    let mut bundle = new_lang_bundle(&id);
    match add_ftl_resource(&mut bundle, resource) {
        Ok(()) => {},
        Err(_) => return Err(I18nError::FailedToAddResource),
    }
    set_use_isolating(&mut bundle, false);
    proof {
        assert(bundle@.sources =~= seq![ftl_source(lang_id@)->0]);
    }
    Ok(bundle)
}

/// Whether building the bundle of `lang_id` can proceed: the identifier is
/// not valid (the build fails at once) or it has a resource.
pub open spec fn bundle_buildable(lang_id: Seq<char>) -> bool {
    langid_parse(lang_id) is Some ==> ftl_source(lang_id) is Some
}

/// Builds the bundle of `lang_id` where `parse_lang_bundle` can: `None` for
/// a valid identifier that has no resource, on which the resource lookup
/// has nothing to fall back to.
pub fn checked_parse_lang_bundle(lang_id: &str) -> (r: Option<Result<LangBundle, I18nError>>)
    ensures
        match r {
            None => !bundle_buildable(lang_id@),
            Some(Ok(b)) => bundle_buildable(lang_id@) && lang_bundle_spec(lang_id@) == Ok::<BundleView, I18nError>(b@),
            Some(Err(e)) => bundle_buildable(lang_id@) && lang_bundle_spec(lang_id@) == Err::<BundleView, I18nError>(e),
        },
{
    let valid = parse_lang_id(lang_id).is_some();
    if valid && try_get_ftl_str(lang_id).is_err() {
        None
    } else {
        Some(parse_lang_bundle(lang_id))
    }
}

/// The bundle in use.
pub struct CurrentI18nBundle {
    bundle: Option<LangBundle>,
}

impl View for CurrentI18nBundle {
    type V = Option<BundleView>;

    closed spec fn view(&self) -> Option<BundleView> {
        match self.bundle {
            Some(b) => Some(b@),
            None => None,
        }
    }
}

impl CurrentI18nBundle {
    /// Holds `bundle`.
    pub fn new(bundle: Option<LangBundle>) -> (r: Self)
        ensures
            r@ == match bundle {
                Some(b) => Some(b@),
                None => None::<BundleView>,
            },
    {
        CurrentI18nBundle { bundle }
    }

    /// Replaces the bundle in use.
    pub fn set_bundle(&mut self, bundle: Option<LangBundle>)
        ensures
            final(self)@ == match bundle {
                Some(b) => Some(b@),
                None => None::<BundleView>,
            },
    {
        self.bundle = bundle;
    }

    /// The bundle in use.
    pub fn get_bundle(&self) -> (r: Option<&LangBundle>)
        ensures
            match r {
                Some(b) => self@ == Some(b@),
                None => self@ is None,
            },
    {
        match &self.bundle {
            Some(b) => Some(b),
            None => None,
        }
    }
}

/// What the i18n key `id` shows with the bundle `current` and the arguments
/// `args`: the formatted message, or the key itself when there is no bundle
/// or no such message.
pub open spec fn i18n_fmt_spec(current: Option<BundleView>, id: Seq<char>, args: Option<Seq<(Seq<char>, Seq<char>)>>) -> Seq<char> {
    match current {
        None => id,
        Some(b) => match fluent_format(b.lang, b.sources, b.isolating, id, args) {
            Some(s) => s,
            None => id,
        },
    }
}

/// What the i18n key `id` shows with the bundle `current`, without
/// arguments.
pub open spec fn i18n_spec(current: Option<BundleView>, id: Seq<char>) -> Seq<char> {
    i18n_fmt_spec(current, id, None)
}

/// What the i18n key `id` shows with the arguments `args`: the message of
/// the bundle in use, or the key itself when no bundle is loaded or it has
/// no such message.
pub fn i18n_fmt(current: &CurrentI18nBundle, id: &str, args: Option<&Vec<(String, String)>>) -> (r: String)
    ensures
        r@ == i18n_fmt_spec(current@, id@, args_view(args)),
{
    match current.get_bundle() {
        None => id.to_string(),
        Some(b) => match format_message(b, id, args) {
            Some(s) => s,
            None => id.to_string(),
        },
    }
}

/// What the i18n key `id` shows: the message of the bundle in use, or the
/// key itself when no bundle is loaded or it has no such message.
pub fn i18n(current: &CurrentI18nBundle, id: &str) -> (r: String)
    ensures
        r@ == i18n_spec(current@, id@),
{
    i18n_fmt(current, id, None)
}

/// What switching to the language `arg` does: the language to use (the
/// canonical text of `arg`, or of the default language's name when `arg` is
/// not valid) and the text its resource is looked up by.
pub open spec fn requested_lang(arg: Seq<char>) -> Option<(Seq<char>, Seq<char>)> {
    match langid_parse(arg) {
        Some((canon, _)) => Some((canon, arg)),
        None => match langid_parse(DEFAULT_LANG_ID.name_text()) {
            Some((canon, _)) => Some((canon, DEFAULT_LANG_ID.name_text())),
            None => None,
        },
    }
}

/// What switching the bundle in use `before` to the language `arg` gives:
/// the result and the bundle in use afterwards.
pub open spec fn switch_spec(before: Option<BundleView>, arg: Seq<char>) -> (Result<bool, I18nError>, Option<BundleView>) {
    match requested_lang(arg) {
        None => (Err(I18nError::FailedToParseLangId), before),
        Some((canon, text)) => {
            if before matches Some(b) && b.lang == canon {
                (Ok(false), before)
            } else {
                match lang_bundle_spec(text) {
                    Ok(nb) => (Ok(true), Some(nb)),
                    Err(e) => (Err(e), before),
                }
            }
        },
    }
}

/// Whether switching the bundle in use `before` to `arg` builds a new
/// bundle: `arg` is a valid identifier and the bundle in use is not already
/// of its language.
pub open spec fn switch_loads(before: Option<BundleView>, arg: Seq<char>) -> bool {
    match langid_parse(arg) {
        Some((canon, _)) => !(before matches Some(b) && b.lang == canon),
        None => false,
    }
}

/// Switches the bundle in use to the language `arg`. When `arg` is not a
/// valid identifier the name of the default language is tried instead,
/// which is not a valid identifier either, so the call fails. When the
/// bundle in use is already of that language nothing changes and `Ok(false)`
/// is returned, whatever resources exist; otherwise the bundle of the
/// language is built and put in use, and `Ok(true)` tells the caller to save
/// the language in the settings. Building a bundle needs the resource of
/// `arg`.
pub fn switch_lang_bundle(current: &mut CurrentI18nBundle, arg: &str) -> (r: Result<bool, I18nError>)
    requires
        switch_loads(old(current)@, arg@) ==> ftl_source(arg@) is Some,
    ensures
        (r, final(current)@) == switch_spec(old(current)@, arg@),
{
    let (id, use_default) = match parse_lang_id(arg) {
        Some(id) => (id, false),
        None => match parse_lang_id(DEFAULT_LANG_ID.as_str()) {
            Some(id) => (id, true),
            None => return Err(I18nError::FailedToParseLangId),
        },
    };
    proof {
        reveal_strlit("EnUS");
        assert(use_default ==> false);
    }
    let same = match current.get_bundle() {
        Some(b) => str_eq(b.lang_text().as_str(), id.text().as_str()),
        None => false,
    };
    if same {
        return Ok(false);
    }
    let bundle = parse_lang_bundle(arg)?;
    current.set_bundle(Some(bundle));
    Ok(true)
}

/// Switches the bundle in use as `switch_lang_bundle` does where it can:
/// `None`, with the bundle in use unchanged, when a new bundle would be
/// built for a valid identifier that has no resource.
pub fn checked_switch_lang_bundle(current: &mut CurrentI18nBundle, arg: &str) -> (r: Option<Result<bool, I18nError>>)
    ensures
        r is None <==> (switch_loads(old(current)@, arg@) && ftl_source(arg@) is None),
        r is None ==> final(current)@ == old(current)@,
        r matches Some(res) ==> (res, final(current)@) == switch_spec(old(current)@, arg@),
{
    let missing = match parse_lang_id(arg) {
        Some(id) => {
            let same = match current.get_bundle() {
                Some(b) => str_eq(b.lang_text().as_str(), id.text().as_str()),
                None => false,
            };
            !same && try_get_ftl_str(arg).is_err()
        },
        None => false,
    };
    if missing {
        None
    } else {
        Some(switch_lang_bundle(current, arg))
    }
}

/// Switching twice to the same language loads it at most once: after a
/// switch that loaded a bundle, switching again to the same language builds
/// nothing (so needs no resource), reports that nothing changed and keeps
/// the bundle.
pub proof fn law_switch_twice_loads_once(before: Option<BundleView>, arg: Seq<char>)
    requires
        switch_spec(before, arg).0 == Ok::<bool, I18nError>(true),
    ensures
        !switch_loads(switch_spec(before, arg).1, arg),
        switch_spec(switch_spec(before, arg).1, arg) == (Ok::<bool, I18nError>(false), switch_spec(before, arg).1),
{
}

/// Switching to the language already in use changes nothing, builds
/// nothing and reports that nothing changed.
pub proof fn law_switch_to_loaded_language(before: Option<BundleView>, arg: Seq<char>)
    requires
        langid_parse(arg) matches Some((canon, _)) && before matches Some(b) && b.lang == canon,
    ensures
        !switch_loads(before, arg),
        switch_spec(before, arg) == (Ok::<bool, I18nError>(false), before),
{
}

// ---------------------------------------------------------------------------
// Locales
// ---------------------------------------------------------------------------

/// The locale used when the system's is not supported: the system's locale
/// if it is one of the supported identifiers, else the name of the default
/// language.
pub open spec fn fallback_locale_spec(locale: Option<Seq<char>>) -> Seq<char> {
    match locale {
        Some(l) => if supported_ids().contains(l) {
            l
        } else {
            DEFAULT_LANG_ID.name_text()
        },
        None => DEFAULT_LANG_ID.name_text(),
    }
}

/// The starting locale keeps a system locale that is one of the supported
/// identifiers, `en-US` or `ja-JP`, unchanged; any other locale, or none,
/// gives the name of the default language. The result is always a supported
/// identifier or that name.
pub proof fn law_fallback_locale(l: Seq<char>)
    ensures
        (l == "en-US"@ || l == "ja-JP"@) ==> fallback_locale_spec(Some(l)) == l,
        !(l == "en-US"@ || l == "ja-JP"@) ==> fallback_locale_spec(Some(l)) == "EnUS"@,
        fallback_locale_spec(None) == "EnUS"@,
        fallback_locale_spec(Some(l)) == "en-US"@ || fallback_locale_spec(Some(l)) == "ja-JP"@
            || fallback_locale_spec(Some(l)) == "EnUS"@,
{
    assert(supported_ids()[0] == "en-US"@);
    assert(supported_ids()[1] == "ja-JP"@);
    if supported_ids().contains(l) {
        let i = choose|i: int| 0 <= i < supported_ids().len() && supported_ids()[i] == l;
        assert(i == 0 || i == 1);
    }
}

/// The locale to start with, given the system's locale.
pub fn fallback_locale_from(locale: Option<String>) -> (r: String)
    ensures
        r@ == fallback_locale_spec(opt_view(locale)),
{
    match locale {
        Some(l) => {
            if str_eq(l.as_str(), "en-US") || str_eq(l.as_str(), "ja-JP") {
                proof {
                    assert(supported_ids()[0] == "en-US"@);
                    assert(supported_ids()[1] == "ja-JP"@);
                }
                l
            } else {
                proof {
                    assert(!supported_ids().contains(l@)) by {
                        if supported_ids().contains(l@) {
                            let i = choose|i: int| 0 <= i < 2 && supported_ids()[i] == l@;
                            assert(i == 0 || i == 1);
                        }
                    }
                }
                DEFAULT_LANG_ID.to_name_string()
            }
        },
        None => DEFAULT_LANG_ID.to_name_string(),
    }
}

/// The locale to start with: the system's locale when it is supported, else
/// the name of the default language.
pub fn fallback_locale() -> (r: String)
    ensures
        supported_ids().contains(r@) || r@ == DEFAULT_LANG_ID.name_text(),
{
    let r = fallback_locale_from(system_locale());
    proof {
        if r@ != DEFAULT_LANG_ID.name_text() {
            assert(supported_ids().contains(r@));
        }
    }
    r
}

/// The language identifier of the system: its locale, or the name of the
/// default language when it has none.
pub fn get_locale_lang_id_from(locale: Option<String>) -> (r: String)
    ensures
        r@ == match opt_view(locale) {
            Some(l) => l,
            None => DEFAULT_LANG_ID.name_text(),
        },
{
    match locale {
        Some(l) => l,
        None => DEFAULT_LANG_ID.to_name_string(),
    }
}

/// The language identifier of the system.
pub fn get_locale_lang_id() -> (r: String) {
    get_locale_lang_id_from(system_locale())
}

/// Whether `s` has the form of a language subtag: two, three or five to
/// eight lowercase ASCII letters.
pub open spec fn language_subtag(s: Seq<char>) -> bool {
    &&& 2 <= s.len() <= 8
    &&& s.len() != 4
    &&& forall|i: int| 0 <= i < s.len() ==> 'a' <= #[trigger] s[i] <= 'z'
}

/// The language subtag of a language identifier, or `en` when it is not a
/// valid identifier.
pub fn language_of(lang_id: &str) -> (r: String)
    ensures
        r@ == match langid_parse(lang_id@) {
            Some((_, language)) => language,
            None => "en"@,
        },
        language_subtag(r@),
{
    match parse_lang_id(lang_id) {
        Some(id) => id.language().clone(),
        None => {
            proof {
                reveal_strlit("en");
            }
            "en".to_string()
        },
    }
}

/// The language of the system, such as `en` or `ja`: the language subtag of
/// the system's locale, or `en` when the system gives no valid identifier.
pub fn get_locale_language() -> (r: String)
    ensures
        language_subtag(r@),
        r@ == "en"@ || exists|id: Seq<char>| #[trigger] langid_parse(id) matches Some((_, language)) && language == r@,
{
    let id = get_locale_lang_id();
    let r = language_of(id.as_str());
    proof {
        if r@ != "en"@ {
            assert(langid_parse(id@) matches Some((_, language)) && language == r@);
        }
    }
    r
}

} // verus!
