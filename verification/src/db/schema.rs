//! Records of the database tables.
use vstd::prelude::*;

verus! {

/// The largest number of placeholders in one statement (SQLite allows 32766
/// from 3.32.0 on; a margin is kept).
pub const MAX_BIND_COUNT: usize = 30000;

/// A point in time in UTC: whole seconds since the Unix epoch and the
/// nanoseconds within that second. The default is the epoch itself,
/// 1970-01-01 00:00:00 UTC.
#[derive(Default, Clone, Copy, Debug, PartialEq, Eq, Structural, Hash)]
pub struct UtcTimestamp {
    pub secs: i64,
    pub nanos: u32,
}

impl UtcTimestamp {
    /// The start of the Unix epoch.
    pub fn epoch() -> (r: Self)
        ensures
            r == (UtcTimestamp { secs: 0, nanos: 0 }),
    {
        UtcTimestamp { secs: 0, nanos: 0 }
    }
}

/// The id returned by an insertion.
#[derive(Default, Clone, Debug, Eq, PartialEq)]
pub struct ReturningId {
    pub id: i64,
}

/// Background information of items.
#[derive(Clone, Debug)]
pub struct BackgroundInfo {
    pub id: i64,
    pub body: String,
    pub created_at: UtcTimestamp,
    pub updated_at: UtcTimestamp,
    pub references: Option<Vec<BackgroundReference>>,
}

/// A tag.
#[derive(Default, Clone, Debug, Eq, PartialEq)]
pub struct Tag {
    pub id: i64,
    pub name: String,
    pub memo: Option<String>,
}

/// A publisher.
#[derive(Default, Debug, Eq, PartialEq)]
pub struct Publisher {
    pub id: i64,
    pub name: String,
    pub memo: Option<String>,
}

/// A copy of an optional string.
pub fn clone_opt_string(v: &Option<String>) -> (r: Option<String>)
    ensures
        r == *v,
{
    match v {
        Some(s) => Some(s.clone()),
        None => None,
    }
}

impl Clone for Publisher {
    fn clone(&self) -> (r: Self)
        ensures
            r == *self,
    {
        Publisher { id: self.id, name: self.name.clone(), memo: clone_opt_string(&self.memo) }
    }
}

/// A bibliography entry.
#[derive(Clone, Debug)]
pub struct Bibliography {
    pub id: i64,
    pub isbn: Option<String>,
    pub url: Option<String>,
    pub title: String,
    pub detail: Option<String>,
    pub authors: Vec<BibliographyAuthor>,
    pub publisher: Option<Publisher>,
    pub publication_date: Option<String>,
    pub created_at: UtcTimestamp,
    pub updated_at: UtcTimestamp,
    pub tmp_registration_id: Option<i64>,
}

/// An author of bibliography entries.
#[derive(Default, Debug, Eq, PartialEq)]
pub struct BibliographyAuthor {
    pub id: i64,
    pub name: String,
    pub memo: Option<String>,
}

impl Clone for BibliographyAuthor {
    fn clone(&self) -> (r: Self)
        ensures
            r == *self,
    {
        BibliographyAuthor { id: self.id, name: self.name.clone(), memo: clone_opt_string(&self.memo) }
    }
}

/// The kind of an item.
#[derive(Debug)]
pub enum ItemType {
    /// A headline.
    Headline(Option<Headline>),
    /// A paragraph.
    Paragraph(Option<Paragraph>),
}

impl ItemType {
    /// The headline of a headline item; `None` for a paragraph or when no
    /// headline is attached.
    pub fn headline_or_none(self) -> (r: Option<Headline>)
        ensures
            r == match self {
                ItemType::Headline(v) => v,
                ItemType::Paragraph(_) => None,
            },
    {
        match self {
            ItemType::Headline(v) => v,
            ItemType::Paragraph(_) => None,
        }
    }

    /// The paragraph of a paragraph item; `None` for a headline or when no
    /// paragraph is attached.
    pub fn paragraph_or_none(self) -> (r: Option<Paragraph>)
        ensures
            r == match self {
                ItemType::Headline(_) => None,
                ItemType::Paragraph(v) => v,
            },
    {
        match self {
            ItemType::Headline(_) => None,
            ItemType::Paragraph(v) => v,
        }
    }

    /// The name under which the kind is stored.
    pub open spec fn kind_text(self) -> Seq<char> {
        match self {
            ItemType::Headline(_) => "headline"@,
            ItemType::Paragraph(_) => "paragraph"@,
        }
    }

    /// The name under which the kind is stored (what `as_ref`, `Display`
    /// and `String::from` give).
    pub fn as_str(&self) -> (r: &'static str)
        ensures
            r@ == self.kind_text(),
    {
        match self {
            ItemType::Headline(_) => "headline",
            ItemType::Paragraph(_) => "paragraph",
        }
    }
}

impl Default for ItemType {
    fn default() -> (r: Self)
        ensures
            r == ItemType::Headline(None),
    {
        ItemType::Headline(None)
    }
}

/// An item: the supertype of headlines and paragraphs.
#[derive(Debug)]
pub struct Item {
    pub id: i64,
    pub created_at: i64,
    pub item_type: ItemType,
    pub title: String,
    pub references: Option<Vec<ItemReference>>,
    pub tags: Option<Vec<Tag>>,
    pub background_info_list: Option<Vec<BackgroundInfo>>,
    pub tasks: Option<Vec<Task>>,
}

/// What is proper to a headline.
#[derive(Debug)]
pub struct Headline {
    pub id: i64,
    pub item_id: i64,
    pub parent_id: Option<i64>,
    pub headline_pos: Option<i64>,
    pub paragraph: Option<Vec<Paragraph>>,
}

/// A headline and its descendants, grouped by the id of their parent.
#[derive(Debug)]
pub struct HeadlineChildren {
    pub parent: Headline,
    pub children: Vec<(i64, Vec<Headline>)>,
}

/// A draft of a paragraph.
#[derive(Clone, Debug)]
pub struct Draft {
    pub id: i64,
    pub paragraph_id: i64,
    pub draft_pos: Option<i64>,
    pub title: String,
    pub body: String,
    pub created_at: UtcTimestamp,
    pub updated_at: UtcTimestamp,
}

/// What is proper to a paragraph.
#[derive(Debug)]
pub struct Paragraph {
    pub id: i64,
    pub item_id: i64,
    pub headline: Headline,
    pub accepted_draft: Option<Draft>,
    pub paragraph_pos: Option<i64>,
    pub draft: Option<Vec<Draft>>,
    pub summary: Option<Vec<ParagraphSummary>>,
}

/// A summary of the content of a paragraph.
#[derive(Clone, Debug)]
pub struct ParagraphSummary {
    pub id: i64,
    pub paragraph_id: i64,
    pub title: String,
    pub detail: String,
    pub summary_pos: Option<i64>,
    pub created_at: UtcTimestamp,
    pub updated_at: UtcTimestamp,
}

/// A bibliography entry cited by background information.
#[derive(Clone, Debug)]
pub struct BackgroundReference {
    pub id: i64,
    pub background_info_id: i64,
    pub bibliography: Bibliography,
    pub location: String,
}

/// A bibliography entry cited by an item.
#[derive(Clone, Debug)]
pub struct ItemReference {
    pub id: i64,
    pub item_id: i64,
    pub bibliography: Bibliography,
    pub location: String,
}

/// A category of tasks.
#[derive(Default, Clone, Debug, Eq, PartialEq)]
pub struct TaskCategory {
    pub id: i64,
    pub name: String,
    pub autocomplete_paragraph_link: bool,
}

/// A template of tasks.
#[derive(Default, Clone, Debug, Eq, PartialEq)]
pub struct TaskTemplate {
    pub id: i64,
    pub task_category: Option<TaskCategory>,
    pub title: String,
    pub detail: Option<String>,
}

/// A task.
#[derive(Default, Clone, Debug, Eq, PartialEq)]
pub struct Task {
    pub id: i64,
    pub item_id: i64,
    pub task_category: Option<TaskCategory>,
    pub title: String,
    pub detail: Option<String>,
    pub task_pos: Option<i64>,
    pub is_finished: bool,
}

/// A link between two paragraphs.
#[derive(Debug)]
pub struct ParagraphLink {
    pub id: i64,
    pub from_paragraph: Paragraph,
    pub to_paragraph: Paragraph,
    pub task: Option<Task>,
    pub comment: Option<String>,
}

/// A row of the settings table.
#[derive(Default, Clone, Debug, Eq, PartialEq)]
pub struct Setting {
    pub id: i64,
    pub setting_key: String,
    pub setting_value: Option<String>,
}

/// A link between a bibliography entry and an author.
#[derive(Default, Clone, Debug, Eq, PartialEq)]
pub struct RelBibliographyAuthor {
    pub id: i64,
    pub bibliography_id: i64,
    pub bibliography_author_id: i64,
}

/// A link between a tag and an item.
#[derive(Default, Clone, Debug, Eq, PartialEq)]
pub struct RelTagAndItem {
    pub id: i64,
    pub item_id: i64,
    pub tag_id: i64,
}

/// A link between background information and an item.
#[derive(Default, Clone, Debug, Eq, PartialEq)]
pub struct RelBackgroundAndItem {
    pub id: i64,
    pub item_id: i64,
    pub background_info_id: i64,
}

/// A configuration of a book search service.
#[derive(Default, Clone, Debug, Eq, PartialEq)]
pub struct BookSearchApi {
    pub id: i64,
    pub name: String,
    pub detail: String,
    pub isbn_url: String,
    pub text_url: String,
    pub mapping_script: String,
    pub is_example: bool,
}

} // verus!
