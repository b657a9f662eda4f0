//! Reading records from rows whose columns carry a prefix per record.
use vstd::prelude::*;
use crate::db::schema::{Headline, Item, ItemType, Paragraph};
use crate::text::str_eq;

verus! {

/// Reads records from rows of joined views.
pub struct PrefixedDeserializer;

/// A column value that names no kind of item.
#[derive(Debug, Clone, Copy, PartialEq, Eq, Structural)]
pub enum Error {
    ItemTypeDecodeError,
}

impl PrefixedDeserializer {
    /// The kind of item stored as `item_type`: `headline` or `paragraph`,
    /// with the headline or paragraph still to be read.
    pub fn item_type_kind(item_type: &str) -> (r: Result<ItemType, Error>)
        ensures
            match r {
                Ok(t) => (item_type@ == "headline"@ && t == ItemType::Headline(None))
                    || (item_type@ == "paragraph"@ && t == ItemType::Paragraph(None)),
                Err(_) => item_type@ != "headline"@ && item_type@ != "paragraph"@,
            },
    {
        if str_eq(item_type, "headline") {
            Ok(ItemType::Headline(None))
        } else if str_eq(item_type, "paragraph") {
            Ok(ItemType::Paragraph(None))
        } else {
            Err(Error::ItemTypeDecodeError)
        }
    }
}

/// Why a record could not be read from a row.
#[derive(Debug, Clone, Copy, PartialEq, Eq, Structural)]
pub enum RowError {
    /// A column holds a value that names nothing (the kind of an item).
    ColumnDecode,
    /// The record is absent from the row (its id is null).
    RowNotFound,
}

/// The columns of an item read from a row: its kind, id, creation time and
/// title, and the headline and paragraph read with their own prefixes
/// (`None` where they could not be read).
pub struct ItemColumns {
    pub item_type: String,
    pub id: Option<i64>,
    pub created_at: i64,
    pub title: String,
    pub headline: Option<Headline>,
    pub paragraph: Option<Paragraph>,
}

impl PrefixedDeserializer {
    /// The item read from its columns: an unknown kind fails with
    /// `ColumnDecode`, then a null id with `RowNotFound`; otherwise the
    /// item with its id, creation time and title, its kind holding the
    /// headline or the paragraph read from the row, and no references,
    /// tags, background information or tasks.
    pub fn item_from_columns(c: ItemColumns) -> (r: Result<Item, RowError>)
        ensures
            c.item_type@ != "headline"@ && c.item_type@ != "paragraph"@ ==> r == Err::<Item, RowError>(RowError::ColumnDecode),
            (c.item_type@ == "headline"@ || c.item_type@ == "paragraph"@) && c.id is None ==> r == Err::<Item, RowError>(RowError::RowNotFound),
            r matches Ok(item) ==> {
                &&& c.id == Some(item.id)
                &&& item.created_at == c.created_at
                &&& item.title == c.title
                &&& item.item_type == if c.item_type@ == "headline"@ {
                    ItemType::Headline(c.headline)
                } else {
                    ItemType::Paragraph(c.paragraph)
                }
                &&& (c.item_type@ == "headline"@ || c.item_type@ == "paragraph"@)
                &&& item.references is None
                &&& item.tags is None
                &&& item.background_info_list is None
                &&& item.tasks is None
            },
            (c.item_type@ == "headline"@ || c.item_type@ == "paragraph"@) && c.id is Some ==> r is Ok,
    {
        proof {
            reveal_strlit("headline");
            reveal_strlit("paragraph");
        }
        let kind = match Self::item_type_kind(c.item_type.as_str()) {
            Ok(k) => k,
            Err(_) => return Err(RowError::ColumnDecode),
        };
        let ghost h = c.headline;
        let ghost p = c.paragraph;
        let item_type = match kind {
            ItemType::Headline(_) => {
                assert(c.item_type@ == "headline"@);
                ItemType::Headline(c.headline)
            },
            ItemType::Paragraph(_) => {
                assert(c.item_type@ == "paragraph"@);
                assert(c.item_type@ != "headline"@);
                ItemType::Paragraph(c.paragraph)
            },
        };
        assert(item_type == if c.item_type@ == "headline"@ {
            ItemType::Headline(h)
        } else {
            ItemType::Paragraph(p)
        });
        let id = match c.id {
            Some(id) => id,
            None => return Err(RowError::RowNotFound),
        };
        Ok(Item {
            id,
            created_at: c.created_at,
            item_type,
            title: c.title,
            references: None,
            tags: None,
            background_info_list: None,
            tasks: None,
        })
    }
}

} // verus!
