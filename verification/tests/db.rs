use prehnite_core::db::book_search_result::BookSearchResult;
use prehnite_core::db::cushion_types::{OptionString, ScriptValue, VecString};
use prehnite_core::db::prefixed_deserializer::{Error, PrefixedDeserializer};
use prehnite_core::db::record_sql::{
    column_order, create_fields, delete_sql, insert_columns, insert_sql, parse_fields,
    placeholder_helper, records_per_statement, row_placeholder, select_all_sql,
    select_by_id_sql, select_by_ids_sql, statement_chunks, update_fields, update_set_clause,
    update_sql, DbField, PrehniteDbAttributes, PrehniteDbFieldAttributes,
};
use prehnite_core::db::schema::{BibliographyAuthor, ItemType, Publisher, UtcTimestamp, MAX_BIND_COUNT};
use prehnite_core::db::util::utc_parse_format;

fn text(s: &str) -> ScriptValue {
    ScriptValue::Text(s.to_string())
}

fn field(name: &str, is_option: bool, attr: PrehniteDbFieldAttributes) -> DbField {
    DbField { is_option, ident: name.to_string(), attr, field_name: name.to_string() }
}

fn plain(name: &str) -> DbField {
    field(name, false, PrehniteDbFieldAttributes::default())
}

#[test]
fn snake_case_names() {
    let a = PrehniteDbAttributes::default();
    assert_eq!(a.table_name("BookSearchApi"), "book_search_api");
    assert_eq!(a.table_name("Tag"), "tag");
    assert_eq!(a.table_name("RelTagAndItem"), "rel_tag_and_item");
    assert_eq!(a.view_name("RelTagAndItem"), "rel_tag_and_item");
    let a = PrehniteDbAttributes { view_name: Some("v".to_string()), table_name: Some("t".to_string()) };
    assert_eq!(a.table_name("Tag"), "t");
    assert_eq!(a.view_name("Tag"), "v");
    let a = PrehniteDbAttributes { view_name: None, table_name: Some("headlines".to_string()) };
    assert_eq!(a.view_name("Headline"), "headlines");
}

#[test]
fn field_attributes() {
    let a = PrehniteDbFieldAttributes { skip: true, ..Default::default() };
    assert!(a.skip_update() && a.skip_create());
    let a = PrehniteDbFieldAttributes { skip_update: true, ..Default::default() };
    assert!(a.skip_update() && !a.skip_create());
    let a = PrehniteDbFieldAttributes { use_id: true, use_string_from: true, ..Default::default() };
    assert!(a.use_id() && a.use_string_from());
}

#[test]
fn parsed_fields_drop_id_and_rename() {
    let renamed = field(
        "publisher",
        true,
        PrehniteDbFieldAttributes { name: Some("publisher_id".to_string()), use_id: true, ..Default::default() },
    );
    let fields = parse_fields(vec![plain("id"), plain("title"), renamed]);
    let names: Vec<String> = fields.iter().map(|f| f.field_name.clone()).collect();
    assert_eq!(names, vec!["title".to_string(), "publisher_id".to_string()]);
    assert_eq!(fields[1].ident, "publisher");
}

#[test]
fn columns_are_grouped() {
    let fields = vec![
        field("kind", false, PrehniteDbFieldAttributes { use_string_from: true, ..Default::default() }),
        field("parent", true, PrehniteDbFieldAttributes { use_id: true, ..Default::default() }),
        plain("title"),
        field("owner", false, PrehniteDbFieldAttributes { use_id: true, ..Default::default() }),
        field("mode", true, PrehniteDbFieldAttributes { use_string_from: true, ..Default::default() }),
        plain("body"),
    ];
    assert_eq!(
        column_order(&fields),
        vec!["title", "body", "owner", "parent", "kind", "mode"]
            .into_iter()
            .map(String::from)
            .collect::<Vec<String>>()
    );
    assert_eq!(insert_columns(&fields), "title,body,owner,parent,kind,mode");
    assert_eq!(update_set_clause(&fields), "title=?,body=?,owner=?,parent=?,kind=?,mode=?");
}

#[test]
fn skipped_fields() {
    let fields = vec![
        field("a", false, PrehniteDbFieldAttributes { skip_create: true, ..Default::default() }),
        field("b", false, PrehniteDbFieldAttributes { skip_update: true, ..Default::default() }),
        field("c", false, PrehniteDbFieldAttributes { skip: true, ..Default::default() }),
        plain("d"),
    ];
    let created: Vec<String> = create_fields(fields.iter().cloned().collect()).into_iter().map(|f| f.field_name).collect();
    let updated: Vec<String> = update_fields(fields).into_iter().map(|f| f.field_name).collect();
    assert_eq!(created, vec!["b".to_string(), "d".to_string()]);
    assert_eq!(updated, vec!["a".to_string(), "d".to_string()]);
}

#[test]
fn placeholders() {
    assert_eq!(placeholder_helper("?", 3), "?,?,?");
    assert_eq!(placeholder_helper("(?,?)", 2), "(?,?),(?,?)");
    assert_eq!(placeholder_helper("?", 0), "");
    assert_eq!(row_placeholder(2), "(?,?)");
    assert_eq!(row_placeholder(0), "()");
    assert_eq!(records_per_statement(7), MAX_BIND_COUNT / 7);
    assert_eq!(records_per_statement(30001), 0);
}

#[test]
fn statements() {
    assert_eq!(
        insert_sql("tags", "name,memo", "(?,?)", 2, false),
        "INSERT INTO tags(name,memo) VALUES (?,?),(?,?)  RETURNING id"
    );
    assert_eq!(
        insert_sql("tags", "name", "(?)", 1, true),
        "INSERT INTO tags(name) VALUES (?) ON CONFLICT DO NOTHING RETURNING id"
    );
    assert_eq!(select_by_ids_sql("v_tags", "?", 3), "SELECT * FROM v_tags WHERE id IN (?,?,?)");
    assert_eq!(select_all_sql("tags"), "SELECT * FROM tags");
    assert_eq!(select_by_id_sql("tags"), "SELECT * FROM tags WHERE id = ?");
    assert_eq!(update_sql("tags", "name=?"), "UPDATE tags SET name=? WHERE id=?");
    assert_eq!(delete_sql("tags"), "DELETE FROM tags WHERE id=?");
}

#[test]
fn script_values() {
    assert_eq!(OptionString::from_value(text("x")).into_option(), Some("x".to_string()));
    assert_eq!(OptionString::from_value(ScriptValue::Other).into_option(), None);
    let list = ScriptValue::List(vec![text("a"), text(""), ScriptValue::Other, text("b")]);
    assert_eq!(VecString::from_value(list).into_vec(), vec!["a".to_string(), "b".to_string()]);
    assert!(VecString::from_value(text("a")).into_vec().is_empty());
    let o: Option<String> = OptionString::from(Some("y".to_string())).into();
    assert_eq!(o, Some("y".to_string()));
    let v: Vec<String> = VecString::from(vec!["z".to_string()]).into();
    assert_eq!(v, vec!["z".to_string()]);
}

#[test]
fn book_search_result_from_script() {
    let r = BookSearchResult::new(
        text("978-4-00-000000-0"),
        ScriptValue::Other,
        "Title".to_string(),
        text("detail"),
        ScriptValue::List(vec![text("A"), text(""), text("B")]),
        text("Pub"),
        ScriptValue::Other,
    );
    assert_eq!(r.isbn, Some("978-4-00-000000-0".to_string()));
    assert_eq!(r.url, None);
    assert_eq!(r.title, "Title");
    assert_eq!(r.detail, Some("detail".to_string()));
    assert_eq!(r.authors, vec!["A".to_string(), "B".to_string()]);
    assert_eq!(r.publisher, Some("Pub".to_string()));
    assert_eq!(r.publication_date, None);
}

#[test]
fn example_result() {
    let r = BookSearchResult::example();
    assert_eq!(r.title, "The Book of Example");
    assert_eq!(r.authors, vec!["Hanako T".to_string(), "Taro T".to_string()]);
    assert_eq!(r.publisher, Some("FooBar Printing Exm".to_string()));
}

fn result(title: &str, publisher: Option<&str>, authors: &[&str]) -> BookSearchResult {
    BookSearchResult {
        title: title.to_string(),
        publisher: publisher.map(|p| p.to_string()),
        authors: authors.iter().map(|a| a.to_string()).collect(),
        ..Default::default()
    }
}

#[test]
fn registration_records() {
    let bsr = vec![
        result("one", Some("P"), &["A", "B"]),
        result("two", None, &["B"]),
        result("three", Some("Q"), &[]),
    ];
    let publishers = BookSearchResult::publishers_from_bsr(&bsr);
    let names: Vec<String> = publishers.iter().map(|p| p.name.clone()).collect();
    assert_eq!(names, vec!["P".to_string(), "Q".to_string()]);
    assert!(publishers.iter().all(|p| p.id == 0 && p.memo.is_none()));
    let authors = BookSearchResult::authors_from_bsr(&bsr);
    let names: Vec<String> = authors.iter().map(|a| a.name.clone()).collect();
    assert_eq!(names, vec!["A".to_string(), "B".to_string(), "B".to_string()]);

    let registered = vec![
        Publisher { id: 5, name: "P".to_string(), memo: None },
        Publisher { id: 6, name: "P".to_string(), memo: None },
    ];
    let bibs = BookSearchResult::bibliographies_from_bsr(&bsr, &registered);
    assert_eq!(bibs.len(), 3);
    assert_eq!(bibs[0].publisher.as_ref().map(|p| p.id), Some(6));
    assert!(bibs[1].publisher.is_none());
    assert!(bibs[2].publisher.is_none());
    assert_eq!(bibs[2].tmp_registration_id, Some(2));
    assert_eq!(bibs[0].created_at, UtcTimestamp::epoch());
    assert_eq!(bibs[1].title, "two");

    let mut bibs = bibs;
    bibs[0].id = 10;
    bibs[1].id = 11;
    bibs[2].id = 12;
    let registered_authors = vec![
        BibliographyAuthor { id: 1, name: "A".to_string(), memo: None },
        BibliographyAuthor { id: 2, name: "B".to_string(), memo: None },
        BibliographyAuthor { id: 3, name: "B".to_string(), memo: None },
    ];
    let links = BookSearchResult::rel_bibliography_author_from_bibliographies(&bsr, &bibs, &registered_authors);
    let pairs: Vec<(i64, i64)> = links.iter().map(|l| (l.bibliography_id, l.bibliography_author_id)).collect();
    assert_eq!(pairs, vec![(10, 1), (10, 3), (11, 3)]);
    assert!(links.iter().all(|l| l.id == 0));
}

#[test]
fn item_kinds() {
    assert!(matches!(PrefixedDeserializer::item_type_kind("headline"), Ok(ItemType::Headline(None))));
    assert!(matches!(PrefixedDeserializer::item_type_kind("paragraph"), Ok(ItemType::Paragraph(None))));
    assert_eq!(PrefixedDeserializer::item_type_kind("Headline").err(), Some(Error::ItemTypeDecodeError));
    assert_eq!(ItemType::Headline(None).as_str(), "headline");
    assert_eq!(ItemType::Paragraph(None).as_str(), "paragraph");
    assert!(ItemType::Paragraph(None).headline_or_none().is_none());
}

#[test]
fn utc_parsing() {
    let t = utc_parse_format(Some("2024-01-02 03:04:05 +0900".to_string()), "%Y-%m-%d %H:%M:%S %z").unwrap();
    assert_eq!(t, UtcTimestamp { secs: 1704132245, nanos: 0 });
    assert_eq!(utc_parse_format(Some("garbage".to_string()), "%Y-%m-%d %H:%M:%S %z"), None);
    assert_eq!(utc_parse_format(None, "%Y"), None);
}

use prehnite_core::db::prefixed_deserializer::{ItemColumns, RowError};
use prehnite_core::db::schema::Headline;

fn columns(kind: &str, id: Option<i64>) -> ItemColumns {
    ItemColumns {
        item_type: kind.to_string(),
        id,
        created_at: 5,
        title: "T".to_string(),
        headline: Some(Headline { id: 3, item_id: 1, parent_id: None, headline_pos: None, paragraph: None }),
        paragraph: None,
    }
}

#[test]
fn items_read_from_columns() {
    let item = PrefixedDeserializer::item_from_columns(columns("headline", Some(1))).unwrap();
    assert_eq!(item.id, 1);
    assert_eq!(item.created_at, 5);
    assert_eq!(item.title, "T");
    assert!(matches!(item.item_type, ItemType::Headline(Some(ref h)) if h.id == 3));
    assert!(item.tasks.is_none() && item.tags.is_none());
    let item = PrefixedDeserializer::item_from_columns(columns("paragraph", Some(2))).unwrap();
    assert!(matches!(item.item_type, ItemType::Paragraph(None)));
    assert_eq!(
        PrefixedDeserializer::item_from_columns(columns("note", None)).err(),
        Some(RowError::ColumnDecode)
    );
    assert_eq!(
        PrefixedDeserializer::item_from_columns(columns("headline", None)).err(),
        Some(RowError::RowNotFound)
    );
}

#[test]
fn statements_cut_records_as_chunks_do() {
    assert_eq!(statement_chunks(7, 3), vec![(0, 3), (3, 6), (6, 7)]);
    assert_eq!(statement_chunks(6, 3), vec![(0, 3), (3, 6)]);
    assert!(statement_chunks(0, 3).is_empty());
    let v: Vec<usize> = (0..10).collect();
    let cut: Vec<Vec<usize>> = statement_chunks(10, 4).into_iter().map(|(a, b)| v[a..b].to_vec()).collect();
    let chunks: Vec<Vec<usize>> = v.chunks(4).map(|c| c.to_vec()).collect();
    assert_eq!(cut, chunks);
}
