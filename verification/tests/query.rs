use prehnite_core::db::query::headline_children;
use prehnite_core::db::schema::Headline;

fn h(id: i64, parent: Option<i64>, pos: Option<i64>) -> Headline {
    Headline { id, item_id: id * 10, parent_id: parent, headline_pos: pos, paragraph: None }
}

fn ids(v: &[Headline]) -> Vec<i64> {
    v.iter().map(|x| x.id).collect()
}

#[test]
fn children_are_grouped_by_parent() {
    let rows = vec![
        h(1, None, Some(0)),
        h(2, Some(1), Some(0)),
        h(3, Some(1), Some(1)),
        h(4, Some(2), Some(0)),
        h(5, Some(3), None),
    ];
    let c = headline_children(&rows, 1).unwrap();
    assert_eq!(c.parent.id, 1);
    assert_eq!(c.parent.item_id, 10);
    let keys: Vec<i64> = c.children.iter().map(|g| g.0).collect();
    assert_eq!(keys, vec![1, 2, 3]);
    assert_eq!(ids(&c.children[0].1), vec![2, 3]);
    assert_eq!(ids(&c.children[1].1), vec![4]);
    assert_eq!(ids(&c.children[2].1), vec![5]);
}

#[test]
fn later_row_of_an_id_replaces_earlier_one() {
    let rows = vec![h(2, Some(1), Some(0)), h(1, None, None), h(2, Some(7), Some(5))];
    let c = headline_children(&rows, 2).unwrap();
    assert_eq!(c.parent.parent_id, Some(7));
    assert_eq!(c.parent.headline_pos, Some(5));
    assert_eq!(c.children.len(), 1);
    assert_eq!(c.children[0].0, 7);
    assert_eq!(c.children[0].1[0].headline_pos, Some(5));
}

#[test]
fn missing_headline_gives_nothing() {
    assert!(headline_children(&vec![h(2, Some(1), None)], 1).is_none());
    assert!(headline_children(&vec![], 1).is_none());
}
