//! What the item list shows of items.
use vstd::prelude::*;
use crate::db::schema::{Item, ItemType, Task};
use crate::i18n::{i18n, i18n_spec, CurrentI18nBundle};
use crate::text::{nat_decimal, usize_to_string};

verus! {

/// Messages of a row of the item list.
#[derive(Clone, Debug, PartialEq, Eq, Structural)]
pub enum ItemRowMessage {
    /// The item of the given id was selected.
    Selected(i64),
    /// The paragraphs under a headline are folded or unfolded.
    ToggleFoldParagraph,
}

/// A row of the item list: a headline whose paragraphs may be folded.
#[derive(Debug, Clone, Copy, PartialEq, Eq, Structural)]
pub struct ItemRow {
    folded: bool,
}

impl View for ItemRow {
    type V = bool;

    /// Whether the paragraphs are folded.
    closed spec fn view(&self) -> bool {
        self.folded
    }
}

impl ItemRow {
    /// A row with its paragraphs unfolded.
    pub fn new() -> (r: Self)
        ensures
            r@ == false,
    {
        ItemRow { folded: false }
    }

    /// Folds unfolded paragraphs and unfolds folded ones.
    pub fn toggle_folded(&mut self)
        ensures
            final(self)@ == !old(self)@,
    {
        self.folded = !self.folded;
    }

    /// Whether the paragraphs are folded.
    pub fn is_folded(&self) -> (r: bool)
        ensures
            r == self@,
    {
        self.folded
    }
}

/// The number of unfinished tasks.
pub open spec fn unfinished_count(tasks: Seq<Task>) -> nat
    decreases tasks.len(),
{
    if tasks.len() == 0 {
        0
    } else if tasks.last().is_finished {
        unfinished_count(tasks.drop_last())
    } else {
        unfinished_count(tasks.drop_last()) + 1
    }
}

/// The progress shown for the tasks of an item: `-` when it has none, else
/// the number of unfinished tasks and the number of tasks, as `(u/t)`.
pub open spec fn task_status_text(tasks: Option<Seq<Task>>) -> Seq<char> {
    match tasks {
        None => "-"@,
        Some(t) => if t.len() == 0 {
            "-"@
        } else {
            seq!['('] + nat_decimal(unfinished_count(t)) + seq!['/'] + nat_decimal(t.len()) + seq![')']
        },
    }
}

/// The progress shown for tasks is `-` exactly when there are none (or no
/// list at all); for a non-empty list it is `(u/t)` with `u` the number of
/// tasks not finished and `t` the number of tasks, whatever how many of
/// them are finished.
pub proof fn law_task_status(tasks: Seq<Task>)
    ensures
        task_status_text(None) == "-"@,
        (task_status_text(Some(tasks)) == "-"@) == (tasks.len() == 0),
        tasks.len() > 0 ==> task_status_text(Some(tasks)) == seq!['('] + nat_decimal(
            tasks.filter(|t: Task| !t.is_finished).len(),
        ) + seq!['/'] + nat_decimal(tasks.len()) + seq![')'],
{
    reveal_strlit("-");
    lemma_unfinished_count(tasks);
    if tasks.len() > 0 {
        let text = task_status_text(Some(tasks));
        assert(text[0] == '(');
        assert("-"@[0] == '-');
    }
}

/// The number of unfinished tasks counts the tasks that are not finished.
proof fn lemma_unfinished_count(tasks: Seq<Task>)
    ensures
        unfinished_count(tasks) == tasks.filter(|t: Task| !t.is_finished).len(),
    decreases tasks.len(),
{
    reveal(Seq::filter);
    if tasks.len() > 0 {
        lemma_unfinished_count(tasks.drop_last());
    }
}

/// The progress shown for the tasks of an item.
pub fn task_progress_status_str(item: &Item) -> (r: String)
    ensures
        r@ == task_status_text(
            match item.tasks {
                Some(v) => Some(v@),
                None => None,
            },
        ),
{
    let (finished, total): (usize, usize) = match &item.tasks {
        None => (0, 0),
        Some(v) => {
            let mut count: usize = 0;
            let mut i: usize = 0;
            while i < v.len()
                invariant
                    0 <= i <= v@.len(),
                    count == unfinished_count(v@.take(i as int)),
                    count <= i,
                decreases v@.len() - i,
            {
                proof {
                    assert(v@.take(i + 1).drop_last() =~= v@.take(i as int));
                }
                if !v[i].is_finished {
                    count = count + 1;
                }
                i = i + 1;
            }
            proof {
                assert(v@.take(v@.len() as int) =~= v@);
            }
            (count, v.len())
        },
    };
    if total == 0 {
        "-".to_string()
    } else {
        let mut r = "(".to_string();
        r.append(usize_to_string(finished).as_str());
        r.append("/");
        r.append(usize_to_string(total).as_str());
        r.append(")");
        proof {
            reveal_strlit("(");
            reveal_strlit("/");
            reveal_strlit(")");
            assert(r@ =~= seq!['('] + nat_decimal(finished as nat) + seq!['/'] + nat_decimal(total as nat) + seq![')']);
        }
        r
    }
}

/// The tasks of an item, by their view.
pub open spec fn item_tasks(item: Item) -> Option<Seq<Task>> {
    match item.tasks {
        Some(v) => Some(v@),
        None => None,
    }
}

/// The second line of the row of an item: the word for tasks in the
/// language of `current`, `: ` and the progress of the tasks.
pub fn task_line(current: &CurrentI18nBundle, item: &Item) -> (r: String)
    ensures
        r@ == i18n_spec(current@, "task"@) + ": "@ + task_status_text(item_tasks(*item)),
{
    let mut r = i18n(current, "task");
    r.append(": ");
    r.append(task_progress_status_str(item).as_str());
    r
}

/// Whether the row of the item `item_id` is the focused one.
pub fn is_focused(item_id: i64, focused_item_id: Option<i64>) -> (r: bool)
    ensures
        r == (focused_item_id == Some(item_id)),
{
    match focused_item_id {
        Some(f) => f == item_id,
        None => false,
    }
}

/// The paragraph items among `items`, each as its id and whether it is the
/// focused one, in order.
pub open spec fn paragraph_rows_of(items: Seq<Item>, focused_item_id: Option<i64>) -> Seq<(i64, bool)>
    decreases items.len(),
{
    if items.len() == 0 {
        Seq::empty()
    } else {
        let prev = paragraph_rows_of(items.drop_last(), focused_item_id);
        match items.last().item_type {
            ItemType::Paragraph(_) => prev.push((items.last().id, focused_item_id == Some(items.last().id))),
            ItemType::Headline(_) => prev,
        }
    }
}

/// The paragraph rows are one per paragraph item, in order: as many rows
/// as paragraph items, each the id of a paragraph item, marked focused
/// exactly when it is the focused item; headline items give no row.
pub proof fn law_paragraph_rows(items: Seq<Item>, focused_item_id: Option<i64>)
    ensures
        paragraph_rows_of(items, focused_item_id).len() == items.filter(|it: Item| it.item_type is Paragraph).len(),
        forall|m: int| 0 <= m < paragraph_rows_of(items, focused_item_id).len() ==> {
            let row = #[trigger] paragraph_rows_of(items, focused_item_id)[m];
            &&& exists|i: int| 0 <= i < items.len() && items[i].item_type is Paragraph && items[i].id == row.0
            &&& row.1 == (focused_item_id == Some(row.0))
        },
    decreases items.len(),
{
    reveal(Seq::filter);
    if items.len() > 0 {
        let prev = items.drop_last();
        law_paragraph_rows(prev, focused_item_id);
        let rows = paragraph_rows_of(items, focused_item_id);
        let pr = paragraph_rows_of(prev, focused_item_id);
        assert forall|m: int| 0 <= m < rows.len() implies {
            let row = #[trigger] rows[m];
            &&& exists|i: int| 0 <= i < items.len() && items[i].item_type is Paragraph && items[i].id == row.0
            &&& row.1 == (focused_item_id == Some(row.0))
        } by {
            if m < pr.len() {
                assert(rows[m] == pr[m]);
                let i = choose|i: int| 0 <= i < prev.len() && prev[i].item_type is Paragraph && prev[i].id == pr[m].0;
                assert(items[i] == prev[i]);
            } else {
                assert(items[items.len() - 1] == items.last());
            }
        }
    }
}

impl ItemRow {
    /// The paragraph rows shown under the headline, each as the id of its
    /// item and whether it is the focused one: none while the row is folded
    /// or has no paragraphs, otherwise one per paragraph item of
    /// `paragraphs`, in order.
    pub fn paragraph_rows(&self, paragraphs: Option<&Vec<Item>>, focused_item_id: Option<i64>) -> (r: Vec<(i64, bool)>)
        ensures
            r@ == match paragraphs {
                Some(v) => if self@ {
                    Seq::empty()
                } else {
                    paragraph_rows_of(v@, focused_item_id)
                },
                None => Seq::<(i64, bool)>::empty(),
            },
    {
        let mut r: Vec<(i64, bool)> = Vec::new();
        if self.folded {
            return r;
        }
        match paragraphs {
            None => r,
            Some(v) => {
                let mut i: usize = 0;
                while i < v.len()
                    invariant
                        0 <= i <= v@.len(),
                        r@ == paragraph_rows_of(v@.take(i as int), focused_item_id),
                    decreases v@.len() - i,
                {
                    proof {
                        assert(v@.take(i + 1).drop_last() =~= v@.take(i as int));
                    }
                    match &v[i].item_type {
                        ItemType::Paragraph(_) => {
                            r.push((v[i].id, is_focused(v[i].id, focused_item_id)));
                        },
                        ItemType::Headline(_) => {},
                    }
                    i = i + 1;
                }
                proof {
                    assert(v@.take(v@.len() as int) =~= v@);
                }
                r
            },
        }
    }
}

/// The families of icon fonts.
#[derive(Debug, Clone, Copy, PartialEq, Eq, Structural)]
pub enum IconFamily {
    MaterialSymbolsOutlined,
}

impl IconFamily {
    /// The name of the font of the family.
    pub fn font_name(&self) -> (r: &'static str)
        ensures
            r@ == crate::font::MATERIAL_SYMBOLS_OUTLINED_NAME@,
    {
        match self {
            IconFamily::MaterialSymbolsOutlined => crate::font::MATERIAL_SYMBOLS_OUTLINED_NAME,
        }
    }
}

} // verus!
