//! What the queries make of the rows they read: the descendants of a
//! headline grouped by parent.
use vstd::prelude::*;
use crate::db::schema::{Headline, HeadlineChildren};

verus! {

/// The columns of a headline row: id, item id, parent id and position.
pub type HeadlineRow = (i64, i64, Option<i64>, Option<i64>);

/// The columns of a headline.
pub open spec fn row_of(h: Headline) -> HeadlineRow {
    (h.id, h.item_id, h.parent_id, h.headline_pos)
}

/// The columns of each headline.
pub open spec fn rows_view(s: Seq<Headline>) -> Seq<HeadlineRow> {
    s.map_values(|h: Headline| row_of(h))
}

/// Whether some row of `s` has the id `id`.
pub open spec fn has_id(s: Seq<HeadlineRow>, id: i64) -> bool {
    exists|j: int| 0 <= j < s.len() && s[j].0 == id
}

/// The rows among the first `k` of `s` that no later row of `s` shares an
/// id with, in order.
pub open spec fn kept_upto(s: Seq<HeadlineRow>, k: int) -> Seq<HeadlineRow>
    decreases k,
{
    if k <= 0 {
        Seq::empty()
    } else {
        let prev = kept_upto(s, k - 1);
        if has_id(s.subrange(k, s.len() as int), s[k - 1].0) {
            prev
        } else {
            prev.push(s[k - 1])
        }
    }
}

/// The rows keyed by id: the last row of each id, in the order of those
/// rows.
pub open spec fn last_by_id(s: Seq<HeadlineRow>) -> Seq<HeadlineRow> {
    kept_upto(s, s.len() as int)
}

/// The last row of `s` with the id `id`.
pub open spec fn last_with_id(s: Seq<HeadlineRow>, id: i64) -> Option<HeadlineRow>
    decreases s.len(),
{
    if s.len() == 0 {
        None
    } else if s.last().0 == id {
        Some(s.last())
    } else {
        last_with_id(s.drop_last(), id)
    }
}

/// The rows of `k` whose parent is `p`, in order.
pub open spec fn with_parent(k: Seq<HeadlineRow>, p: i64) -> Seq<HeadlineRow>
    decreases k.len(),
{
    if k.len() == 0 {
        Seq::empty()
    } else {
        let prev = with_parent(k.drop_last(), p);
        if k.last().2 == Some(p) {
            prev.push(k.last())
        } else {
            prev
        }
    }
}

/// The parents named by the rows of `k`, each once, in the order they are
/// first named.
pub open spec fn parent_keys(k: Seq<HeadlineRow>) -> Seq<i64>
    decreases k.len(),
{
    if k.len() == 0 {
        Seq::empty()
    } else {
        let prev = parent_keys(k.drop_last());
        match k.last().2 {
            Some(p) => if prev.contains(p) {
                prev
            } else {
                prev.push(p)
            },
            None => prev,
        }
    }
}

/// A parent that no row names has no rows.
proof fn lemma_unnamed_parent(k: Seq<HeadlineRow>, p: i64)
    requires
        !parent_keys(k).contains(p),
    ensures
        with_parent(k, p) == Seq::<HeadlineRow>::empty(),
    decreases k.len(),
{
    if k.len() > 0 {
        let prev = parent_keys(k.drop_last());
        if prev.contains(p) {
            let j = choose|j: int| 0 <= j < prev.len() && prev[j] == p;
            match k.last().2 {
                Some(q) => if !prev.contains(q) {
                    assert(parent_keys(k)[j] == p);
                } else {
                    assert(parent_keys(k)[j] == p);
                },
                None => {
                    assert(parent_keys(k)[j] == p);
                },
            }
        }
        lemma_unnamed_parent(k.drop_last(), p);
        if k.last().2 == Some(p) {
            assert(parent_keys(k).contains(p)) by {
                if !prev.contains(p) {
                    assert(parent_keys(k).last() == p);
                }
            }
        }
    }
}

/// The parents named by rows are named once each.
proof fn lemma_parent_keys_unique(k: Seq<HeadlineRow>)
    ensures
        parent_keys(k).no_duplicates(),
    decreases k.len(),
{
    if k.len() > 0 {
        lemma_parent_keys_unique(k.drop_last());
    }
}

/// The groups are by parent: every row of the group of `p` names `p` as its
/// parent, and every parent that a row names has a group.
pub proof fn law_groups_by_parent(k: Seq<HeadlineRow>, p: i64)
    ensures
        forall|m: int| 0 <= m < with_parent(k, p).len() ==> (#[trigger] with_parent(k, p)[m]).2 == Some(p),
        (exists|i: int| 0 <= i < k.len() && k[i].2 == Some(p)) ==> parent_keys(k).contains(p),
    decreases k.len(),
{
    if k.len() > 0 {
        let prev = k.drop_last();
        law_groups_by_parent(prev, p);
        let w = with_parent(k, p);
        assert forall|m: int| 0 <= m < w.len() implies (#[trigger] w[m]).2 == Some(p) by {
            if m < with_parent(prev, p).len() {
                assert(w[m] == with_parent(prev, p)[m]);
            }
        }
        if exists|i: int| 0 <= i < k.len() && k[i].2 == Some(p) {
            let i = choose|i: int| 0 <= i < k.len() && k[i].2 == Some(p);
            let pk = parent_keys(prev);
            if i < k.len() - 1 {
                assert(prev[i].2 == Some(p));
                let j = choose|j: int| 0 <= j < pk.len() && pk[j] == p;
                assert(parent_keys(k)[j] == p);
            } else if !pk.contains(p) {
                assert(parent_keys(k).last() == p);
            } else {
                let j = choose|j: int| 0 <= j < pk.len() && pk[j] == p;
                assert(parent_keys(k)[j] == p);
            }
        }
    }
}

/// Every row that names `p` as its parent is in the group of `p`, and the
/// groups together hold each row that names a parent once: the group of
/// `p` holds as many rows as name `p`.
pub proof fn law_rows_in_their_group(k: Seq<HeadlineRow>, p: i64)
    ensures
        forall|i: int| 0 <= i < k.len() && k[i].2 == Some(p) ==> with_parent(k, p).contains(#[trigger] k[i]),
        with_parent(k, p).len() == k.filter(|r: HeadlineRow| r.2 == Some(p)).len(),
    decreases k.len(),
{
    reveal(Seq::filter);
    if k.len() > 0 {
        let prev = k.drop_last();
        law_rows_in_their_group(prev, p);
        let w = with_parent(k, p);
        assert forall|i: int| 0 <= i < k.len() && k[i].2 == Some(p) implies w.contains(#[trigger] k[i]) by {
            if i < k.len() - 1 {
                assert(prev[i] == k[i]);
                let j = choose|j: int| 0 <= j < with_parent(prev, p).len() && with_parent(prev, p)[j] == prev[i];
                assert(w[j] == k[i]);
            } else {
                assert(w.last() == k[i]);
            }
        }
    }
}

/// Whether row `i` of `s` is the last row of its id.
pub open spec fn last_of_id(s: Seq<HeadlineRow>, i: int) -> bool {
    !has_id(s.subrange(i + 1, s.len() as int), s[i].0)
}

proof fn lemma_kept_upto(s: Seq<HeadlineRow>, k: int)
    requires
        0 <= k <= s.len(),
    ensures
        forall|m: int| 0 <= m < kept_upto(s, k).len() ==> exists|i: int|
            0 <= i < k && s[i] == #[trigger] kept_upto(s, k)[m] && last_of_id(s, i),
        forall|i: int| 0 <= i < k && last_of_id(s, i) ==> kept_upto(s, k).contains(#[trigger] s[i]),
    decreases k,
{
    if k > 0 {
        lemma_kept_upto(s, k - 1);
        let prev = kept_upto(s, k - 1);
        let cur = kept_upto(s, k);
        assert forall|m: int| 0 <= m < cur.len() implies exists|i: int|
            0 <= i < k && s[i] == #[trigger] cur[m] && last_of_id(s, i) by {
            if m < prev.len() {
                assert(cur[m] == prev[m]);
            } else {
                assert(cur[m] == s[k - 1]);
                assert(last_of_id(s, k - 1));
            }
        }
        assert forall|i: int| 0 <= i < k && last_of_id(s, i) implies cur.contains(#[trigger] s[i]) by {
            if i < k - 1 {
                let m = choose|m: int| 0 <= m < prev.len() && prev[m] == s[i];
                assert(cur[m] == s[i]);
            } else {
                assert(cur[cur.len() - 1] == s[i]);
            }
        }
    }
}

proof fn lemma_last_of_id_exists(s: Seq<HeadlineRow>, i: int)
    requires
        0 <= i < s.len(),
    ensures
        exists|j: int| i <= j < s.len() && s[j].0 == s[i].0 && last_of_id(s, j),
    decreases s.len() - i,
{
    if !last_of_id(s, i) {
        let t = s.subrange(i + 1, s.len() as int);
        let m = choose|m: int| 0 <= m < t.len() && t[m].0 == s[i].0;
        assert(s[i + 1 + m] == t[m]);
        lemma_last_of_id_exists(s, i + 1 + m);
    }
}

/// Keying rows by id keeps, for each id that occurs, exactly its last row:
/// every kept row is the last row of its id, every such row is kept, and an
/// id has a kept row if and only if some row has it.
pub proof fn law_last_by_id(s: Seq<HeadlineRow>, i: int, id: i64)
    ensures
        forall|m: int| 0 <= m < last_by_id(s).len() ==> exists|j: int|
            0 <= j < s.len() && s[j] == #[trigger] last_by_id(s)[m] && last_of_id(s, j),
        0 <= i < s.len() && last_of_id(s, i) ==> last_by_id(s).contains(s[i]),
        has_id(last_by_id(s), id) == has_id(s, id),
{
    lemma_kept_upto(s, s.len() as int);
    let kept = last_by_id(s);
    if has_id(s, id) {
        let j = choose|j: int| 0 <= j < s.len() && s[j].0 == id;
        lemma_last_of_id_exists(s, j);
        let l = choose|l: int| j <= l < s.len() && s[l].0 == s[j].0 && last_of_id(s, l);
        let m = choose|m: int| 0 <= m < kept.len() && kept[m] == s[l];
        assert(kept[m].0 == id);
    }
    if has_id(kept, id) {
        let m = choose|m: int| 0 <= m < kept.len() && kept[m].0 == id;
        let j = choose|j: int| 0 <= j < s.len() && s[j] == #[trigger] kept[m] && last_of_id(s, j);
        assert(s[j].0 == id);
    }
}

/// A copy of the columns of a headline, without paragraphs.
fn copy_row(h: &Headline) -> (r: Headline)
    ensures
        row_of(r) == row_of(*h),
        r.paragraph is None,
{
    Headline { id: h.id, item_id: h.item_id, parent_id: h.parent_id, headline_pos: h.headline_pos, paragraph: None }
}

/// Whether the rows after position `i` hold one with the id of row `i`.
fn later_has_id(rows: &Vec<Headline>, i: usize) -> (r: bool)
    requires
        i < rows.len(),
    ensures
        r == has_id(rows_view(rows@).subrange(i + 1, rows@.len() as int), rows@[i as int].id),
{
    let ghost s = rows_view(rows@).subrange(i + 1, rows@.len() as int);
    let id = rows[i].id;
    let mut j: usize = i + 1;
    while j < rows.len()
        invariant
            i < j <= rows@.len(),
            s == rows_view(rows@).subrange(i + 1, rows@.len() as int),
            id == rows@[i as int].id,
            forall|m: int| 0 <= m < j - i - 1 ==> s[m].0 != id,
        decreases rows@.len() - j,
    {
        if rows[j].id == id {
            proof {
                assert(s[j - i - 1].0 == id);
            }
            return true;
        }
        j = j + 1;
    }
    false
}

/// A copy of the headlines keyed by id: the last row of each id, in the
/// order of those rows, without paragraphs.
fn rows_by_id(rows: &Vec<Headline>) -> (r: Vec<Headline>)
    ensures
        rows_view(r@) == last_by_id(rows_view(rows@)),
        forall|i: int| 0 <= i < r@.len() ==> (#[trigger] r@[i]).paragraph is None,
{
    let ghost s = rows_view(rows@);
    let mut out: Vec<Headline> = Vec::new();
    let mut i: usize = 0;
    while i < rows.len()
        invariant
            0 <= i <= rows@.len(),
            s == rows_view(rows@),
            rows_view(out@) == kept_upto(s, i as int),
            forall|m: int| 0 <= m < out@.len() ==> (#[trigger] out@[m]).paragraph is None,
        decreases rows@.len() - i,
    {
        if !later_has_id(rows, i) {
            let ghost before = rows_view(out@);
            out.push(copy_row(&rows[i]));
            proof {
                assert(rows_view(out@) =~= before.push(s[i as int]));
            }
        }
        i = i + 1;
    }
    out
}

/// A copy of the last headline with the id `id`, without paragraphs.
fn find_last(rows: &Vec<Headline>, id: i64) -> (r: Option<Headline>)
    ensures
        match r {
            Some(h) => last_with_id(rows_view(rows@), id) == Some(row_of(h)) && h.paragraph is None,
            None => last_with_id(rows_view(rows@), id) is None,
        },
{
    let ghost s = rows_view(rows@);
    let mut found: Option<Headline> = None;
    let mut i: usize = 0;
    while i < rows.len()
        invariant
            0 <= i <= rows@.len(),
            s == rows_view(rows@),
            match found {
                Some(h) => last_with_id(s.take(i as int), id) == Some(row_of(h)) && h.paragraph is None,
                None => last_with_id(s.take(i as int), id) is None,
            },
        decreases rows@.len() - i,
    {
        proof {
            assert(s.take(i + 1).drop_last() =~= s.take(i as int));
        }
        if rows[i].id == id {
            found = Some(copy_row(&rows[i]));
        }
        i = i + 1;
    }
    proof {
        assert(s.take(rows@.len() as int) =~= s);
    }
    found
}

/// The position of the group of the parent `p`.
fn find_group(groups: &Vec<(i64, Vec<Headline>)>, p: i64) -> (r: Option<usize>)
    ensures
        match r {
            Some(g) => g < groups@.len() && groups@[g as int].0 == p,
            None => forall|g: int| 0 <= g < groups@.len() ==> groups@[g].0 != p,
        },
{
    let mut g: usize = 0;
    while g < groups.len()
        invariant
            0 <= g <= groups@.len(),
            forall|m: int| 0 <= m < g ==> groups@[m].0 != p,
        decreases groups@.len() - g,
    {
        if groups[g].0 == p {
            return Some(g);
        }
        g = g + 1;
    }
    None
}

/// The groups of the headlines `kept` by parent: one group per parent named,
/// in the order the parents are first named, each holding the headlines of
/// that parent in order.
pub open spec fn grouped(kept: Seq<HeadlineRow>, groups: Seq<(i64, Vec<Headline>)>) -> bool {
    &&& groups.len() == parent_keys(kept).len()
    &&& forall|g: int| 0 <= g < groups.len() ==> {
        &&& (#[trigger] groups[g]).0 == parent_keys(kept)[g]
        &&& rows_view(groups[g].1@) == with_parent(kept, parent_keys(kept)[g])
        &&& forall|m: int| 0 <= m < groups[g].1@.len() ==> (#[trigger] groups[g].1@[m]).paragraph is None
    }
}

/// Groups the headlines by parent.
fn group_by_parent(kept: &Vec<Headline>) -> (r: Vec<(i64, Vec<Headline>)>)
    ensures
        grouped(rows_view(kept@), r@),
{
    let ghost k = rows_view(kept@);
    let mut groups: Vec<(i64, Vec<Headline>)> = Vec::new();
    let mut i: usize = 0;
    while i < kept.len()
        invariant
            0 <= i <= kept@.len(),
            k == rows_view(kept@),
            grouped(k.take(i as int), groups@),
        decreases kept@.len() - i,
    {
        let ghost kt = k.take(i as int);
        let ghost kn = k.take(i + 1);
        proof {
            assert(kn.drop_last() =~= kt);
            assert(kn.last() == k[i as int]);
            lemma_parent_keys_unique(kt);
        }
        match kept[i].parent_id {
            None => {
                proof {
                    assert forall|q: i64| with_parent(kn, q) == with_parent(kt, q) by {}
                }
            },
            Some(p) => {
                let c = copy_row(&kept[i]);
                match find_group(&groups, p) {
                    Some(g) => {
                        let ghost before = groups@;
                        proof {
                            assert(parent_keys(kt).contains(p)) by {
                                assert(parent_keys(kt)[g as int] == p);
                            }
                            assert(parent_keys(kn) == parent_keys(kt));
                        }
                        let (key, mut members) = groups.remove(g);
                        let ghost old_members = members@;
                        members.push(c);
                        groups.insert(g, (key, members));
                        proof {
                            assert(rows_view(groups@[g as int].1@) =~= rows_view(old_members).push(k[i as int]));
                            assert forall|h: int| 0 <= h < groups@.len() implies {
                                &&& (#[trigger] groups@[h]).0 == parent_keys(kn)[h]
                                &&& rows_view(groups@[h].1@) == with_parent(kn, parent_keys(kn)[h])
                                &&& forall|m: int| 0 <= m < groups@[h].1@.len() ==> (#[trigger] groups@[h].1@[m]).paragraph is None
                            } by {
                                if h != g {
                                    assert(groups@[h] == before[h]);
                                    assert(parent_keys(kt)[h] != p) by {
                                        assert(parent_keys(kt)[g as int] == p);
                                    }
                                } else {
                                    assert forall|m: int| 0 <= m < groups@[h].1@.len() implies (#[trigger] groups@[h].1@[m]).paragraph is None by {
                                        if m < old_members.len() {
                                            assert(groups@[h].1@[m] == before[h].1@[m]);
                                        }
                                    }
                                }
                            }
                        }
                    },
                    None => {
                        proof {
                            assert(!parent_keys(kt).contains(p)) by {
                                if parent_keys(kt).contains(p) {
                                    let j = choose|j: int| 0 <= j < parent_keys(kt).len() && parent_keys(kt)[j] == p;
                                    assert(groups@[j].0 == p);
                                }
                            }
                            lemma_unnamed_parent(kt, p);
                            assert(parent_keys(kn) == parent_keys(kt).push(p));
                        }
                        let ghost before = groups@;
                        let mut members: Vec<Headline> = Vec::new();
                        members.push(c);
                        groups.push((p, members));
                        proof {
                            assert(rows_view(groups@[before.len() as int].1@) =~= seq![k[i as int]]);
                            assert(with_parent(kn, p) =~= seq![k[i as int]]);
                            assert forall|h: int| 0 <= h < groups@.len() implies {
                                &&& (#[trigger] groups@[h]).0 == parent_keys(kn)[h]
                                &&& rows_view(groups@[h].1@) == with_parent(kn, parent_keys(kn)[h])
                                &&& forall|m: int| 0 <= m < groups@[h].1@.len() ==> (#[trigger] groups@[h].1@[m]).paragraph is None
                            } by {
                                if h < before.len() {
                                    assert(groups@[h] == before[h]);
                                    assert(parent_keys(kt)[h] != p);
                                }
                            }
                        }
                    },
                }
            },
        }
        i = i + 1;
    }
    proof {
        assert(k.take(kept@.len() as int) =~= k);
    }
    groups
}

/// The descendants of the headline `headline_id` read by the recursive
/// query, grouped by parent. The rows are keyed by id, a later row of an id
/// replacing an earlier one; `None` when no row has the id `headline_id`.
/// Otherwise the parent is the row of that id, and each parent named by a
/// kept row has one group, in the order the parents are first named,
/// holding the kept rows that name it in order. The headlines returned
/// carry no paragraphs, as rows read from the database never do.
pub fn headline_children(rows: &Vec<Headline>, headline_id: i64) -> (r: Option<HeadlineChildren>)
    ensures
        match r {
            None => last_with_id(rows_view(rows@), headline_id) is None,
            Some(c) => {
                &&& last_with_id(rows_view(rows@), headline_id) == Some(row_of(c.parent))
                &&& c.parent.paragraph is None
                &&& grouped(last_by_id(rows_view(rows@)), c.children@)
            },
        },
{
    let parent = match find_last(rows, headline_id) {
        Some(p) => p,
        None => return None,
    };
    let kept = rows_by_id(rows);
    let children = group_by_parent(&kept);
    Some(HeadlineChildren { parent, children })
}

} // verus!
