//! Sets of names kept as strictly increasing lists of strings.
use vstd::prelude::*;
use crate::text::{
    lemma_seq_less_total, lemma_seq_less_transitive, seq_less, str_eq, str_less, string_views,
};

verus! {

/// The strings are in strictly increasing lexicographic order.
pub open spec fn sorted_strict(s: Seq<Seq<char>>) -> bool {
    forall|i: int, j: int| 0 <= i < j < s.len() ==> seq_less(#[trigger] s[i], #[trigger] s[j])
}

/// The set of the characters of the strings.
pub open spec fn name_set(v: Seq<String>) -> Set<Seq<char>> {
    string_views(v).to_set()
}

/// Inserts `x` into the sorted list `v` at its place; a name already
/// present is not inserted again.
pub fn insert_sorted(v: &mut Vec<String>, x: String)
    requires
        sorted_strict(string_views(old(v)@)),
    ensures
        sorted_strict(string_views(final(v)@)),
        name_set(final(v)@) == name_set(old(v)@).insert(x@),
{
    let ghost old_views = string_views(v@);
    let mut i: usize = 0;
    while i < v.len() && str_less(v[i].as_str(), x.as_str())
        invariant
            0 <= i <= v@.len(),
            old_views == string_views(v@),
            sorted_strict(old_views),
            forall|j: int| 0 <= j < i ==> seq_less(#[trigger] old_views[j], x@),
        decreases v@.len() - i,
    {
        i = i + 1;
    }
    if i < v.len() && str_eq(v[i].as_str(), x.as_str()) {
        proof {
            assert(old_views[i as int] == x@);
            assert(name_set(v@) =~= name_set(v@).insert(x@)) by {
                assert(old_views.contains(x@));
            }
        }
        return;
    }
    proof {
        if i < v@.len() {
            lemma_seq_less_total(old_views[i as int], x@);
        }
    }
    let ghost xv = x@;
    v.insert(i, x);
    proof {
        let nv = string_views(v@);
        assert(nv =~= old_views.subrange(0, i as int).push(xv) + old_views.subrange(i as int, old_views.len() as int));
        assert forall|a: int, b: int| 0 <= a < b < nv.len() implies seq_less(#[trigger] nv[a], #[trigger] nv[b]) by {
            if b < i {
                assert(nv[a] == old_views[a] && nv[b] == old_views[b]);
            } else if b == i {
                assert(nv[a] == old_views[a]);
            } else if a < i {
                assert(nv[a] == old_views[a] && nv[b] == old_views[b - 1]);
            } else if a == i {
                assert(nv[b] == old_views[b - 1]);
                if b - 1 > i {
                    lemma_seq_less_transitive(xv, old_views[i as int], old_views[b - 1]);
                }
            } else {
                assert(nv[a] == old_views[a - 1] && nv[b] == old_views[b - 1]);
            }
        }
        assert(name_set(v@) =~= name_set(old(v)@).insert(xv)) by {
            assert forall|s: Seq<char>| name_set(v@).contains(s) <==> name_set(old(v)@).insert(xv).contains(s) by {
                if name_set(v@).contains(s) {
                    let k = choose|k: int| 0 <= k < nv.len() && nv[k] == s;
                    if k < i {
                        assert(old_views[k] == s);
                    } else if k > i {
                        assert(old_views[k - 1] == s);
                    }
                }
                if name_set(old(v)@).contains(s) {
                    let k = choose|k: int| 0 <= k < old_views.len() && old_views[k] == s;
                    if k < i {
                        assert(nv[k] == s);
                    } else {
                        assert(nv[k + 1] == s);
                    }
                }
                if s == xv {
                    assert(nv[i as int] == s);
                }
            }
        }
    }
}

/// Inserts each name of `names` into the sorted list `v`.
pub fn insert_all_sorted(v: &mut Vec<String>, names: Vec<String>)
    requires
        sorted_strict(string_views(old(v)@)),
    ensures
        sorted_strict(string_views(final(v)@)),
        name_set(final(v)@) == name_set(old(v)@).union(name_set(names@)),
{
    let ghost start = name_set(v@);
    let mut i: usize = 0;
    while i < names.len()
        invariant
            0 <= i <= names@.len(),
            sorted_strict(string_views(v@)),
            name_set(v@) == start.union(name_set(names@.take(i as int))),
        decreases names@.len() - i,
    {
        let x = names[i].clone();
        insert_sorted(v, x);
        proof {
            assert(name_set(names@.take(i + 1)) =~= name_set(names@.take(i as int)).insert(names@[i as int]@)) by {
                let a = string_views(names@.take(i + 1));
                let b = string_views(names@.take(i as int));
                assert(a =~= b.push(names@[i as int]@));
                b.lemma_push_to_set_commute(names@[i as int]@);
            }
            assert(name_set(v@) =~= start.union(name_set(names@.take(i + 1))));
        }
        i = i + 1;
    }
    proof {
        assert(names@.take(names@.len() as int) =~= names@);
    }
}

} // verus!
