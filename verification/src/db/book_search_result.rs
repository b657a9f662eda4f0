//! Results of book searches and the records they are registered as.
use vstd::prelude::*;
use crate::db::cushion_types::{array_strings, OptionString, ScriptValue, VecString};
use crate::db::schema::{
    clone_opt_string, Bibliography, BibliographyAuthor, Publisher, RelBibliographyAuthor,
    UtcTimestamp,
};
use crate::settings::value::opt_view;
use crate::text::{str_eq, string_views};

verus! {

/// One result of a book search.
#[derive(Default, Clone, Debug, PartialEq)]
pub struct BookSearchResult {
    pub isbn: Option<String>,
    pub url: Option<String>,
    pub title: String,
    pub detail: Option<String>,
    pub authors: Vec<String>,
    pub publisher: Option<String>,
    pub publication_date: Option<String>,
}

/// The publisher names of the results, in order, skipping results without
/// a publisher.
pub open spec fn bsr_publishers(s: Seq<BookSearchResult>) -> Seq<Seq<char>>
    decreases s.len(),
{
    if s.len() == 0 {
        Seq::empty()
    } else {
        match s.last().publisher {
            Some(p) => bsr_publishers(s.drop_last()).push(p@),
            None => bsr_publishers(s.drop_last()),
        }
    }
}

/// The author names of the results, in order.
pub open spec fn bsr_authors(s: Seq<BookSearchResult>) -> Seq<Seq<char>>
    decreases s.len(),
{
    if s.len() == 0 {
        Seq::empty()
    } else {
        bsr_authors(s.drop_last()) + string_views(s.last().authors@)
    }
}

/// The last publisher named `name`, as a map keyed by name built from the
/// list keeps it.
pub open spec fn publisher_named(ps: Seq<Publisher>, name: Seq<char>) -> Option<Publisher>
    decreases ps.len(),
{
    if ps.len() == 0 {
        None
    } else if ps.last().name@ == name {
        Some(ps.last())
    } else {
        publisher_named(ps.drop_last(), name)
    }
}

/// The last author named `name`, as a map keyed by name built from the list
/// keeps it.
pub open spec fn author_named(authors: Seq<BibliographyAuthor>, name: Seq<char>) -> Option<BibliographyAuthor>
    decreases authors.len(),
{
    if authors.len() == 0 {
        None
    } else if authors.last().name@ == name {
        Some(authors.last())
    } else {
        author_named(authors.drop_last(), name)
    }
}

/// The links of the bibliography entry `bid` to the authors named `names`
/// that are registered, as pairs of entry id and author id.
pub open spec fn author_links(bid: i64, names: Seq<Seq<char>>, authors: Seq<BibliographyAuthor>) -> Seq<(i64, i64)>
    decreases names.len(),
{
    if names.len() == 0 {
        Seq::empty()
    } else {
        let prev = author_links(bid, names.drop_last(), authors);
        match author_named(authors, names.last()) {
            Some(a) => prev.push((bid, a.id)),
            None => prev,
        }
    }
}

/// The links of the bibliography entries to the registered authors of the
/// results they were registered from.
pub open spec fn bibliography_links(
    bsr: Seq<BookSearchResult>,
    bibs: Seq<Bibliography>,
    authors: Seq<BibliographyAuthor>,
) -> Seq<(i64, i64)>
    decreases bibs.len(),
{
    if bibs.len() == 0 {
        Seq::empty()
    } else {
        let prev = bibliography_links(bsr, bibs.drop_last(), authors);
        match bibs.last().tmp_registration_id {
            Some(t) => prev + author_links(bibs.last().id, string_views(bsr[t as int].authors@), authors),
            None => prev,
        }
    }
}

/// The pairs of entry id and author id of the links.
pub open spec fn link_pairs(r: Seq<RelBibliographyAuthor>) -> Seq<(i64, i64)> {
    r.map_values(|l: RelBibliographyAuthor| (l.bibliography_id, l.bibliography_author_id))
}

/// The bibliography entry registered from the result `s` at position `i`,
/// with the publisher found by name.
pub open spec fn bibliography_of(b: Bibliography, s: BookSearchResult, i: int, publishers: Seq<Publisher>) -> bool {
    &&& b.id == 0
    &&& b.isbn == s.isbn
    &&& b.url == s.url
    &&& b.title == s.title
    &&& b.detail == s.detail
    &&& b.authors@.len() == 0
    &&& b.publisher == match s.publisher {
        Some(n) => publisher_named(publishers, n@),
        None => None,
    }
    &&& b.publication_date == s.publication_date
    &&& b.created_at == UtcTimestamp { secs: 0, nanos: 0 }
    &&& b.updated_at == UtcTimestamp { secs: 0, nanos: 0 }
    &&& b.tmp_registration_id == Some(i as i64)
}

/// A bibliography entry registered from a search result keeps what the
/// result says of the book: its isbn, url, title, detail and publication
/// date are those of the result; it is not yet registered (id 0) and
/// remembers the position of its result; its publisher is a registered one
/// of the name the result gives (none when the result names none); and it
/// has no authors yet.
pub proof fn law_bibliography_keeps_result(b: Bibliography, s: BookSearchResult, i: int, publishers: Seq<Publisher>)
    requires
        bibliography_of(b, s, i, publishers),
    ensures
        b.isbn == s.isbn,
        b.url == s.url,
        b.title == s.title,
        b.detail == s.detail,
        b.publication_date == s.publication_date,
        b.id == 0,
        b.tmp_registration_id == Some(i as i64),
        b.authors@.len() == 0,
        s.publisher is None ==> b.publisher is None,
        b.publisher matches Some(p) ==> s.publisher matches Some(n) && p.name@ == n@ && publishers.contains(p),
{
    lemma_publisher_named(publishers, match s.publisher { Some(n) => n@, None => Seq::empty() });
}

proof fn lemma_publisher_named(ps: Seq<Publisher>, name: Seq<char>)
    ensures
        publisher_named(ps, name) matches Some(p) ==> p.name@ == name && ps.contains(p),
    decreases ps.len(),
{
    if ps.len() > 0 && ps.last().name@ != name {
        lemma_publisher_named(ps.drop_last(), name);
        if publisher_named(ps.drop_last(), name) is Some {
            let p = publisher_named(ps.drop_last(), name)->0;
            let j = choose|j: int| 0 <= j < ps.drop_last().len() && ps.drop_last()[j] == p;
            assert(ps[j] == p);
        }
    } else if ps.len() > 0 {
        assert(ps[ps.len() - 1] == ps.last());
    }
}

/// The publishers registered from search results are one per result that
/// names a publisher, in order: the list has as many names as such results,
/// and holds exactly the names the results give.
pub proof fn law_publishers_of_results(s: Seq<BookSearchResult>, n: Seq<char>)
    ensures
        bsr_publishers(s).len() == s.filter(|r: BookSearchResult| r.publisher is Some).len(),
        bsr_publishers(s).contains(n) == exists|i: int| 0 <= i < s.len() && opt_view((#[trigger] s[i]).publisher) == Some(n),
    decreases s.len(),
{
    reveal(Seq::filter);
    if s.len() > 0 {
        let prev = s.drop_last();
        law_publishers_of_results(prev, n);
        let bp = bsr_publishers(prev);
        if exists|i: int| 0 <= i < s.len() && opt_view((#[trigger] s[i]).publisher) == Some(n) {
            let i = choose|i: int| 0 <= i < s.len() && opt_view((#[trigger] s[i]).publisher) == Some(n);
            if i < s.len() - 1 {
                assert(prev[i] == s[i]);
                let j = choose|j: int| 0 <= j < bp.len() && bp[j] == n;
                assert(bsr_publishers(s)[j] == n);
            } else {
                assert(s.last() == s[i]);
                assert(bsr_publishers(s).last() == n);
            }
        }
        if bsr_publishers(s).contains(n) {
            let j = choose|j: int| 0 <= j < bsr_publishers(s).len() && bsr_publishers(s)[j] == n;
            if j < bp.len() {
                assert(bp[j] == n);
                let i = choose|i: int| 0 <= i < prev.len() && opt_view((#[trigger] prev[i]).publisher) == Some(n);
                assert(s[i] == prev[i]);
            } else {
                assert(s[s.len() - 1] == s.last());
            }
        }
    }
}

/// The authors registered from search results are the author names of the
/// results, result after result: the list holds exactly the names the
/// results give.
pub proof fn law_authors_of_results(s: Seq<BookSearchResult>, n: Seq<char>)
    ensures
        bsr_authors(s).contains(n) == exists|i: int, j: int|
            0 <= i < s.len() && 0 <= j < s[i].authors@.len() && (#[trigger] s[i].authors@[j])@ == n,
    decreases s.len(),
{
    if s.len() > 0 {
        let prev = s.drop_last();
        law_authors_of_results(prev, n);
        let ba = bsr_authors(prev);
        let la = string_views(s.last().authors@);
        assert(bsr_authors(s) == ba + la);
        if exists|i: int, j: int| 0 <= i < s.len() && 0 <= j < s[i].authors@.len() && (#[trigger] s[i].authors@[j])@ == n {
            let (i, j) = choose|i: int, j: int| 0 <= i < s.len() && 0 <= j < s[i].authors@.len() && (#[trigger] s[i].authors@[j])@ == n;
            if i < s.len() - 1 {
                assert(prev[i] == s[i]);
                let k = choose|k: int| 0 <= k < ba.len() && ba[k] == n;
                assert((ba + la)[k] == n);
            } else {
                assert(s.last() == s[i]);
                assert((ba + la)[ba.len() + j] == n);
            }
        }
        if bsr_authors(s).contains(n) {
            let k = choose|k: int| 0 <= k < (ba + la).len() && (ba + la)[k] == n;
            if k < ba.len() {
                assert(ba[k] == n);
                let (i, j) = choose|i: int, j: int| 0 <= i < prev.len() && 0 <= j < prev[i].authors@.len() && (#[trigger] prev[i].authors@[j])@ == n;
                assert(s[i] == prev[i]);
            } else {
                let j = k - ba.len();
                assert(la[j] == n);
                assert(s[s.len() - 1] == s.last());
            }
        }
    }
}

/// A copy of a list of strings.
fn clone_strings(v: &Vec<String>) -> (r: Vec<String>)
    ensures
        r@ == v@,
{
    crate::settings::clone_strings(v)
}

impl BookSearchResult {
    /// A result built from the values a mapping script hands over: strings
    /// where strings are given (no value otherwise) and the non-empty strings
    /// of the author array.
    pub fn new(
        isbn: ScriptValue,
        url: ScriptValue,
        title: String,
        detail: ScriptValue,
        authors: ScriptValue,
        publisher: ScriptValue,
        publication_date: ScriptValue,
    ) -> (r: Self)
        ensures
            opt_view(r.isbn) == script_text(isbn),
            opt_view(r.url) == script_text(url),
            r.title == title,
            opt_view(r.detail) == script_text(detail),
            string_views(r.authors@) == match authors {
                ScriptValue::List(items) => array_strings(items@),
                _ => Seq::<Seq<char>>::empty(),
            },
            opt_view(r.publisher) == script_text(publisher),
            opt_view(r.publication_date) == script_text(publication_date),
    {
        BookSearchResult {
            isbn: OptionString::from_value(isbn).into_option(),
            url: OptionString::from_value(url).into_option(),
            title,
            detail: OptionString::from_value(detail).into_option(),
            authors: VecString::from_value(authors).into_vec(),
            publisher: OptionString::from_value(publisher).into_option(),
            publication_date: OptionString::from_value(publication_date).into_option(),
        }
    }

    /// The result shown for the example configuration of a book search.
    pub fn example() -> (r: Self)
        ensures
            opt_view(r.isbn) == Some("000-0-00-000000-0"@),
            r.url is None,
            r.title@ == "The Book of Example"@,
            opt_view(r.detail) == Some(
                "This book is an example! This Book Search API configuration is for illustrative purposes only and cannot be used."@,
            ),
            string_views(r.authors@) == seq!["Hanako T"@, "Taro T"@],
            opt_view(r.publisher) == Some("FooBar Printing Exm"@),
            opt_view(r.publication_date) == Some("0000-01-01"@),
    {
        let mut authors: Vec<String> = Vec::new();
        authors.push("Hanako T".to_string());
        authors.push("Taro T".to_string());
        let r = BookSearchResult {
            isbn: Some("000-0-00-000000-0".to_string()),
            url: None,
            title: "The Book of Example".to_string(),
            detail: Some(
                "This book is an example! This Book Search API configuration is for illustrative purposes only and cannot be used.".to_string(),
            ),
            authors,
            publisher: Some("FooBar Printing Exm".to_string()),
            publication_date: Some("0000-01-01".to_string()),
        };
        proof {
            assert(string_views(r.authors@) =~= seq!["Hanako T"@, "Taro T"@]);
        }
        r
    }

    /// One publisher per result that names one, in order: id 0, the name,
    /// no memo.
    pub fn publishers_from_bsr(bsr: &[BookSearchResult]) -> (r: Vec<Publisher>)
        ensures
            r@.len() == bsr_publishers(bsr@).len(),
            forall|i: int| 0 <= i < r@.len() ==> {
                &&& (#[trigger] r@[i]).id == 0
                &&& r@[i].name@ == bsr_publishers(bsr@)[i]
                &&& r@[i].memo is None
            },
    {
        let mut r: Vec<Publisher> = Vec::new();
        let mut i: usize = 0;
        while i < bsr.len()
            invariant
                0 <= i <= bsr@.len(),
                r@.len() == bsr_publishers(bsr@.take(i as int)).len(),
                forall|j: int| 0 <= j < r@.len() ==> {
                    &&& (#[trigger] r@[j]).id == 0
                    &&& r@[j].name@ == bsr_publishers(bsr@.take(i as int))[j]
                    &&& r@[j].memo is None
                },
            decreases bsr@.len() - i,
        {
            proof {
                assert(bsr@.take(i + 1).drop_last() =~= bsr@.take(i as int));
            }
            match &bsr[i].publisher {
                Some(name) => {
                    r.push(Publisher { id: 0, name: name.clone(), memo: None });
                },
                None => {},
            }
            i = i + 1;
        }
        proof {
            assert(bsr@.take(bsr@.len() as int) =~= bsr@);
        }
        r
    }

    /// One author per author name of the results, in order: id 0, the name,
    /// no memo.
    pub fn authors_from_bsr(bsr: &[BookSearchResult]) -> (r: Vec<BibliographyAuthor>)
        ensures
            r@.len() == bsr_authors(bsr@).len(),
            forall|i: int| 0 <= i < r@.len() ==> {
                &&& (#[trigger] r@[i]).id == 0
                &&& r@[i].name@ == bsr_authors(bsr@)[i]
                &&& r@[i].memo is None
            },
    {
        let mut r: Vec<BibliographyAuthor> = Vec::new();
        let mut i: usize = 0;
        while i < bsr.len()
            invariant
                0 <= i <= bsr@.len(),
                r@.len() == bsr_authors(bsr@.take(i as int)).len(),
                forall|j: int| 0 <= j < r@.len() ==> {
                    &&& (#[trigger] r@[j]).id == 0
                    &&& r@[j].name@ == bsr_authors(bsr@.take(i as int))[j]
                    &&& r@[j].memo is None
                },
            decreases bsr@.len() - i,
        {
            proof {
                assert(bsr@.take(i + 1).drop_last() =~= bsr@.take(i as int));
            }
            let names = &bsr[i].authors;
            let ghost base = bsr_authors(bsr@.take(i as int));
            let ghost added = string_views(names@);
            let mut k: usize = 0;
            while k < names.len()
                invariant
                    0 <= k <= names@.len(),
                    added == string_views(names@),
                    r@.len() == base.len() + k,
                    forall|j: int| 0 <= j < r@.len() ==> {
                        &&& (#[trigger] r@[j]).id == 0
                        &&& r@[j].name@ == (base + added)[j]
                        &&& r@[j].memo is None
                    },
                decreases names@.len() - k,
            {
                r.push(BibliographyAuthor { id: 0, name: names[k].clone(), memo: None });
                k = k + 1;
            }
            proof {
                assert(bsr_authors(bsr@.take(i + 1)) =~= base + added);
            }
            i = i + 1;
        }
        proof {
            assert(bsr@.take(bsr@.len() as int) =~= bsr@);
        }
        r
    }

    /// The last publisher named `name` in `publishers`.
    fn find_publisher(publishers: &Vec<Publisher>, name: &String) -> (r: Option<Publisher>)
        ensures
            r == publisher_named(publishers@, name@),
    {
        let mut i: usize = publishers.len();
        proof {
            assert(publishers@.take(publishers@.len() as int) =~= publishers@);
        }
        while i > 0
            invariant
                0 <= i <= publishers@.len(),
                publisher_named(publishers@, name@) == publisher_named(publishers@.take(i as int), name@),
            decreases i,
        {
            proof {
                assert(publishers@.take(i as int).drop_last() =~= publishers@.take(i - 1));
            }
            if str_eq(publishers[i - 1].name.as_str(), name.as_str()) {
                return Some(publishers[i - 1].clone());
            }
            i = i - 1;
        }
        None
    }

    /// The last author named `name` in `authors`.
    fn find_author(authors: &Vec<BibliographyAuthor>, name: &String) -> (r: Option<BibliographyAuthor>)
        ensures
            r == author_named(authors@, name@),
    {
        let mut i: usize = authors.len();
        proof {
            assert(authors@.take(authors@.len() as int) =~= authors@);
        }
        while i > 0
            invariant
                0 <= i <= authors@.len(),
                author_named(authors@, name@) == author_named(authors@.take(i as int), name@),
            decreases i,
        {
            proof {
                assert(authors@.take(i as int).drop_last() =~= authors@.take(i - 1));
            }
            if str_eq(authors[i - 1].name.as_str(), name.as_str()) {
                return Some(authors[i - 1].clone());
            }
            i = i - 1;
        }
        None
    }

    /// One bibliography entry per result, in order: the fields of the
    /// result, the publisher of that name among `publishers` (the last one,
    /// as a map keyed by name keeps it), no authors, the epoch as times, and
    /// the position of the result as temporary registration id.
    pub fn bibliographies_from_bsr(bsr: &[BookSearchResult], publishers: &Vec<Publisher>) -> (r: Vec<Bibliography>)
        requires
            bsr@.len() <= i64::MAX,
        ensures
            r@.len() == bsr@.len(),
            forall|i: int| 0 <= i < r@.len() ==> bibliography_of(#[trigger] r@[i], bsr@[i], i, publishers@),
    {
        let mut r: Vec<Bibliography> = Vec::new();
        let mut i: usize = 0;
        while i < bsr.len()
            invariant
                0 <= i <= bsr@.len(),
                bsr@.len() <= i64::MAX,
                r@.len() == i,
                forall|j: int| 0 <= j < i ==> bibliography_of(#[trigger] r@[j], bsr@[j], j, publishers@),
            decreases bsr@.len() - i,
        {
            let v = &bsr[i];
            let publisher = match &v.publisher {
                Some(n) => BookSearchResult::find_publisher(publishers, n),
                None => None,
            };
            r.push(Bibliography {
                id: 0,
                isbn: clone_opt_string(&v.isbn),
                url: clone_opt_string(&v.url),
                title: v.title.clone(),
                detail: clone_opt_string(&v.detail),
                authors: Vec::new(),
                publisher,
                publication_date: clone_opt_string(&v.publication_date),
                created_at: UtcTimestamp::epoch(),
                updated_at: UtcTimestamp::epoch(),
                tmp_registration_id: Some(i as i64),
            });
            i = i + 1;
        }
        r
    }

    /// The links of the registered bibliography entries to their registered
    /// authors: for each entry with a temporary registration id, in order,
    /// one link per author name of the result at that position that names an
    /// author of `authors` (the last of that name). Every temporary
    /// registration id must be a position of `bsr`.
    pub fn rel_bibliography_author_from_bibliographies(
        bsr: &[BookSearchResult],
        bibliographies: &[Bibliography],
        authors: &Vec<BibliographyAuthor>,
    ) -> (r: Vec<RelBibliographyAuthor>)
        requires
            forall|i: int| 0 <= i < bibliographies@.len() ==>
                (#[trigger] bibliographies@[i]).tmp_registration_id matches Some(t) && 0 <= t < bsr@.len()
                || bibliographies@[i].tmp_registration_id is None,
        ensures
            link_pairs(r@) == bibliography_links(bsr@, bibliographies@, authors@),
            forall|i: int| 0 <= i < r@.len() ==> (#[trigger] r@[i]).id == 0,
    {
        let mut r: Vec<RelBibliographyAuthor> = Vec::new();
        let mut i: usize = 0;
        while i < bibliographies.len()
            invariant
                0 <= i <= bibliographies@.len(),
                forall|j: int| 0 <= j < bibliographies@.len() ==>
                    (#[trigger] bibliographies@[j]).tmp_registration_id matches Some(t) && 0 <= t < bsr@.len()
                    || bibliographies@[j].tmp_registration_id is None,
                link_pairs(r@) == bibliography_links(bsr@, bibliographies@.take(i as int), authors@),
                forall|j: int| 0 <= j < r@.len() ==> (#[trigger] r@[j]).id == 0,
            decreases bibliographies@.len() - i,
        {
            proof {
                assert(bibliographies@.take(i + 1).drop_last() =~= bibliographies@.take(i as int));
            }
            let b = &bibliographies[i];
            match b.tmp_registration_id {
                Some(t) => {
                    let names = &bsr[t as usize].authors;
                    let ghost base = link_pairs(r@);
                    let ghost nv = string_views(names@);
                    let mut k: usize = 0;
                    while k < names.len()
                        invariant
                            0 <= k <= names@.len(),
                            nv == string_views(names@),
                            link_pairs(r@) == base + author_links(b.id, nv.take(k as int), authors@),
                            forall|j: int| 0 <= j < r@.len() ==> (#[trigger] r@[j]).id == 0,
                        decreases names@.len() - k,
                    {
                        proof {
                            assert(nv.take(k + 1).drop_last() =~= nv.take(k as int));
                        }
                        match BookSearchResult::find_author(authors, &names[k]) {
                            Some(a) => {
                                let ghost before = link_pairs(r@);
                                r.push(RelBibliographyAuthor { id: 0, bibliography_id: b.id, bibliography_author_id: a.id });
                                proof {
                                    assert(link_pairs(r@) =~= before.push((b.id, a.id)));
                                    assert(base + author_links(b.id, nv.take(k + 1), authors@)
                                        =~= (base + author_links(b.id, nv.take(k as int), authors@)).push((b.id, a.id)));
                                }
                            },
                            None => {},
                        }
                        k = k + 1;
                    }
                    proof {
                        assert(nv.take(names@.len() as int) =~= nv);
                    }
                },
                None => {
                    proof {
                        assert(bibliography_links(bsr@, bibliographies@.take(i + 1), authors@)
                            =~= bibliography_links(bsr@, bibliographies@.take(i as int), authors@));
                    }
                },
            }
            i = i + 1;
        }
        proof {
            assert(bibliographies@.take(bibliographies@.len() as int) =~= bibliographies@);
        }
        r
    }
}

/// The string of a string value; `None` for any other script value.
pub open spec fn script_text(v: ScriptValue) -> Option<Seq<char>> {
    match v {
        ScriptValue::Text(s) => Some(s@),
        _ => None,
    }
}

} // verus!
