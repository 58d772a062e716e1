//! What the commands decide and print, apart from reading, fetching and
//! writing.
use vstd::prelude::*;

use crate::citation::crawler::CrawlDirection;
use crate::citation::graph::{count_in, lemma_count_empty, lemma_count_push, CitationGraph};
use crate::models::{opt_view, Author, AuthorView, Paper, PaperView};
use crate::output::terminal::{joined_names, labelled, or_na};
use crate::source::SourceCapabilities;
use crate::text::{push_signed_decimal, push_text, signed_decimal, string_of_str};

verus! {

/// The direction a crawl command names: `citations`, `references`, or
/// both for any other word.
pub open spec fn direction_named(s: Seq<char>) -> CrawlDirection {
    if s == "citations"@ {
        CrawlDirection::Citations
    } else if s == "references"@ {
        CrawlDirection::References
    } else {
        CrawlDirection::Both
    }
}

/// The direction a crawl command names.
pub fn crawl_direction(s: &String) -> (d: CrawlDirection)
    ensures
        d == direction_named(s@),
{
    let citations = string_of_str("citations");
    let references = string_of_str("references");
    if *s == citations {
        CrawlDirection::Citations
    } else if *s == references {
        CrawlDirection::References
    } else {
        CrawlDirection::Both
    }
}

/// Which stored papers a list command shows, in which order.
pub enum PaperListing {
    /// The most recently added first.
    Recent,
    /// The most cited first.
    MostCited,
    /// By title.
    ByTitle,
}

/// The listing a sort word names: `citation` for the most cited, `title`
/// for titles in order, any other word (`created` among them) for the
/// most recent.
pub open spec fn listing_named(s: Seq<char>) -> PaperListing {
    if s == "citation"@ {
        PaperListing::MostCited
    } else if s == "title"@ {
        PaperListing::ByTitle
    } else {
        PaperListing::Recent
    }
}

/// The listing a sort word asks for.
pub fn listing_for(sort: &String) -> (l: PaperListing)
    ensures
        l == listing_named(sort@),
{
    let citation = string_of_str("citation");
    let title = string_of_str("title");
    if *sort == citation {
        PaperListing::MostCited
    } else if *sort == title {
        PaperListing::ByTitle
    } else {
        PaperListing::Recent
    }
}

/// The papers in the order a list command asks for: reversed for `asc`,
/// as they are for any other word.
pub fn in_requested_order(papers: Vec<Paper>, order: &String) -> (r: Vec<Paper>)
    ensures
        r@ == if order@ == "asc"@ {
            papers@.reverse()
        } else {
            papers@
        },
{
    let asc = string_of_str("asc");
    if *order != asc {
        return papers;
    }
    let ghost orig = papers@;
    let mut rest = papers;
    let mut r: Vec<Paper> = Vec::new();
    while rest.len() > 0
        invariant
            rest@ == orig.take(rest@.len() as int),
            rest@.len() <= orig.len(),
            r@ == orig.reverse().take(orig.len() - rest@.len()),
        decreases rest@.len(),
    {
        let ghost before = r@;
        let n = rest.len();
        let p = rest.pop().unwrap();
        r.push(p);
        proof {
            assert(rest@ =~= orig.take(n - 1));
            assert(r@ =~= orig.reverse().take(orig.len() - rest@.len()));
        }
    }
    assert(r@ =~= orig.reverse());
    r
}

/// Which field a local search looks in.
pub enum SearchField {
    /// The titles.
    Title,
    /// The abstracts.
    Abstract,
    /// The titles and the abstracts.
    All,
    /// The authors' names.
    Author,
}

/// The field a search word names: `title`, `abstract`, `author`, and
/// titles and abstracts both for any other word (`all` among them).
pub open spec fn field_named(s: Seq<char>) -> SearchField {
    if s == "title"@ {
        SearchField::Title
    } else if s == "abstract"@ {
        SearchField::Abstract
    } else if s == "author"@ {
        SearchField::Author
    } else {
        SearchField::All
    }
}

/// The field a search word names.
pub fn search_field(field: &String) -> (f: SearchField)
    ensures
        f == field_named(field@),
{
    let title = string_of_str("title");
    let abs = string_of_str("abstract");
    let author = string_of_str("author");
    if *field == title {
        SearchField::Title
    } else if *field == abs {
        SearchField::Abstract
    } else if *field == author {
        SearchField::Author
    } else {
        SearchField::All
    }
}

/// The formats a citation graph can be written in.
pub enum GraphFormat {
    Dot,
    Json,
}

/// The graph format a word names: `dot` or `json`; any other is refused
/// with `不支持格式: ` and the word.
pub fn graph_format(format: &String) -> (r: Result<GraphFormat, String>)
    ensures
        format@ == "dot"@ ==> r matches Ok(GraphFormat::Dot),
        format@ == "json"@ ==> r matches Ok(GraphFormat::Json),
        format@ != "dot"@ && format@ != "json"@ ==> (r matches Err(m) && m@ == "不支持格式: "@ + format@),
{
    let dot = string_of_str("dot");
    let json = string_of_str("json");
    proof {
        reveal_strlit("dot");
        reveal_strlit("json");
        assert("dot"@.len() == 3);
        assert("json"@.len() == 4);
    }
    if *format == dot {
        Ok(GraphFormat::Dot)
    } else if *format == json {
        Ok(GraphFormat::Json)
    } else {
        let mut m = String::new();
        push_text(&mut m, "不支持格式: ");
        push_text(&mut m, format.as_str());
        Err(m)
    }
}

/// `n` copies of the id `x`.
pub open spec fn repeat_id(x: i64, n: nat) -> Seq<i64> {
    Seq::new(n, |_i: int| x)
}

/// One more copy.
proof fn lemma_repeat_push(x: i64, n: nat)
    ensures
        repeat_id(x, n).push(x) == repeat_id(x, n + 1),
{
    assert(repeat_id(x, n).push(x) =~= repeat_id(x, n + 1));
}

/// What `s.take(k + 1)` holds: what `s.take(k)` holds and `s[k]`.
proof fn lemma_take_contains(s: Seq<i64>, k: int, x: i64)
    requires
        0 <= k < s.len(),
    ensures
        s.take(k + 1).contains(x) <==> (s.take(k).contains(x) || s[k] == x),
{
    if s.take(k + 1).contains(x) {
        let w = choose|w: int| 0 <= w < k + 1 && #[trigger] s.take(k + 1)[w] == x;
        if w < k {
            assert(s.take(k)[w] == x);
        }
    }
    if s.take(k).contains(x) {
        let w = choose|w: int| 0 <= w < k && #[trigger] s.take(k)[w] == x;
        assert(s.take(k + 1)[w] == x);
    }
    if s[k] == x {
        assert(s.take(k + 1)[k] == x);
    }
}

/// Adds a stored paper to the graph with the links the database holds for
/// it: to each paper it cites (`cited`, in order), then from each paper
/// that cites it (`citing`, in order). A paper without an id is left out,
/// with its links.
pub fn add_stored_paper(graph: &mut CitationGraph, paper: Paper, cited: &Vec<i64>, citing: &Vec<i64>)
    requires
        old(graph).wf(),
    ensures
        final(graph).wf(),
        match paper.id {
            None => *final(graph) == *old(graph),
            Some(id) => {
                &&& final(graph).paper_map() == old(graph).paper_map().insert(id, paper@)
                &&& forall|a: i64|
                    #[trigger] final(graph).citations_of(a) == old(graph).citations_of(a) + (if a == id {
                        cited@
                    } else {
                        Seq::empty()
                    }) + repeat_id(id, count_in(citing@, a))
                &&& forall|b: i64|
                    #[trigger] final(graph).cited_by_of(b) == old(graph).cited_by_of(b) + repeat_id(
                        id,
                        count_in(cited@, b),
                    ) + (if b == id {
                        citing@
                    } else {
                        Seq::empty()
                    })
                &&& forall|x: i64|
                    #[trigger] final(graph).citing_ids().contains(x) <==> (old(graph).citing_ids().contains(x)
                        || (x == id && cited@.len() > 0) || citing@.contains(x))
                &&& forall|x: i64|
                    #[trigger] final(graph).cited_ids().contains(x) <==> (old(graph).cited_ids().contains(x)
                        || cited@.contains(x) || (x == id && citing@.len() > 0))
            },
        },
{
    let id = match paper.id {
        Some(id) => id,
        None => {
            return;
        },
    };
    let ghost pv = paper@;
    graph.add_paper(paper);
    proof {
        assert(cited@.take(0) =~= Seq::<i64>::empty());
        assert forall|b: i64| count_in(cited@.take(0), b) == 0 by {
            lemma_count_empty(b);
        }
        assert forall|a: i64| #[trigger] graph.citations_of(a) == old(graph).citations_of(a) + (if a == id {
            cited@.take(0)
        } else {
            Seq::empty()
        }) by {
            assert(old(graph).citations_of(a) + Seq::<i64>::empty() =~= old(graph).citations_of(a));
        }
        assert forall|b: i64| #[trigger] graph.cited_by_of(b) == old(graph).cited_by_of(b) + repeat_id(
            id,
            count_in(cited@.take(0), b),
        ) by {
            assert(repeat_id(id, 0) =~= Seq::<i64>::empty());
            assert(old(graph).cited_by_of(b) + Seq::<i64>::empty() =~= old(graph).cited_by_of(b));
        }
    }
    let mut i: usize = 0;
    while i < cited.len()
        invariant
            graph.wf(),
            i <= cited@.len(),
            graph.paper_map() == old(graph).paper_map().insert(id, pv),
            forall|a: i64| #[trigger] graph.citations_of(a) == old(graph).citations_of(a) + (if a == id {
                cited@.take(i as int)
            } else {
                Seq::empty()
            }),
            forall|b: i64| #[trigger] graph.cited_by_of(b) == old(graph).cited_by_of(b) + repeat_id(
                id,
                count_in(cited@.take(i as int), b),
            ),
            forall|x: i64| #[trigger] graph.citing_ids().contains(x) <==> (old(graph).citing_ids().contains(x)
                || (x == id && i > 0)),
            forall|x: i64| #[trigger] graph.cited_ids().contains(x) <==> (old(graph).cited_ids().contains(x)
                || cited@.take(i as int).contains(x)),
        decreases cited.len() - i,
    {
        let ghost before = *graph;
        let c = cited[i];
        graph.add_citation(id, c);
        proof {
            let t0 = cited@.take(i as int);
            let t1 = cited@.take(i + 1);
            assert(t1 =~= t0.push(c));
            assert forall|a: i64| #[trigger] graph.citations_of(a) == old(graph).citations_of(a) + (if a == id {
                t1
            } else {
                Seq::empty()
            }) by {
                if a == id {
                    assert(graph.citations_of(a) == before.citations_of(a).push(c));
                    assert(old(graph).citations_of(a) + t0.push(c) =~= (old(graph).citations_of(a) + t0).push(c));
                } else {
                    assert(graph.citations_of(a) == before.citations_of(a));
                }
            }
            assert forall|b: i64| #[trigger] graph.cited_by_of(b) == old(graph).cited_by_of(b) + repeat_id(
                id,
                count_in(t1, b),
            ) by {
                lemma_count_push(t0, c, b);
                if b == c {
                    assert(graph.cited_by_of(b) == before.cited_by_of(b).push(id));
                    lemma_repeat_push(id, count_in(t0, b));
                    assert(old(graph).cited_by_of(b) + repeat_id(id, count_in(t0, b)).push(id) =~= (old(
                        graph,
                    ).cited_by_of(b) + repeat_id(id, count_in(t0, b))).push(id));
                } else {
                    assert(graph.cited_by_of(b) == before.cited_by_of(b));
                }
            }
            assert forall|x: i64| #[trigger] graph.cited_ids().contains(x) <==> (old(graph).cited_ids().contains(x)
                || t1.contains(x)) by {
                lemma_take_contains(cited@, i as int, x);
            }
        }
        i = i + 1;
    }
    assert(cited@.take(cited@.len() as int) =~= cited@);
    proof {
        assert(citing@.take(0) =~= Seq::<i64>::empty());
        assert forall|a: i64| count_in(citing@.take(0), a) == 0 by {
            lemma_count_empty(a);
        }
        assert forall|a: i64| #[trigger] graph.citations_of(a) == old(graph).citations_of(a) + (if a == id {
            cited@
        } else {
            Seq::empty()
        }) + repeat_id(id, count_in(citing@.take(0), a)) by {
            assert(repeat_id(id, 0) =~= Seq::<i64>::empty());
            let base = old(graph).citations_of(a) + (if a == id {
                cited@
            } else {
                Seq::empty()
            });
            assert(base + Seq::<i64>::empty() =~= base);
        }
        assert forall|b: i64| #[trigger] graph.cited_by_of(b) == old(graph).cited_by_of(b) + repeat_id(
            id,
            count_in(cited@, b),
        ) + (if b == id {
            citing@.take(0)
        } else {
            Seq::empty()
        }) by {
            let base = old(graph).cited_by_of(b) + repeat_id(id, count_in(cited@, b));
            assert(base + Seq::<i64>::empty() =~= base);
        }
    }
    let mut j: usize = 0;
    while j < citing.len()
        invariant
            graph.wf(),
            j <= citing@.len(),
            graph.paper_map() == old(graph).paper_map().insert(id, pv),
            forall|a: i64| #[trigger] graph.citations_of(a) == old(graph).citations_of(a) + (if a == id {
                cited@
            } else {
                Seq::empty()
            }) + repeat_id(id, count_in(citing@.take(j as int), a)),
            forall|b: i64| #[trigger] graph.cited_by_of(b) == old(graph).cited_by_of(b) + repeat_id(
                id,
                count_in(cited@, b),
            ) + (if b == id {
                citing@.take(j as int)
            } else {
                Seq::empty()
            }),
            forall|x: i64| #[trigger] graph.citing_ids().contains(x) <==> (old(graph).citing_ids().contains(x)
                || (x == id && cited@.len() > 0) || citing@.take(j as int).contains(x)),
            forall|x: i64| #[trigger] graph.cited_ids().contains(x) <==> (old(graph).cited_ids().contains(x)
                || cited@.contains(x) || (x == id && j > 0)),
        decreases citing.len() - j,
    {
        let ghost before = *graph;
        let c = citing[j];
        graph.add_citation(c, id);
        proof {
            let t0 = citing@.take(j as int);
            let t1 = citing@.take(j + 1);
            assert(t1 =~= t0.push(c));
            assert forall|a: i64| #[trigger] graph.citations_of(a) == old(graph).citations_of(a) + (if a == id {
                cited@
            } else {
                Seq::empty()
            }) + repeat_id(id, count_in(t1, a)) by {
                lemma_count_push(t0, c, a);
                let base = old(graph).citations_of(a) + (if a == id {
                    cited@
                } else {
                    Seq::empty()
                });
                if a == c {
                    assert(graph.citations_of(a) == before.citations_of(a).push(id));
                    lemma_repeat_push(id, count_in(t0, a));
                    assert(base + repeat_id(id, count_in(t0, a)).push(id) =~= (base + repeat_id(
                        id,
                        count_in(t0, a),
                    )).push(id));
                } else {
                    assert(graph.citations_of(a) == before.citations_of(a));
                }
            }
            assert forall|b: i64| #[trigger] graph.cited_by_of(b) == old(graph).cited_by_of(b) + repeat_id(
                id,
                count_in(cited@, b),
            ) + (if b == id {
                t1
            } else {
                Seq::empty()
            }) by {
                let base = old(graph).cited_by_of(b) + repeat_id(id, count_in(cited@, b));
                if b == id {
                    assert(graph.cited_by_of(b) == before.cited_by_of(b).push(c));
                    assert(base + t0.push(c) =~= (base + t0).push(c));
                } else {
                    assert(graph.cited_by_of(b) == before.cited_by_of(b));
                }
            }
            assert forall|x: i64| #[trigger] graph.citing_ids().contains(x) <==> (old(graph).citing_ids().contains(x)
                || (x == id && cited@.len() > 0) || t1.contains(x)) by {
                lemma_take_contains(citing@, j as int, x);
            }
        }
        j = j + 1;
    }
    assert(citing@.take(citing@.len() as int) =~= citing@);
}

/// The identifier lines a command prints for a paper: `arXiv ID: ` and
/// `SS ID: ` lines for those present and not empty.
pub open spec fn identifier_lines_text(p: PaperView) -> Seq<char> {
    (match labelled("arXiv ID: "@, p.arxiv_id) {
        Some(t) => t + "\n"@,
        None => Seq::empty(),
    }) + (match labelled("SS ID: "@, p.semantic_scholar_id) {
        Some(t) => t + "\n"@,
        None => Seq::empty(),
    })
}

/// The author line a command prints: the names joined by `, `, nothing
/// where there are no authors.
pub open spec fn authors_line_text(authors: Seq<AuthorView>) -> Seq<char> {
    if authors.len() == 0 {
        Seq::empty()
    } else {
        "作者: "@ + joined_names(authors) + "\n"@
    }
}

/// What a command prints of a paper it fetched and stored under `db_id`
/// from the source named `source`.
pub open spec fn paper_detail(db_id: i64, source: Seq<char>, p: PaperView) -> Seq<char> {
    "[DB ID: "@ + signed_decimal(db_id as int) + "] [来源: "@ + source + "]\n"@ + "标题: "@ + p.title
        + "\n"@ + identifier_lines_text(p) + authors_line_text(p.authors) + "DOI: "@ + or_na(p.doi)
        + "\n"@ + "引用数: "@ + signed_decimal(p.citation_count as int) + "\n"@ + "PDF: "@ + or_na(
        p.pdf_url,
    ) + "\n"@ + "\n摘要:\n"@ + or_na(p.abstract_text) + "\n"@
}

/// Appends a labelled line, if the value is present and not empty.
fn push_labelled_line(out: &mut String, label: &str, o: &Option<String>)
    ensures
        final(out)@ == old(out)@ + match labelled(label@, opt_view(*o)) {
            Some(t) => t + "\n"@,
            None => Seq::empty(),
        },
{
    match o {
        Some(s) => {
            if !s.as_str().is_empty() {
                push_text(out, label);
                push_text(out, s.as_str());
                push_text(out, "\n");
                assert(out@ =~= old(out)@ + (label@ + s@ + "\n"@));
            } else {
                assert(out@ =~= old(out)@ + Seq::<char>::empty());
            }
        },
        None => {
            assert(out@ =~= old(out)@ + Seq::<char>::empty());
        },
    }
}

/// The identifier lines of a paper.
pub fn identifier_lines(paper: &Paper) -> (r: String)
    ensures
        r@ == identifier_lines_text(paper@),
{
    let mut r = String::new();
    push_labelled_line(&mut r, "arXiv ID: ", &paper.arxiv_id);
    push_labelled_line(&mut r, "SS ID: ", &paper.semantic_scholar_id);
    assert(r@ =~= identifier_lines_text(paper@));
    r
}

/// The author line of a list of authors.
pub fn authors_line(authors: &[Author]) -> (r: String)
    ensures
        r@ == authors_line_text(authors@.map_values(|a: Author| a@)),
{
    let ghost v = authors@.map_values(|a: Author| a@);
    let mut r = String::new();
    if authors.len() == 0 {
        return r;
    }
    push_text(&mut r, "作者: ");
    let ghost head = r@;
    push_text(&mut r, authors[0].name.as_str());
    assert(v.take(1) =~= seq![v[0]]);
    assert(r@ =~= head + joined_names(v.take(1)));
    let mut i: usize = 1;
    while i < authors.len()
        invariant
            1 <= i <= authors@.len(),
            v == authors@.map_values(|a: Author| a@),
            r@ == head + joined_names(v.take(i as int)),
        decreases authors.len() - i,
    {
        push_text(&mut r, ", ");
        push_text(&mut r, authors[i].name.as_str());
        proof {
            assert(v.take(i + 1).drop_last() =~= v.take(i as int));
            assert(r@ =~= head + joined_names(v.take(i + 1)));
        }
        i = i + 1;
    }
    push_text(&mut r, "\n");
    assert(v.take(v.len() as int) =~= v);
    assert(r@ =~= authors_line_text(v));
    r
}

/// Appends an optional text, or `N/A`.
fn push_or_na(out: &mut String, o: &Option<String>)
    ensures
        final(out)@ == old(out)@ + or_na(opt_view(*o)),
{
    match o {
        Some(s) => push_text(out, s.as_str()),
        None => push_text(out, "N/A"),
    }
}

/// What a command prints of a paper it fetched from `source` and stored
/// under `db_id`.
pub fn paper_detail_text(db_id: i64, source: &str, paper: &Paper) -> (r: String)
    ensures
        r@ == paper_detail(db_id, source@, paper@),
{
    let mut r = String::new();
    push_text(&mut r, "[DB ID: ");
    push_signed_decimal(&mut r, db_id);
    push_text(&mut r, "] [来源: ");
    push_text(&mut r, source);
    push_text(&mut r, "]\n");
    push_text(&mut r, "标题: ");
    push_text(&mut r, paper.title.as_str());
    push_text(&mut r, "\n");
    let ids = identifier_lines(paper);
    push_text(&mut r, ids.as_str());
    let names = authors_line(paper.authors.as_slice());
    push_text(&mut r, names.as_str());
    push_text(&mut r, "DOI: ");
    push_or_na(&mut r, &paper.doi);
    push_text(&mut r, "\n");
    push_text(&mut r, "引用数: ");
    push_signed_decimal(&mut r, paper.citation_count);
    push_text(&mut r, "\n");
    push_text(&mut r, "PDF: ");
    push_or_na(&mut r, &paper.pdf_url);
    push_text(&mut r, "\n");
    push_text(&mut r, "\n摘要:\n");
    push_or_na(&mut r, &paper.abstract_text);
    push_text(&mut r, "\n");
    assert(r@ =~= paper_detail(db_id, source@, paper@));
    r
}

/// The paper a save command stores: the title, with the arXiv and
/// Semantic Scholar ids given, created and updated at `now`.
pub fn paper_to_save(title: &str, arxiv_id: &Option<String>, ss_id: &Option<String>, now: i64) -> (p: Paper)
    ensures
        p@ == (PaperView {
            arxiv_id: opt_view(*arxiv_id),
            semantic_scholar_id: opt_view(*ss_id),
            ..Paper::new_view(title@, now)
        }),
{
    let mut paper = Paper::new_at(string_of_str(title), now);
    match arxiv_id {
        Some(a) => {
            paper = paper.with_arxiv_id(a.clone());
        },
        None => {},
    }
    match ss_id {
        Some(s) => {
            paper = paper.with_semantic_scholar_id(s.clone());
        },
        None => {},
    }
    paper
}

/// The stored paper with the citation count of its fresh copy, stamped as
/// updated at `now`.
pub fn with_fresh_count(paper: &Paper, fresh: &Paper, now: i64) -> (p: Paper)
    ensures
        p@ == (PaperView { citation_count: fresh.citation_count, updated_at: now, ..paper@ }),
{
    let mut p = paper.clone();
    p.citation_count = fresh.citation_count;
    p.updated_at = now;
    p
}

/// The Semantic Scholar id a stored paper's count is refreshed by: the
/// paper needs one, and an id in the database.
pub fn refresh_key(paper: &Paper) -> (r: Option<&String>)
    ensures
        r == match paper.semantic_scholar_id {
            Some(s) => if paper.id is Some {
                Some(&s)
            } else {
                None
            },
            None => None,
        },
{
    match &paper.semantic_scholar_id {
        Some(s) => {
            if paper.id.is_some() {
                Some(s)
            } else {
                None
            }
        },
        None => None,
    }
}

/// A stored paper whose count a sync refreshes: it has a Semantic Scholar
/// id and an id in the database.
pub open spec fn is_refreshable(p: Paper) -> bool {
    p.semantic_scholar_id is Some && p.id is Some
}

/// The positions, among the first `n` papers, of those a sync refreshes,
/// in order.
pub open spec fn refreshable_among(papers: Seq<Paper>, n: int) -> Seq<usize>
    decreases n,
{
    if n <= 0 {
        Seq::empty()
    } else if is_refreshable(papers[n - 1]) {
        refreshable_among(papers, n - 1).push((n - 1) as usize)
    } else {
        refreshable_among(papers, n - 1)
    }
}

/// The positions of the papers a sync of `batch` papers refreshes: among
/// the first `batch` papers, those with a Semantic Scholar id and an id in
/// the database, in order.
pub fn sync_candidates(papers: &Vec<Paper>, batch: usize) -> (r: Vec<usize>)
    ensures
        r@ == refreshable_among(papers@, if batch < papers@.len() {
            batch as int
        } else {
            papers@.len() as int
        }),
{
    let n = if batch < papers.len() {
        batch
    } else {
        papers.len()
    };
    let mut r: Vec<usize> = Vec::new();
    let mut i: usize = 0;
    while i < n
        invariant
            n <= papers@.len(),
            i <= n,
            r@ == refreshable_among(papers@, i as int),
        decreases n - i,
    {
        if refresh_key(&papers[i]).is_some() {
            r.push(i);
        }
        i = i + 1;
    }
    r
}

/// The ids a paper found at a source is looked up by in the database
/// before it is stored: its arXiv id and its Semantic Scholar id, each
/// where present and not empty.
pub fn cache_keys(paper: &Paper) -> (r: (Option<&String>, Option<&String>))
    ensures
        match paper.arxiv_id {
            Some(a) => if a@.len() > 0 {
                r.0 == Some(&a)
            } else {
                r.0 is None
            },
            None => r.0 is None,
        },
        match paper.semantic_scholar_id {
            Some(s) => if s@.len() > 0 {
                r.1 == Some(&s)
            } else {
                r.1 is None
            },
            None => r.1 is None,
        },
{
    let a = match &paper.arxiv_id {
        Some(a) => if a.as_str().is_empty() {
            None
        } else {
            Some(a)
        },
        None => None,
    };
    let s = match &paper.semantic_scholar_id {
        Some(s) => if s.as_str().is_empty() {
            None
        } else {
            Some(s)
        },
        None => None,
    };
    (a, s)
}

/// `✓` for what a source can do, `✗` for what it cannot.
pub open spec fn mark(b: bool) -> Seq<char> {
    if b {
        "✓"@
    } else {
        "✗"@
    }
}

/// The lines a sources command prints of what a source can do.
pub open spec fn capability_text(c: SourceCapabilities) -> Seq<char> {
    "  搜索: "@ + mark(c.search) + "\n"@ + "  获取: "@ + mark(c.get_by_id) + "\n"@ + "  引用: "@
        + mark(c.citations) + "\n"@ + "  参考文献: "@ + mark(c.references) + "\n"@ + "  PDF下载: "@
        + mark(c.pdf_download) + "\n"@
}

fn push_mark_line(out: &mut String, label: &str, b: bool)
    ensures
        final(out)@ == old(out)@ + label@ + mark(b) + "\n"@,
{
    push_text(out, label);
    if b {
        push_text(out, "✓");
    } else {
        push_text(out, "✗");
    }
    push_text(out, "\n");
}

/// The lines of what a source can do.
pub fn capability_lines(c: &SourceCapabilities) -> (r: String)
    ensures
        r@ == capability_text(*c),
{
    let mut r = String::new();
    push_mark_line(&mut r, "  搜索: ", c.search);
    push_mark_line(&mut r, "  获取: ", c.get_by_id);
    push_mark_line(&mut r, "  引用: ", c.citations);
    push_mark_line(&mut r, "  参考文献: ", c.references);
    push_mark_line(&mut r, "  PDF下载: ", c.pdf_download);
    assert(r@ =~= capability_text(*c));
    r
}

} // verus!
