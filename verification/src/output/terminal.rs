//! Plain text for the terminal.
use vstd::prelude::*;

use super::CitationDirection;
use crate::citation::stats::CitationStats;
use crate::models::{Author, AuthorView, Paper, PaperView};
use crate::text::{decimal, holds_piece, push_decimal, push_signed_decimal, push_text, signed_decimal};

verus! {

/// The text of an optional value, or `N/A`.
pub open spec fn or_na(o: Option<Seq<char>>) -> Seq<char> {
    match o {
        Some(s) => s,
        None => "N/A"@,
    }
}

/// A non-empty identifier, with its label.
pub open spec fn labelled(label: Seq<char>, o: Option<Seq<char>>) -> Option<Seq<char>> {
    match o {
        Some(s) => if s.len() > 0 {
            Some(label + s)
        } else {
            None
        },
        None => None,
    }
}

/// The identifiers of a paper on one line: `arXiv: <id>` and `SS: <id>`
/// for those present and not empty, joined by ` | `.
pub open spec fn identifier_text(p: PaperView) -> Seq<char> {
    match (labelled("arXiv: "@, p.arxiv_id), labelled("SS: "@, p.semantic_scholar_id)) {
        (Some(a), Some(b)) => a + " | "@ + b,
        (Some(a), None) => a,
        (None, Some(b)) => b,
        (None, None) => Seq::empty(),
    }
}

/// The names of the authors, joined by `, `.
pub open spec fn joined_names(authors: Seq<AuthorView>) -> Seq<char>
    decreases authors.len(),
{
    if authors.len() == 0 {
        Seq::empty()
    } else if authors.len() == 1 {
        authors[0].name
    } else {
        joined_names(authors.drop_last()) + ", "@ + authors.last().name
    }
}

/// The authors on one line: `N/A` for none, all names for up to three,
/// else the first name and `et al.`.
pub open spec fn authors_text(authors: Seq<AuthorView>) -> Seq<char> {
    if authors.len() == 0 {
        "N/A"@
    } else if authors.len() <= 3 {
        joined_names(authors)
    } else {
        authors[0].name + ", et al."@
    }
}

/// A line holding `t`, or nothing when `t` is empty.
pub open spec fn line_if_any(t: Seq<char>) -> Seq<char> {
    if t.len() > 0 {
        t + "\n"@
    } else {
        Seq::empty()
    }
}

/// The id of a paper as written, 0 where it has none.
pub open spec fn id_or_zero(p: PaperView) -> int {
    match p.id {
        Some(i) => i as int,
        None => 0,
    }
}

/// One paper in a list.
pub open spec fn paper_block(p: PaperView) -> Seq<char> {
    "\n---\n"@ + "ID: "@ + signed_decimal(id_or_zero(p)) + "\n"@ + "标题: "@ + p.title + "\n"@
        + line_if_any(identifier_text(p)) + "作者: "@ + authors_text(p.authors) + "\n"@ + "引用数: "@
        + signed_decimal(p.citation_count as int) + "\n"@
}

/// The blocks of the papers, one after the other.
pub open spec fn paper_blocks(papers: Seq<PaperView>) -> Seq<char>
    decreases papers.len(),
{
    if papers.len() == 0 {
        Seq::empty()
    } else {
        paper_blocks(papers.drop_last()) + paper_block(papers.last())
    }
}

/// A list of papers: how many, then each.
pub open spec fn papers_text(papers: Seq<PaperView>) -> Seq<char> {
    "共 "@ + decimal(papers.len()) + " 篇论文:\n"@ + paper_blocks(papers)
}

/// The details of a paper.
pub open spec fn detail_text(p: PaperView) -> Seq<char> {
    "[DB ID: "@ + signed_decimal(id_or_zero(p)) + "]\n"@ + "标题: "@ + p.title + "\n"@ + line_if_any(
        identifier_text(p),
    ) + "作者: "@ + authors_text(p.authors) + "\n"@ + "DOI: "@ + or_na(p.doi) + "\n"@ + "引用数: "@
        + signed_decimal(p.citation_count as int) + "\n"@ + "PDF: "@ + or_na(p.pdf_url) + "\n"@
        + "\n摘要:\n"@ + or_na(p.abstract_text) + "\n"@
}

/// One citing or cited paper with its authors.
pub open spec fn citation_block(p: PaperView, authors: Seq<AuthorView>) -> Seq<char> {
    "\n---\n"@ + "标题: "@ + p.title + "\n"@ + line_if_any(
        match labelled("SS ID: "@, p.semantic_scholar_id) {
            Some(t) => t,
            None => Seq::empty(),
        },
    ) + "作者: "@ + authors_text(authors) + "\n"@
}

/// The blocks of citing or cited papers, one after the other.
pub open spec fn citation_blocks(c: Seq<(PaperView, Seq<AuthorView>)>) -> Seq<char>
    decreases c.len(),
{
    if c.len() == 0 {
        Seq::empty()
    } else {
        citation_blocks(c.drop_last()) + citation_block(c.last().0, c.last().1)
    }
}

/// The heading of a list of citing or cited papers.
pub open spec fn citations_heading(n: nat, direction: CitationDirection) -> Seq<char> {
    match direction {
        CitationDirection::Citing => "该论文被以下 "@ + decimal(n) + " 篇论文引用:"@,
        CitationDirection::Cited => "该论文引用了以下 "@ + decimal(n) + " 篇论文:"@,
    }
}

/// The pairs as views.
pub open spec fn pair_views(c: Seq<(Paper, Vec<Author>)>) -> Seq<(PaperView, Seq<AuthorView>)> {
    c.map_values(|x: (Paper, Vec<Author>)| (x.0@, x.1@.map_values(|a: Author| a@)))
}

/// One of the most cited papers, with its rank from 1.
pub open spec fn top_line(rank: nat, title: Seq<char>, count: i64) -> Seq<char> {
    "\n"@ + decimal(rank) + ". "@ + title + " (引用: "@ + signed_decimal(count as int) + ")\n"@
}

/// The lines of the first most cited papers.
pub open spec fn top_lines(c: Seq<(Paper, i64)>) -> Seq<char>
    decreases c.len(),
{
    if c.len() == 0 {
        Seq::empty()
    } else {
        top_lines(c.drop_last()) + top_line(c.len(), c.last().0.title@, c.last().1)
    }
}

/// The statistics, with the average already written as `average`.
pub open spec fn stats_text(s: CitationStats, average: Seq<char>) -> Seq<char> {
    "=== 引用统计 ===\n\n"@ + "论文总数: "@ + decimal(s.total_papers as nat) + "\n"@ + "引用关系数: "@
        + decimal(s.total_citation_edges as nat) + "\n"@ + "平均引用数: "@ + average + "\n"@
        + "H-Index: "@ + signed_decimal(s.h_index as int) + "\n"@ + "最大引用数: "@ + signed_decimal(
        s.max_citations as int,
    ) + "\n"@ + "\n=== 引用最多论文 Top 10 ===\n"@ + top_lines(
        s.most_cited_papers@.take(
            if s.most_cited_papers@.len() < 10 {
                s.most_cited_papers@.len() as int
            } else {
                10
            },
        ),
    ) + if s.isolated_papers@.len() > 0 {
        "\n孤立节点（无引用关系）: "@ + decimal(s.isolated_papers@.len()) + " 篇\n"@
    } else {
        Seq::empty()
    }
}

/// The blocks of two lists of papers one after the other are the blocks
/// of the first list followed by those of the second.
pub proof fn lemma_paper_blocks_concat(a: Seq<PaperView>, b: Seq<PaperView>)
    ensures
        paper_blocks(a + b) == paper_blocks(a) + paper_blocks(b),
    decreases b.len(),
{
    if b.len() == 0 {
        assert(a + b =~= a);
        assert(paper_blocks(a) + paper_blocks(b) =~= paper_blocks(a));
    } else {
        lemma_paper_blocks_concat(a, b.drop_last());
        assert((a + b).drop_last() =~= a + b.drop_last());
        assert((a + b).last() == b.last());
        assert(paper_blocks(a + b) =~= paper_blocks(a) + paper_blocks(b));
    }
}

/// A list of one paper shows that paper's block.
pub proof fn lemma_paper_blocks_one(p: PaperView)
    ensures
        paper_blocks(seq![p]) == paper_block(p),
{
    assert(seq![p].drop_last() =~= Seq::<PaperView>::empty());
    assert(seq![p].last() == p);
    assert(paper_blocks(Seq::<PaperView>::empty()) == Seq::<char>::empty());
    assert(paper_blocks(seq![p]) == paper_blocks(seq![p].drop_last()) + paper_block(p));
    assert(Seq::<char>::empty() + paper_block(p) =~= paper_block(p));
}

/// A list of papers shows every paper, in order, each once: the text is
/// the count line, the blocks of the papers before paper `i`, the block of
/// paper `i`, then the blocks of those after it.
pub proof fn lemma_papers_text_shows_each(papers: Seq<PaperView>, i: int)
    requires
        0 <= i < papers.len(),
    ensures
        papers_text(papers) == "共 "@ + decimal(papers.len()) + " 篇论文:\n"@ + paper_blocks(papers.take(i))
            + paper_block(papers[i]) + paper_blocks(papers.skip(i + 1)),
        holds_piece(papers_text(papers), paper_block(papers[i])),
{
    let head = "共 "@ + decimal(papers.len()) + " 篇论文:\n"@;
    assert(papers =~= papers.take(i) + seq![papers[i]] + papers.skip(i + 1));
    lemma_paper_blocks_concat(papers.take(i) + seq![papers[i]], papers.skip(i + 1));
    lemma_paper_blocks_concat(papers.take(i), seq![papers[i]]);
    lemma_paper_blocks_one(papers[i]);
    assert(papers_text(papers) =~= head + paper_blocks(papers.take(i)) + paper_block(papers[i]) + paper_blocks(
        papers.skip(i + 1),
    ));
    let x = head + paper_blocks(papers.take(i));
    let y = paper_blocks(papers.skip(i + 1));
    assert(papers_text(papers) =~= x + paper_block(papers[i]) + y);
}

/// The ranked lines of the first `k` most cited papers begin those of all
/// of them.
proof fn lemma_top_lines_prefix(c: Seq<(Paper, i64)>, k: int) -> (y: Seq<char>)
    requires
        0 <= k <= c.len(),
    ensures
        top_lines(c) == top_lines(c.take(k)) + y,
    decreases c.len(),
{
    if k == c.len() {
        assert(c.take(k) =~= c);
        assert(top_lines(c) =~= top_lines(c.take(k)) + Seq::<char>::empty());
        Seq::empty()
    } else {
        let y0 = lemma_top_lines_prefix(c.drop_last(), k);
        assert(c.drop_last().take(k) =~= c.take(k));
        let line = top_line(c.len(), c.last().0.title@, c.last().1);
        assert(top_lines(c) =~= top_lines(c.take(k)) + (y0 + line));
        y0 + line
    }
}

/// The statistics list the most cited papers, up to ten, each on its own
/// ranked line: for each of the first ten (or fewer) papers of
/// `most_cited_papers`, the text holds the line with its rank (from 1),
/// its title and its count.
pub proof fn lemma_stats_rank_every_top_paper(s: CitationStats, average: Seq<char>, i: int)
    requires
        0 <= i < s.most_cited_papers@.len(),
        i < 10,
    ensures
        holds_piece(
            stats_text(s, average),
            top_line((i + 1) as nat, s.most_cited_papers@[i].0.title@, s.most_cited_papers@[i].1),
        ),
{
    let c = s.most_cited_papers@;
    let m: int = if c.len() < 10 {
        c.len() as int
    } else {
        10
    };
    let ct = c.take(m);
    let y = lemma_top_lines_prefix(ct, i + 1);
    let t = ct.take(i + 1);
    assert(t.drop_last() =~= ct.take(i));
    assert(t.last() == c[i]);
    assert(t.len() == i + 1);
    let line = top_line((i + 1) as nat, c[i].0.title@, c[i].1);
    assert(top_lines(t) == top_lines(ct.take(i)) + line);
    let head = "=== 引用统计 ===\n\n"@ + "论文总数: "@ + decimal(s.total_papers as nat) + "\n"@ + "引用关系数: "@
        + decimal(s.total_citation_edges as nat) + "\n"@ + "平均引用数: "@ + average + "\n"@ + "H-Index: "@
        + signed_decimal(s.h_index as int) + "\n"@ + "最大引用数: "@ + signed_decimal(s.max_citations as int) + "\n"@
        + "\n=== 引用最多论文 Top 10 ===\n"@;
    let tail = if s.isolated_papers@.len() > 0 {
        "\n孤立节点（无引用关系）: "@ + decimal(s.isolated_papers@.len()) + " 篇\n"@
    } else {
        Seq::empty()
    };
    assert(stats_text(s, average) == head + top_lines(ct) + tail);
    assert(stats_text(s, average) =~= (head + top_lines(ct.take(i))) + line + (y + tail));
}

/// The terminal formatter.
pub struct TerminalFormatter;

impl TerminalFormatter {
    /// The formatter.
    pub fn new() -> (f: TerminalFormatter)
        ensures
            f == TerminalFormatter,
    {
        TerminalFormatter
    }

    /// Appends a labelled identifier, if present and not empty, and tells
    /// whether it did.
    fn push_labelled(out: &mut String, label: &str, o: &Option<String>) -> (b: bool)
        ensures
            b == (labelled(label@, crate::models::opt_view(*o)) is Some),
            b ==> final(out)@ == old(out)@ + labelled(label@, crate::models::opt_view(*o))->0,
            !b ==> final(out)@ == old(out)@,
    {
        match o {
            Some(s) => {
                if s.as_str().is_empty() {
                    false
                } else {
                    push_text(out, label);
                    push_text(out, s.as_str());
                    assert(out@ =~= old(out)@ + (label@ + s@));
                    true
                }
            },
            None => false,
        }
    }

    /// The identifiers of a paper on one line.
    pub fn format_identifier(paper: &Paper) -> (r: String)
        ensures
            r@ == identifier_text(paper@),
    {
        let mut a = String::new();
        let has_a = Self::push_labelled(&mut a, "arXiv: ", &paper.arxiv_id);
        let mut b = String::new();
        let has_b = Self::push_labelled(&mut b, "SS: ", &paper.semantic_scholar_id);
        let mut r = String::new();
        if has_a {
            push_text(&mut r, a.as_str());
        }
        if has_a && has_b {
            push_text(&mut r, " | ");
        }
        if has_b {
            push_text(&mut r, b.as_str());
        }
        assert(r@ =~= identifier_text(paper@));
        r
    }

    /// The authors on one line.
    pub fn format_authors(authors: &[Author]) -> (r: String)
        ensures
            r@ == authors_text(authors@.map_values(|a: Author| a@)),
    {
        let ghost v = authors@.map_values(|a: Author| a@);
        let mut r = String::new();
        if authors.len() == 0 {
            push_text(&mut r, "N/A");
        } else if authors.len() <= 3 {
            push_text(&mut r, authors[0].name.as_str());
            let mut i: usize = 1;
            while i < authors.len()
                invariant
                    1 <= i <= authors@.len(),
                    v == authors@.map_values(|a: Author| a@),
                    r@ == joined_names(v.take(i as int)),
                decreases authors.len() - i,
            {
                push_text(&mut r, ", ");
                push_text(&mut r, authors[i].name.as_str());
                proof {
                    assert(v.take(i + 1).drop_last() =~= v.take(i as int));
                    assert(r@ =~= joined_names(v.take(i + 1)));
                }
                i = i + 1;
            }
            assert(v.take(v.len() as int) =~= v);
        } else {
            push_text(&mut r, authors[0].name.as_str());
            push_text(&mut r, ", et al.");
        }
        proof {
            if authors.len() == 0 {
            } else {
                assert(r@ =~= authors_text(v));
            }
        }
        r
    }

    /// Appends the line of `t` if it is not empty.
    fn push_line_if_any(out: &mut String, t: &String)
        ensures
            final(out)@ == old(out)@ + line_if_any(t@),
    {
        if !t.as_str().is_empty() {
            push_text(out, t.as_str());
            push_text(out, "\n");
            assert(out@ =~= old(out)@ + line_if_any(t@));
        } else {
            assert(out@ =~= old(out)@ + line_if_any(t@));
        }
    }

    /// Appends the id of a paper, 0 where it has none.
    fn push_id(out: &mut String, p: &Paper)
        ensures
            final(out)@ == old(out)@ + signed_decimal(id_or_zero(p@)),
    {
        match p.id {
            Some(i) => push_signed_decimal(out, i),
            None => push_signed_decimal(out, 0),
        }
    }

    /// Appends an optional text, or `N/A`.
    fn push_or_na(out: &mut String, o: &Option<String>)
        ensures
            final(out)@ == old(out)@ + or_na(crate::models::opt_view(*o)),
    {
        match o {
            Some(s) => push_text(out, s.as_str()),
            None => push_text(out, "N/A"),
        }
    }

    /// A list of papers: how many, then for each its id, title,
    /// identifiers, authors and citation count.
    pub fn format_papers(&self, papers: &[Paper]) -> (r: String)
        ensures
            r@ == papers_text(papers@.map_values(|p: Paper| p@)),
            forall|i: int| 0 <= i < papers@.len() ==> holds_piece(r@, #[trigger] paper_block(papers@[i]@)),
    {
        let ghost v = papers@.map_values(|p: Paper| p@);
        let mut r = String::new();
        push_text(&mut r, "共 ");
        push_decimal(&mut r, papers.len() as u64);
        push_text(&mut r, " 篇论文:\n");
        let ghost head = r@;
        let mut i: usize = 0;
        while i < papers.len()
            invariant
                i <= papers@.len(),
                v == papers@.map_values(|p: Paper| p@),
                r@ == head + paper_blocks(v.take(i as int)),
            decreases papers.len() - i,
        {
            let p = &papers[i];
            let ghost before = r@;
            push_text(&mut r, "\n---\n");
            push_text(&mut r, "ID: ");
            Self::push_id(&mut r, p);
            push_text(&mut r, "\n");
            push_text(&mut r, "标题: ");
            push_text(&mut r, p.title.as_str());
            push_text(&mut r, "\n");
            let ident = Self::format_identifier(p);
            Self::push_line_if_any(&mut r, &ident);
            push_text(&mut r, "作者: ");
            let authors = Self::format_authors(p.authors.as_slice());
            push_text(&mut r, authors.as_str());
            push_text(&mut r, "\n");
            push_text(&mut r, "引用数: ");
            push_signed_decimal(&mut r, p.citation_count);
            push_text(&mut r, "\n");
            proof {
                assert(r@ =~= before + paper_block(p@));
                assert(v.take(i + 1).drop_last() =~= v.take(i as int));
                assert(r@ =~= head + paper_blocks(v.take(i + 1)));
            }
            i = i + 1;
        }
        assert(v.take(v.len() as int) =~= v);
        assert(r@ =~= papers_text(v));
        assert forall|i: int| 0 <= i < papers@.len() implies holds_piece(r@, #[trigger] paper_block(papers@[i]@)) by {
            lemma_papers_text_shows_each(v, i);
        }
        r
    }

    /// The details of a paper.
    pub fn format_paper_detail(&self, paper: &Paper) -> (r: String)
        ensures
            r@ == detail_text(paper@),
    {
        let mut r = String::new();
        push_text(&mut r, "[DB ID: ");
        Self::push_id(&mut r, paper);
        push_text(&mut r, "]\n");
        push_text(&mut r, "标题: ");
        push_text(&mut r, paper.title.as_str());
        push_text(&mut r, "\n");
        let ident = Self::format_identifier(paper);
        Self::push_line_if_any(&mut r, &ident);
        push_text(&mut r, "作者: ");
        let authors = Self::format_authors(paper.authors.as_slice());
        push_text(&mut r, authors.as_str());
        push_text(&mut r, "\n");
        push_text(&mut r, "DOI: ");
        Self::push_or_na(&mut r, &paper.doi);
        push_text(&mut r, "\n");
        push_text(&mut r, "引用数: ");
        push_signed_decimal(&mut r, paper.citation_count);
        push_text(&mut r, "\n");
        push_text(&mut r, "PDF: ");
        Self::push_or_na(&mut r, &paper.pdf_url);
        push_text(&mut r, "\n");
        push_text(&mut r, "\n摘要:\n");
        Self::push_or_na(&mut r, &paper.abstract_text);
        push_text(&mut r, "\n");
        assert(r@ =~= detail_text(paper@));
        r
    }

    /// A list of citing or cited papers: a heading with their number, then
    /// for each its title, Semantic Scholar id and authors.
    pub fn format_citations(&self, citations: &[(Paper, Vec<Author>)], direction: CitationDirection) -> (r: String)
        ensures
            r@ == citations_heading(citations@.len(), direction) + citation_blocks(pair_views(citations@)),
    {
        let ghost v = pair_views(citations@);
        let mut r = String::new();
        match direction {
            CitationDirection::Citing => {
                push_text(&mut r, "该论文被以下 ");
                push_decimal(&mut r, citations.len() as u64);
                push_text(&mut r, " 篇论文引用:");
            },
            CitationDirection::Cited => {
                push_text(&mut r, "该论文引用了以下 ");
                push_decimal(&mut r, citations.len() as u64);
                push_text(&mut r, " 篇论文:");
            },
        }
        let ghost head = r@;
        assert(head =~= citations_heading(citations@.len(), direction));
        let mut i: usize = 0;
        while i < citations.len()
            invariant
                i <= citations@.len(),
                v == pair_views(citations@),
                r@ == head + citation_blocks(v.take(i as int)),
            decreases citations.len() - i,
        {
            let (p, authors) = &citations[i];
            let ghost before = r@;
            push_text(&mut r, "\n---\n");
            push_text(&mut r, "标题: ");
            push_text(&mut r, p.title.as_str());
            push_text(&mut r, "\n");
            let mut ss = String::new();
            let _ = Self::push_labelled(&mut ss, "SS ID: ", &p.semantic_scholar_id);
            Self::push_line_if_any(&mut r, &ss);
            push_text(&mut r, "作者: ");
            let names = Self::format_authors(authors.as_slice());
            push_text(&mut r, names.as_str());
            push_text(&mut r, "\n");
            proof {
                assert(v[i as int] == (p@, authors@.map_values(|a: Author| a@)));
                assert(r@ =~= before + citation_block(p@, authors@.map_values(|a: Author| a@)));
                assert(v.take(i + 1).drop_last() =~= v.take(i as int));
                assert(r@ =~= head + citation_blocks(v.take(i + 1)));
            }
            i = i + 1;
        }
        assert(v.take(v.len() as int) =~= v);
        r
    }

    /// The statistics, with the average written beforehand as `average`
    /// (two decimals): totals, h-index, largest count, the ten most cited
    /// papers, and how many nobody cites.
    pub fn format_stats(&self, stats: &CitationStats, average: &str) -> (r: String)
        ensures
            r@ == stats_text(*stats, average@),
            forall|i: int|
                0 <= i < stats.most_cited_papers@.len() && i < 10 ==> holds_piece(
                    r@,
                    #[trigger] top_line((i + 1) as nat, stats.most_cited_papers@[i].0.title@, stats.most_cited_papers@[i].1),
                ),
    {
        let mut r = String::new();
        push_text(&mut r, "=== 引用统计 ===\n\n");
        push_text(&mut r, "论文总数: ");
        push_decimal(&mut r, stats.total_papers as u64);
        push_text(&mut r, "\n");
        push_text(&mut r, "引用关系数: ");
        push_decimal(&mut r, stats.total_citation_edges as u64);
        push_text(&mut r, "\n");
        push_text(&mut r, "平均引用数: ");
        push_text(&mut r, average);
        push_text(&mut r, "\n");
        push_text(&mut r, "H-Index: ");
        push_signed_decimal(&mut r, stats.h_index as i64);
        push_text(&mut r, "\n");
        push_text(&mut r, "最大引用数: ");
        push_signed_decimal(&mut r, stats.max_citations);
        push_text(&mut r, "\n");
        push_text(&mut r, "\n=== 引用最多论文 Top 10 ===\n");
        let ghost head = r@;
        let ghost top = stats.most_cited_papers@;
        let n = if stats.most_cited_papers.len() < 10 {
            stats.most_cited_papers.len()
        } else {
            10
        };
        let mut i: usize = 0;
        while i < n
            invariant
                n <= top.len(),
                top == stats.most_cited_papers@,
                i <= n,
                r@ == head + top_lines(top.take(i as int)),
            decreases n - i,
        {
            let (p, count) = &stats.most_cited_papers[i];
            let ghost before = r@;
            push_text(&mut r, "\n");
            push_decimal(&mut r, (i + 1) as u64);
            push_text(&mut r, ". ");
            push_text(&mut r, p.title.as_str());
            push_text(&mut r, " (引用: ");
            push_signed_decimal(&mut r, *count);
            push_text(&mut r, ")\n");
            proof {
                assert(top.take(i + 1).drop_last() =~= top.take(i as int));
                assert(top.take(i + 1).last() == top[i as int]);
                assert(r@ =~= head + top_lines(top.take(i + 1)));
            }
            i = i + 1;
        }
        let ghost body = r@;
        if stats.isolated_papers.len() > 0 {
            push_text(&mut r, "\n孤立节点（无引用关系）: ");
            push_decimal(&mut r, stats.isolated_papers.len() as u64);
            push_text(&mut r, " 篇\n");
        }
        assert(r@ =~= stats_text(*stats, average@));
        assert forall|i: int|
            0 <= i < stats.most_cited_papers@.len() && i < 10 implies holds_piece(
                r@,
                #[trigger] top_line((i + 1) as nat, stats.most_cited_papers@[i].0.title@, stats.most_cited_papers@[i].1),
            ) by {
            lemma_stats_rank_every_top_paper(*stats, average@, i);
        }
        r
    }

    /// The extension of files written in this format.
    pub fn extension(&self) -> (e: &'static str)
        ensures
            e@ == "txt"@,
    {
        "txt"
    }
}

impl Default for TerminalFormatter {
    fn default() -> (f: TerminalFormatter)
        ensures
            f == TerminalFormatter,
    {
        TerminalFormatter::new()
    }
}

} // verus!
