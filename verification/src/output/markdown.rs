//! Markdown tables and pages.
use vstd::prelude::*;

use super::terminal::{id_or_zero, joined_names, pair_views};
use super::CitationDirection;
use crate::citation::stats::CitationStats;
use crate::models::{opt_view, Author, AuthorView, Paper, PaperView};
use crate::text::{decimal, push_char, push_decimal, push_signed_decimal, push_text, signed_decimal};

verus! {

/// A text made safe for a table cell: `|` escaped with a backslash, line
/// breaks turned to spaces.
pub open spec fn cell(s: Seq<char>) -> Seq<char>
    decreases s.len(),
{
    if s.len() == 0 {
        Seq::empty()
    } else {
        cell(s.drop_last()) + if s.last() == '|' {
            seq!['\\', '|']
        } else if s.last() == '\n' {
            seq![' ']
        } else {
            seq![s.last()]
        }
    }
}

/// The authors: all names joined by `, `, or `N/A`.
pub open spec fn md_authors(authors: Seq<AuthorView>) -> Seq<char> {
    if authors.len() == 0 {
        "N/A"@
    } else {
        joined_names(authors)
    }
}

/// A table row of a paper.
pub open spec fn md_paper_row(p: PaperView) -> Seq<char> {
    "| "@ + signed_decimal(id_or_zero(p)) + " | "@ + cell(p.title) + " | "@ + cell(md_authors(p.authors))
        + " | "@ + signed_decimal(p.citation_count as int) + " |\n"@
}

/// The table rows of the papers.
pub open spec fn md_paper_rows(papers: Seq<PaperView>) -> Seq<char>
    decreases papers.len(),
{
    if papers.len() == 0 {
        Seq::empty()
    } else {
        md_paper_rows(papers.drop_last()) + md_paper_row(papers.last())
    }
}

/// A table of papers.
pub open spec fn md_papers(papers: Seq<PaperView>) -> Seq<char> {
    "# Paper List\n\n"@ + "| ID | Title | Authors | Citations |\n"@
        + "|----|-------|---------|----------|\n"@ + md_paper_rows(papers)
}

/// A metadata line for a value that is present.
pub open spec fn md_item(label: Seq<char>, o: Option<Seq<char>>) -> Seq<char> {
    match o {
        Some(v) => "- **"@ + label + ":** "@ + v + "\n"@,
        None => Seq::empty(),
    }
}

/// A metadata line for a value that is present and not empty.
pub open spec fn md_item_nonempty(label: Seq<char>, o: Option<Seq<char>>) -> Seq<char> {
    match o {
        Some(v) => if v.len() > 0 {
            "- **"@ + label + ":** "@ + v + "\n"@
        } else {
            Seq::empty()
        },
        None => Seq::empty(),
    }
}

/// The page of a paper.
pub open spec fn md_detail(p: PaperView) -> Seq<char> {
    "# "@ + p.title + "\n\n"@ + "## Metadata\n\n"@ + "- **ID:** "@ + signed_decimal(id_or_zero(p))
        + "\n"@ + md_item_nonempty("arXiv"@, p.arxiv_id) + md_item_nonempty(
        "Semantic Scholar"@,
        p.semantic_scholar_id,
    ) + md_item("DOI"@, p.doi) + "- **Authors:** "@ + md_authors(p.authors) + "\n"@
        + "- **Citations:** "@ + signed_decimal(p.citation_count as int) + "\n"@ + md_item(
        "Venue"@,
        p.venue,
    ) + md_item("PDF"@, p.pdf_url) + match p.abstract_text {
        Some(a) => "\n## Abstract\n\n"@ + a + "\n"@,
        None => Seq::empty(),
    }
}

/// The table rows of citing or cited papers.
pub open spec fn md_citation_rows(c: Seq<(PaperView, Seq<AuthorView>)>) -> Seq<char>
    decreases c.len(),
{
    if c.len() == 0 {
        Seq::empty()
    } else {
        md_citation_rows(c.drop_last()) + "| "@ + cell(c.last().0.title) + " | "@ + cell(
            md_authors(c.last().1),
        ) + " |\n"@
    }
}

/// A table of citing or cited papers.
pub open spec fn md_citations(c: Seq<(PaperView, Seq<AuthorView>)>, direction: CitationDirection) -> Seq<
    char,
> {
    (match direction {
        CitationDirection::Citing => "# Citing Papers"@,
        CitationDirection::Cited => "# Cited Papers"@,
    }) + "\n\n"@ + "| Title | Authors |\n"@ + "|-------|--------|\n"@ + md_citation_rows(c)
}

/// The table rows of the most cited papers.
pub open spec fn md_top_rows(c: Seq<(Paper, i64)>) -> Seq<char>
    decreases c.len(),
{
    if c.len() == 0 {
        Seq::empty()
    } else {
        md_top_rows(c.drop_last()) + "| "@ + decimal(c.len()) + " | "@ + cell(c.last().0.title@)
            + " | "@ + signed_decimal(c.last().1 as int) + " |\n"@
    }
}

/// The statistics page, with the average already written as `average`.
pub open spec fn md_stats(s: CitationStats, average: Seq<char>) -> Seq<char> {
    "# Citation Statistics\n\n"@ + "## Overview\n\n"@ + "- **Total Papers:** "@ + decimal(
        s.total_papers as nat,
    ) + "\n"@ + "- **Total Citation Edges:** "@ + decimal(s.total_citation_edges as nat) + "\n"@
        + "- **Average Citations:** "@ + average + "\n"@ + "- **H-Index:** "@ + signed_decimal(
        s.h_index as int,
    ) + "\n"@ + "- **Max Citations:** "@ + signed_decimal(s.max_citations as int) + "\n"@
        + "\n## Most Cited Papers\n\n"@ + "| Rank | Title | Citations |\n"@
        + "|------|-------|----------|\n"@ + md_top_rows(
        s.most_cited_papers@.take(
            if s.most_cited_papers@.len() < 10 {
                s.most_cited_papers@.len() as int
            } else {
                10
            },
        ),
    )
}

/// The Markdown formatter.
pub struct MarkdownFormatter;

impl MarkdownFormatter {
    /// Appends `s` made safe for a table cell.
    fn push_cell(out: &mut String, s: &str)
        ensures
            final(out)@ == old(out)@ + cell(s@),
    {
        let v = crate::text::chars_of(s);
        let ghost head = out@;
        let mut i: usize = 0;
        while i < v.len()
            invariant
                v@ == s@,
                i <= v@.len(),
                out@ == head + cell(v@.take(i as int)),
            decreases v.len() - i,
        {
            let c = v[i];
            if c == '|' {
                push_char(out, '\\');
                push_char(out, '|');
            } else if c == '\n' {
                push_char(out, ' ');
            } else {
                push_char(out, c);
            }
            proof {
                assert(v@.take(i + 1).drop_last() =~= v@.take(i as int));
                assert(v@.take(i + 1).last() == c);
                assert(out@ =~= head + cell(v@.take(i + 1)));
            }
            i = i + 1;
        }
        assert(v@.take(v@.len() as int) =~= v@);
    }

    /// The authors: all names joined by `, `, or `N/A`.
    pub fn format_authors(authors: &[Author]) -> (r: String)
        ensures
            r@ == md_authors(authors@.map_values(|a: Author| a@)),
    {
        let ghost v = authors@.map_values(|a: Author| a@);
        let mut r = String::new();
        if authors.len() == 0 {
            push_text(&mut r, "N/A");
            return r;
        }
        push_text(&mut r, authors[0].name.as_str());
        assert(v.take(1) =~= seq![v[0]]);
        assert(r@ =~= joined_names(v.take(1)));
        let mut i: usize = 1;
        while i < authors.len()
            invariant
                1 <= i <= authors@.len(),
                v == authors@.map_values(|a: Author| a@),
                r@ == joined_names(v.take(i as int)),
            decreases authors.len() - i,
        {
            push_text(&mut r, ", ");
            push_text(&mut r, authors[i].name.as_str());
            proof {
                assert(v.take(i + 1).drop_last() =~= v.take(i as int));
                assert(r@ =~= joined_names(v.take(i + 1)));
            }
            i = i + 1;
        }
        assert(v.take(v.len() as int) =~= v);
        r
    }

    /// Appends the id of a paper, 0 where it has none.
    fn push_id(out: &mut String, p: &Paper)
        ensures
            final(out)@ == old(out)@ + signed_decimal(id_or_zero(p@)),
    {
        match p.id {
            Some(i) => push_signed_decimal(out, i),
            None => push_signed_decimal(out, 0),
        }
    }

    /// A table of papers: id, title, authors and citation count of each.
    pub fn format_papers(&self, papers: &[Paper]) -> (r: String)
        ensures
            r@ == md_papers(papers@.map_values(|p: Paper| p@)),
    {
        let ghost v = papers@.map_values(|p: Paper| p@);
        let mut r = String::new();
        push_text(&mut r, "# Paper List\n\n");
        push_text(&mut r, "| ID | Title | Authors | Citations |\n");
        push_text(&mut r, "|----|-------|---------|----------|\n");
        let ghost head = r@;
        let mut i: usize = 0;
        while i < papers.len()
            invariant
                i <= papers@.len(),
                v == papers@.map_values(|p: Paper| p@),
                r@ == head + md_paper_rows(v.take(i as int)),
            decreases papers.len() - i,
        {
            let p = &papers[i];
            let ghost before = r@;
            push_text(&mut r, "| ");
            Self::push_id(&mut r, p);
            push_text(&mut r, " | ");
            Self::push_cell(&mut r, p.title.as_str());
            push_text(&mut r, " | ");
            let names = Self::format_authors(p.authors.as_slice());
            Self::push_cell(&mut r, names.as_str());
            push_text(&mut r, " | ");
            push_signed_decimal(&mut r, p.citation_count);
            push_text(&mut r, " |\n");
            proof {
                assert(r@ =~= before + md_paper_row(p@));
                assert(v.take(i + 1).drop_last() =~= v.take(i as int));
                assert(r@ =~= head + md_paper_rows(v.take(i + 1)));
            }
            i = i + 1;
        }
        assert(v.take(v.len() as int) =~= v);
        assert(r@ =~= md_papers(v));
        r
    }

    /// Appends a metadata line for a value that is present, and, where
    /// `nonempty`, not empty.
    fn push_item(out: &mut String, label: &str, o: &Option<String>, nonempty: bool)
        ensures
            final(out)@ == old(out)@ + if nonempty {
                md_item_nonempty(label@, opt_view(*o))
            } else {
                md_item(label@, opt_view(*o))
            },
    {
        match o {
            Some(v) => {
                if !nonempty || !v.as_str().is_empty() {
                    push_text(out, "- **");
                    push_text(out, label);
                    push_text(out, ":** ");
                    push_text(out, v.as_str());
                    push_text(out, "\n");
                    assert(out@ =~= old(out)@ + ("- **"@ + label@ + ":** "@ + v@ + "\n"@));
                } else {
                    assert(out@ =~= old(out)@ + Seq::<char>::empty());
                }
            },
            None => {
                assert(out@ =~= old(out)@ + Seq::<char>::empty());
            },
        }
    }

    /// The page of a paper: title, metadata, and abstract if any.
    pub fn format_paper_detail(&self, paper: &Paper) -> (r: String)
        ensures
            r@ == md_detail(paper@),
    {
        let mut r = String::new();
        push_text(&mut r, "# ");
        push_text(&mut r, paper.title.as_str());
        push_text(&mut r, "\n\n");
        push_text(&mut r, "## Metadata\n\n");
        push_text(&mut r, "- **ID:** ");
        Self::push_id(&mut r, paper);
        push_text(&mut r, "\n");
        Self::push_item(&mut r, "arXiv", &paper.arxiv_id, true);
        Self::push_item(&mut r, "Semantic Scholar", &paper.semantic_scholar_id, true);
        Self::push_item(&mut r, "DOI", &paper.doi, false);
        push_text(&mut r, "- **Authors:** ");
        let names = Self::format_authors(paper.authors.as_slice());
        push_text(&mut r, names.as_str());
        push_text(&mut r, "\n");
        push_text(&mut r, "- **Citations:** ");
        push_signed_decimal(&mut r, paper.citation_count);
        push_text(&mut r, "\n");
        Self::push_item(&mut r, "Venue", &paper.venue, false);
        Self::push_item(&mut r, "PDF", &paper.pdf_url, false);
        match &paper.abstract_text {
            Some(a) => {
                push_text(&mut r, "\n## Abstract\n\n");
                push_text(&mut r, a.as_str());
                push_text(&mut r, "\n");
            },
            None => {},
        }
        assert(r@ =~= md_detail(paper@));
        r
    }

    /// A table of citing or cited papers: title and authors of each.
    pub fn format_citations(&self, citations: &[(Paper, Vec<Author>)], direction: CitationDirection) -> (r: String)
        ensures
            r@ == md_citations(pair_views(citations@), direction),
    {
        let ghost v = pair_views(citations@);
        let mut r = String::new();
        match direction {
            CitationDirection::Citing => push_text(&mut r, "# Citing Papers"),
            CitationDirection::Cited => push_text(&mut r, "# Cited Papers"),
        }
        push_text(&mut r, "\n\n");
        push_text(&mut r, "| Title | Authors |\n");
        push_text(&mut r, "|-------|--------|\n");
        let ghost head = r@;
        let mut i: usize = 0;
        while i < citations.len()
            invariant
                i <= citations@.len(),
                v == pair_views(citations@),
                r@ == head + md_citation_rows(v.take(i as int)),
            decreases citations.len() - i,
        {
            let (p, authors) = &citations[i];
            let ghost before = r@;
            push_text(&mut r, "| ");
            Self::push_cell(&mut r, p.title.as_str());
            push_text(&mut r, " | ");
            let names = Self::format_authors(authors.as_slice());
            Self::push_cell(&mut r, names.as_str());
            push_text(&mut r, " |\n");
            proof {
                assert(v[i as int] == (p@, authors@.map_values(|a: Author| a@)));
                assert(v.take(i + 1).drop_last() =~= v.take(i as int));
                assert(r@ =~= head + md_citation_rows(v.take(i + 1)));
            }
            i = i + 1;
        }
        assert(v.take(v.len() as int) =~= v);
        assert(r@ =~= md_citations(v, direction));
        r
    }

    /// The statistics page, with the average written beforehand as
    /// `average` (two decimals).
    pub fn format_stats(&self, stats: &CitationStats, average: &str) -> (r: String)
        ensures
            r@ == md_stats(*stats, average@),
    {
        let mut r = String::new();
        push_text(&mut r, "# Citation Statistics\n\n");
        push_text(&mut r, "## Overview\n\n");
        push_text(&mut r, "- **Total Papers:** ");
        push_decimal(&mut r, stats.total_papers as u64);
        push_text(&mut r, "\n");
        push_text(&mut r, "- **Total Citation Edges:** ");
        push_decimal(&mut r, stats.total_citation_edges as u64);
        push_text(&mut r, "\n");
        push_text(&mut r, "- **Average Citations:** ");
        push_text(&mut r, average);
        push_text(&mut r, "\n");
        push_text(&mut r, "- **H-Index:** ");
        push_signed_decimal(&mut r, stats.h_index as i64);
        push_text(&mut r, "\n");
        push_text(&mut r, "- **Max Citations:** ");
        push_signed_decimal(&mut r, stats.max_citations);
        push_text(&mut r, "\n");
        push_text(&mut r, "\n## Most Cited Papers\n\n");
        push_text(&mut r, "| Rank | Title | Citations |\n");
        push_text(&mut r, "|------|-------|----------|\n");
        let ghost head = r@;
        let ghost top = stats.most_cited_papers@;
        let n = if stats.most_cited_papers.len() < 10 {
            stats.most_cited_papers.len()
        } else {
            10
        };
        let mut i: usize = 0;
        while i < n
            invariant
                n <= top.len(),
                top == stats.most_cited_papers@,
                i <= n,
                r@ == head + md_top_rows(top.take(i as int)),
            decreases n - i,
        {
            let (p, count) = &stats.most_cited_papers[i];
            let ghost before = r@;
            push_text(&mut r, "| ");
            push_decimal(&mut r, (i + 1) as u64);
            push_text(&mut r, " | ");
            Self::push_cell(&mut r, p.title.as_str());
            push_text(&mut r, " | ");
            push_signed_decimal(&mut r, *count);
            push_text(&mut r, " |\n");
            proof {
                assert(top.take(i + 1).drop_last() =~= top.take(i as int));
                assert(top.take(i + 1).last() == top[i as int]);
                assert(r@ =~= head + md_top_rows(top.take(i + 1)));
            }
            i = i + 1;
        }
        assert(r@ =~= md_stats(*stats, average@));
        r
    }

    /// The extension of files written in this format.
    pub fn extension(&self) -> (e: &'static str)
        ensures
            e@ == "md"@,
    {
        "md"
    }
}

} // verus!
