//! BibTeX entries.
use vstd::prelude::*;

use super::lower_text;
use super::CitationDirection;
use crate::citation::stats::CitationStats;
use crate::models::{Author, AuthorView, Paper, PaperView};
use crate::source::alphanumeric;
use crate::text::{
    chars_of, find_chars, find_from, is_white_space, push_char, push_chars, push_text, trim_end_seq,
    white_space,
};

verus! {

/// The non-white-space run that ends `t`.
pub open spec fn word_tail(t: Seq<char>) -> Seq<char>
    decreases t.len(),
{
    if t.len() == 0 || is_white_space(t.last()) {
        Seq::empty()
    } else {
        word_tail(t.drop_last()).push(t.last())
    }
}

/// The last word of a name (what `split_whitespace().last()` gives), if
/// it has one.
pub open spec fn last_word(name: Seq<char>) -> Option<Seq<char>> {
    if trim_end_seq(name).len() == 0 {
        None
    } else {
        Some(word_tail(trim_end_seq(name)))
    }
}

/// The alphanumeric characters of `s`, in order.
pub open spec fn alnum_only(s: Seq<char>) -> Seq<char>
    decreases s.len(),
{
    if s.len() == 0 {
        Seq::empty()
    } else if alphanumeric(s.last()) {
        alnum_only(s.drop_last()).push(s.last())
    } else {
        alnum_only(s.drop_last())
    }
}

/// The text of a date before its first `-` (all of it if it has none).
pub open spec fn before_dash(d: Seq<char>) -> Seq<char> {
    match find_from(d, seq!['-'], 0) {
        Some(i) => d.subrange(0, i),
        None => d,
    }
}

/// The citation key of a paper: the last word of its first author's name,
/// lower-cased and kept to its alphanumeric characters (`unknown` without
/// authors), then the year (`nodate` without a date).
pub open spec fn citation_key(p: PaperView) -> Seq<char> {
    (if p.authors.len() == 0 {
        "unknown"@
    } else {
        alnum_only(
            lower_text(
                match last_word(p.authors[0].name) {
                    Some(w) => w,
                    None => p.authors[0].name,
                },
            ),
        )
    }) + match p.publication_date {
        Some(d) => before_dash(d),
        None => "nodate"@,
    }
}

/// A character as BibTeX needs it: `&`, `%`, `$`, `#`, `_`, `{` and `}`
/// behind a backslash.
pub open spec fn escaped_char(c: char) -> Seq<char> {
    if c == '&' || c == '%' || c == '$' || c == '#' || c == '_' || c == '{' || c == '}' {
        seq!['\\', c]
    } else {
        seq![c]
    }
}

/// A text as BibTeX needs it.
pub open spec fn escaped(s: Seq<char>) -> Seq<char>
    decreases s.len(),
{
    if s.len() == 0 {
        Seq::empty()
    } else {
        escaped(s.drop_last()) + escaped_char(s.last())
    }
}

/// The names of the authors joined by ` and `.
pub open spec fn and_names(a: Seq<AuthorView>) -> Seq<char>
    decreases a.len(),
{
    if a.len() == 0 {
        Seq::empty()
    } else if a.len() == 1 {
        a[0].name
    } else {
        and_names(a.drop_last()) + " and "@ + a.last().name
    }
}

/// A field line for a value that is present.
pub open spec fn field(name: Seq<char>, o: Option<Seq<char>>) -> Seq<char> {
    match o {
        Some(v) => "  "@ + name + " = {"@ + v + "},\n"@,
        None => Seq::empty(),
    }
}

/// The opening of an entry: its type (`misc` for arXiv papers, else
/// `article`), its key and its title.
pub open spec fn bib_head(p: PaperView) -> Seq<char> {
    "@"@ + (if p.arxiv_id is Some {
        "misc"@
    } else {
        "article"@
    }) + "{"@ + citation_key(p) + ",\n"@ + "  title = {"@ + escaped(p.title) + "},\n"@
}

/// The author field of an entry, if the paper has authors.
pub open spec fn bib_author_field(p: PaperView) -> Seq<char> {
    if p.authors.len() > 0 {
        "  author = {"@ + and_names(p.authors) + "},\n"@
    } else {
        Seq::empty()
    }
}

/// The other fields of an entry: year, journal, DOI, arXiv eprint, URL,
/// each where known.
pub open spec fn bib_fields(p: PaperView) -> Seq<char> {
    field(
        "year"@,
        match p.publication_date {
            Some(d) => Some(before_dash(d)),
            None => None,
        },
    ) + field("journal"@, p.venue) + field("doi"@, p.doi) + (match p.arxiv_id {
        Some(a) => "  eprint = {"@ + a + "},\n"@ + "  archiveprefix = {arXiv},\n"@,
        None => Seq::empty(),
    }) + field("url"@, p.pdf_url)
}

/// The BibTeX entry of a paper.
pub open spec fn bib_entry(p: PaperView) -> Seq<char> {
    bib_head(p) + bib_author_field(p) + bib_fields(p) + "}"@
}

/// The entries of the papers, separated by blank lines.
pub open spec fn bib_entries(papers: Seq<PaperView>) -> Seq<char>
    decreases papers.len(),
{
    if papers.len() == 0 {
        Seq::empty()
    } else if papers.len() == 1 {
        bib_entry(papers[0])
    } else {
        bib_entries(papers.drop_last()) + "\n\n"@ + bib_entry(papers.last())
    }
}

/// The last word of a name, if it has one.
fn last_word_of(name: &[char]) -> (r: Option<Vec<char>>)
    ensures
        match r {
            Some(v) => last_word(name@) == Some(v@),
            None => last_word(name@) is None,
        },
{
    let mut end = name.len();
    assert(name@.take(name@.len() as int) =~= name@);
    while end > 0 && white_space(name[end - 1])
        invariant
            end <= name@.len(),
            trim_end_seq(name@) == trim_end_seq(name@.take(end as int)),
        decreases end,
    {
        assert(name@.take(end as int).drop_last() =~= name@.take(end - 1));
        end = end - 1;
    }
    proof {
        let t = name@.take(end as int);
        if t.len() > 0 {
            assert(!is_white_space(t.last()));
        }
        assert(trim_end_seq(t) == t);
    }
    if end == 0 {
        return None;
    }
    let mut start = end;
    while start > 0 && !white_space(name[start - 1])
        invariant
            start <= end <= name@.len(),
            word_tail(name@.take(end as int)) == word_tail(name@.take(start as int)) + name@.subrange(
                start as int,
                end as int,
            ),
        decreases start,
    {
        proof {
            let t = name@.take(start as int);
            assert(t.drop_last() =~= name@.take(start - 1));
            assert(name@.subrange(start - 1, end as int) =~= seq![name@[start - 1]] + name@.subrange(
                start as int,
                end as int,
            ));
            assert(word_tail(t) == word_tail(name@.take(start - 1)).push(name@[start - 1]));
            assert(word_tail(name@.take(start - 1)).push(name@[start - 1]) + name@.subrange(
                start as int,
                end as int,
            ) =~= word_tail(name@.take(start - 1)) + name@.subrange(start - 1, end as int));
        }
        start = start - 1;
    }
    proof {
        let t = name@.take(start as int);
        assert(word_tail(t) =~= Seq::<char>::empty());
    }
    Some(crate::text::copy_range(name, start, end))
}

/// The alphanumeric characters of `s`, in order; `char::is_alphanumeric`
/// decides.
fn alnum_chars(s: &[char]) -> (r: Vec<char>)
    ensures
        r@ == alnum_only(s@),
{
    let mut r: Vec<char> = Vec::new();
    let mut i: usize = 0;
    while i < s.len()
        invariant
            i <= s@.len(),
            r@ == alnum_only(s@.take(i as int)),
        decreases s.len() - i,
    {
        if crate::source::is_alphanumeric_char(s[i]) {
            r.push(s[i]);
        }
        proof {
            assert(s@.take(i + 1).drop_last() =~= s@.take(i as int));
            assert(s@.take(i + 1).last() == s@[i as int]);
        }
        i = i + 1;
    }
    assert(s@.take(s@.len() as int) =~= s@);
    r
}

/// The text of a date before its first `-`.
fn date_year(d: &String) -> (r: Vec<char>)
    ensures
        r@ == before_dash(d@),
{
    let v = chars_of(d.as_str());
    let mut dash: Vec<char> = Vec::new();
    dash.push('-');
    assert(dash@ =~= seq!['-']);
    match find_chars(v.as_slice(), dash.as_slice(), 0) {
        Some(i) => crate::text::copy_range(v.as_slice(), 0, i),
        None => v,
    }
}

/// The BibTeX formatter.
pub struct BibtexFormatter;

impl BibtexFormatter {
    /// The citation key of a paper.
    pub fn generate_key(paper: &Paper) -> (r: String)
        ensures
            r@ == citation_key(paper@),
    {
        let mut r = String::new();
        if paper.authors.len() == 0 {
            push_text(&mut r, "unknown");
        } else {
            let name = &paper.authors[0].name;
            let nv = chars_of(name.as_str());
            let word = match last_word_of(nv.as_slice()) {
                Some(w) => crate::text::string_of(w.as_slice()),
                None => name.clone(),
            };
            let lower = super::lowercase_of(word.as_str());
            let lv = chars_of(lower.as_str());
            let kept = alnum_chars(lv.as_slice());
            push_chars(&mut r, kept.as_slice());
        }
        match &paper.publication_date {
            Some(d) => {
                let y = date_year(d);
                push_chars(&mut r, y.as_slice());
            },
            None => push_text(&mut r, "nodate"),
        }
        proof {
            if paper.authors.len() > 0 {
                assert(paper@.authors[0] == paper.authors@[0]@);
            }
            assert(r@ =~= citation_key(paper@));
        }
        r
    }

    /// Appends `s` as BibTeX needs it.
    fn push_escaped(out: &mut String, s: &str)
        ensures
            final(out)@ == old(out)@ + escaped(s@),
    {
        let v = chars_of(s);
        let ghost head = out@;
        let mut i: usize = 0;
        while i < v.len()
            invariant
                v@ == s@,
                i <= v@.len(),
                out@ == head + escaped(v@.take(i as int)),
            decreases v.len() - i,
        {
            let c = v[i];
            if c == '&' || c == '%' || c == '$' || c == '#' || c == '_' || c == '{' || c == '}' {
                push_char(out, '\\');
            }
            push_char(out, c);
            proof {
                assert(v@.take(i + 1).drop_last() =~= v@.take(i as int));
                assert(v@.take(i + 1).last() == c);
                assert(out@ =~= head + escaped(v@.take(i + 1)));
            }
            i = i + 1;
        }
        assert(v@.take(v@.len() as int) =~= v@);
    }

    /// The names of the authors joined by ` and `.
    pub fn format_authors(authors: &[Author]) -> (r: String)
        ensures
            r@ == and_names(authors@.map_values(|a: Author| a@)),
    {
        let ghost v = authors@.map_values(|a: Author| a@);
        let mut r = String::new();
        if authors.len() == 0 {
            return r;
        }
        push_text(&mut r, authors[0].name.as_str());
        assert(v.take(1) =~= seq![v[0]]);
        assert(r@ =~= and_names(v.take(1)));
        let mut i: usize = 1;
        while i < authors.len()
            invariant
                1 <= i <= authors@.len(),
                v == authors@.map_values(|a: Author| a@),
                r@ == and_names(v.take(i as int)),
            decreases authors.len() - i,
        {
            push_text(&mut r, " and ");
            push_text(&mut r, authors[i].name.as_str());
            proof {
                assert(v.take(i + 1).drop_last() =~= v.take(i as int));
                assert(r@ =~= and_names(v.take(i + 1)));
            }
            i = i + 1;
        }
        assert(v.take(v.len() as int) =~= v);
        r
    }

    /// Appends a field line for a value that is present.
    fn push_field(out: &mut String, name: &str, o: &Option<String>)
        ensures
            final(out)@ == old(out)@ + field(name@, crate::models::opt_view(*o)),
    {
        match o {
            Some(v) => {
                push_text(out, "  ");
                push_text(out, name);
                push_text(out, " = {");
                push_text(out, v.as_str());
                push_text(out, "},\n");
                assert(out@ =~= old(out)@ + field(name@, crate::models::opt_view(*o)));
            },
            None => {
                assert(out@ =~= old(out)@ + field(name@, crate::models::opt_view(*o)));
            },
        }
    }

    /// Appends the opening of the entry of a paper.
    fn push_head(out: &mut String, paper: &Paper)
        ensures
            final(out)@ == old(out)@ + bib_head(paper@),
    {
        let key = Self::generate_key(paper);
        push_text(out, "@");
        if paper.arxiv_id.is_some() {
            push_text(out, "misc");
        } else {
            push_text(out, "article");
        }
        push_text(out, "{");
        push_text(out, key.as_str());
        push_text(out, ",\n");
        push_text(out, "  title = {");
        Self::push_escaped(out, paper.title.as_str());
        push_text(out, "},\n");
        assert(out@ =~= old(out)@ + bib_head(paper@));
    }

    /// Appends the author field of the entry of a paper.
    fn push_author_field(out: &mut String, paper: &Paper)
        ensures
            final(out)@ == old(out)@ + bib_author_field(paper@),
    {
        if paper.authors.len() > 0 {
            push_text(out, "  author = {");
            let names = Self::format_authors(paper.authors.as_slice());
            push_text(out, names.as_str());
            push_text(out, "},\n");
            assert(out@ =~= old(out)@ + bib_author_field(paper@));
        } else {
            assert(out@ =~= old(out)@ + bib_author_field(paper@));
        }
    }

    /// Appends the other fields of the entry of a paper.
    fn push_fields(out: &mut String, paper: &Paper)
        ensures
            final(out)@ == old(out)@ + bib_fields(paper@),
    {
        let year: Option<String> = match &paper.publication_date {
            Some(d) => {
                let y = date_year(d);
                Some(crate::text::string_of(y.as_slice()))
            },
            None => None,
        };
        Self::push_field(out, "year", &year);
        Self::push_field(out, "journal", &paper.venue);
        Self::push_field(out, "doi", &paper.doi);
        let ghost before = out@;
        match &paper.arxiv_id {
            Some(a) => {
                push_text(out, "  eprint = {");
                push_text(out, a.as_str());
                push_text(out, "},\n");
                push_text(out, "  archiveprefix = {arXiv},\n");
                assert(out@ =~= before + ("  eprint = {"@ + a@ + "},\n"@ + "  archiveprefix = {arXiv},\n"@));
            },
            None => {
                assert(out@ =~= before + Seq::<char>::empty());
            },
        }
        Self::push_field(out, "url", &paper.pdf_url);
        proof {
            assert(crate::models::opt_view(year) == match paper@.publication_date {
                Some(d) => Some(before_dash(d)),
                None => None,
            });
            assert(out@ =~= old(out)@ + bib_fields(paper@));
        }
    }

    /// The BibTeX entry of a paper.
    pub fn format_paper_detail(&self, paper: &Paper) -> (r: String)
        ensures
            r@ == bib_entry(paper@),
    {
        let mut r = String::new();
        Self::push_head(&mut r, paper);
        Self::push_author_field(&mut r, paper);
        Self::push_fields(&mut r, paper);
        push_text(&mut r, "}");
        assert(r@ =~= bib_entry(paper@));
        r
    }

    /// The entries of the papers, separated by blank lines.
    pub fn format_papers(&self, papers: &[Paper]) -> (r: String)
        ensures
            r@ == bib_entries(papers@.map_values(|p: Paper| p@)),
    {
        let ghost v = papers@.map_values(|p: Paper| p@);
        let mut r = String::new();
        let mut i: usize = 0;
        while i < papers.len()
            invariant
                i <= papers@.len(),
                v == papers@.map_values(|p: Paper| p@),
                r@ == bib_entries(v.take(i as int)),
            decreases papers.len() - i,
        {
            if i > 0 {
                push_text(&mut r, "\n\n");
            }
            let e = self.format_paper_detail(&papers[i]);
            push_text(&mut r, e.as_str());
            proof {
                assert(v.take(i + 1).drop_last() =~= v.take(i as int));
                if i == 0 {
                    assert(v.take(1)[0] == v[0]);
                }
                assert(r@ =~= bib_entries(v.take(i + 1)));
            }
            i = i + 1;
        }
        assert(v.take(v.len() as int) =~= v);
        r
    }

    /// The entries of the citing or cited papers, separated by blank lines;
    /// their authors and the direction are not written.
    pub fn format_citations(&self, citations: &[(Paper, Vec<Author>)], direction: CitationDirection) -> (r: String)
        ensures
            r@ == bib_entries(citations@.map_values(|c: (Paper, Vec<Author>)| c.0@)),
    {
        let ghost v = citations@.map_values(|c: (Paper, Vec<Author>)| c.0@);
        let mut r = String::new();
        let mut i: usize = 0;
        while i < citations.len()
            invariant
                i <= citations@.len(),
                v == citations@.map_values(|c: (Paper, Vec<Author>)| c.0@),
                r@ == bib_entries(v.take(i as int)),
            decreases citations.len() - i,
        {
            if i > 0 {
                push_text(&mut r, "\n\n");
            }
            let e = self.format_paper_detail(&citations[i].0);
            push_text(&mut r, e.as_str());
            proof {
                assert(v.take(i + 1).drop_last() =~= v.take(i as int));
                if i == 0 {
                    assert(v.take(1)[0] == v[0]);
                }
                assert(r@ =~= bib_entries(v.take(i + 1)));
            }
            i = i + 1;
        }
        assert(v.take(v.len() as int) =~= v);
        r
    }

    /// Statistics are not written in BibTeX: a comment says so.
    pub fn format_stats(&self, stats: &CitationStats) -> (r: String)
        ensures
            r@ == "% Citation statistics not available in BibTeX format\n"@,
    {
        crate::text::string_of_str("% Citation statistics not available in BibTeX format\n")
    }

    /// The extension of files written in this format.
    pub fn extension(&self) -> (e: &'static str)
        ensures
            e@ == "bib"@,
    {
        "bib"
    }
}

} // verus!
