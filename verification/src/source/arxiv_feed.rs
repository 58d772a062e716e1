//! Reading the Atom feed that the arXiv API answers with: its entries,
//! the text of their tags, and their PDF links.
use vstd::prelude::*;

use crate::models::{Paper, PaperView};
use crate::text::{
    chars_of, lemma_find_is, occurs_at, contains_seq, copy_range, find_chars, find_from, lemma_find_from, lemma_split_step,
    split_from, split_seq, string_of, strip_prefix, strip_prefix_seq, trim, trim_seq,
};

verus! {

/// One entry of the feed, as the fields a paper is built from.
pub struct ArxivEntry {
    pub title: Seq<char>,
    pub summary: Seq<char>,
    pub arxiv_id: Seq<char>,
    pub doi: Seq<char>,
    pub pdf_url: Seq<char>,
}

/// The text of an optional value, or nothing.
pub open spec fn or_empty(o: Option<Seq<char>>) -> Seq<char> {
    match o {
        Some(s) => s,
        None => Seq::empty(),
    }
}

/// `<tag>`.
pub open spec fn open_tag(tag: Seq<char>) -> Seq<char> {
    seq!['<'] + tag + seq!['>']
}

/// `</tag>`.
pub open spec fn close_tag(tag: Seq<char>) -> Seq<char> {
    seq!['<', '/'] + tag + seq!['>']
}

/// The text between the first `<tag>` of `xml` and the first `</tag>`
/// after it.
pub open spec fn tag_text(xml: Seq<char>, tag: Seq<char>) -> Option<Seq<char>> {
    match find_from(xml, open_tag(tag), 0) {
        None => None,
        Some(start) => {
            let content = start + open_tag(tag).len();
            match find_from(xml, close_tag(tag), content) {
                None => None,
                Some(end) => Some(xml.subrange(content, end)),
            }
        },
    }
}

/// The `href` of a piece of the feed that begins a PDF link: the piece
/// names the PDF by its title or its type, and the text between `href="`
/// and the next quote is the address.
pub open spec fn pdf_href(seg: Seq<char>) -> Option<Seq<char>> {
    if contains_seq(seg, "title=\"pdf\""@) || contains_seq(seg, "type=\"application/pdf\""@) {
        match find_from(seg, "href=\""@, 0) {
            Some(h) => match find_from(seg, "\""@, h + 6) {
                Some(e) => Some(seg.subrange(h + 6, e)),
                None => None,
            },
            None => None,
        }
    } else {
        None
    }
}

/// The first address that `pdf_href` finds among the pieces.
pub open spec fn first_pdf_href(segs: Seq<Seq<char>>) -> Option<Seq<char>>
    decreases segs.len(),
{
    if segs.len() == 0 {
        None
    } else {
        match pdf_href(segs[0]) {
            Some(u) => Some(u),
            None => first_pdf_href(segs.drop_first()),
        }
    }
}

/// The PDF address of an entry: the first piece, cut at `<link `, that
/// carries one.
pub open spec fn pdf_link(xml: Seq<char>) -> Option<Seq<char>> {
    first_pdf_href(split_seq(xml, "<link "@))
}

/// The arXiv id in an abstract page address.
pub open spec fn arxiv_id_of(id: Seq<char>) -> Seq<char> {
    match strip_prefix_seq(id, "http://arxiv.org/abs/"@) {
        Some(s) => s,
        None => or_empty(strip_prefix_seq(id, "https://arxiv.org/abs/"@)),
    }
}

/// The entry that the text of one `<entry>` element describes: it needs a
/// title and an id; the title and summary are trimmed.
pub open spec fn entry_of(xml: Seq<char>) -> Option<ArxivEntry> {
    match (tag_text(xml, "title"@), tag_text(xml, "id"@)) {
        (Some(title), Some(id)) => Some(
            ArxivEntry {
                title: trim_seq(title),
                summary: trim_seq(or_empty(tag_text(xml, "summary"@))),
                arxiv_id: arxiv_id_of(id),
                doi: or_empty(tag_text(xml, "arxiv:doi"@)),
                pdf_url: or_empty(pdf_link(xml)),
            },
        ),
        _ => None,
    }
}

/// The entry of a piece of the feed that follows an `<entry>`: the text up
/// to its `</entry>`, if it has one.
pub open spec fn entry_of_piece(seg: Seq<char>) -> Option<ArxivEntry> {
    match find_from(seg, "</entry>"@, 0) {
        Some(e) => entry_of(seg.subrange(0, e)),
        None => None,
    }
}

/// The entries of the pieces, in order, leaving out those without one.
pub open spec fn entries_of_pieces(segs: Seq<Seq<char>>) -> Seq<ArxivEntry>
    decreases segs.len(),
{
    if segs.len() == 0 {
        Seq::empty()
    } else {
        match entry_of_piece(segs[0]) {
            Some(e) => seq![e] + entries_of_pieces(segs.drop_first()),
            None => entries_of_pieces(segs.drop_first()),
        }
    }
}

/// The entries of a feed: the pieces after each `<entry>`.
pub open spec fn feed_entries(xml: Seq<char>) -> Seq<ArxivEntry> {
    entries_of_pieces(split_seq(xml, "<entry>"@).drop_first())
}

/// The paper an entry gives, created and updated at `t`.
pub open spec fn entry_paper(e: ArxivEntry, t: i64) -> PaperView {
    PaperView {
        id: None,
        title: e.title,
        abstract_text: Some(e.summary),
        arxiv_id: Some(e.arxiv_id),
        semantic_scholar_id: None,
        doi: Some(e.doi),
        pdf_url: Some(e.pdf_url),
        local_pdf_path: None,
        publication_date: None,
        venue: None,
        citation_count: 0,
        authors: Seq::empty(),
        created_at: t,
        updated_at: t,
    }
}

/// What is written between `<tag>` and `</tag>` is read back: when the
/// text before holds no `<tag>` (also none that runs into the tag written)
/// and the text written holds no `</tag>`.
pub proof fn lemma_tag_text_reads_back(pre: Seq<char>, tag: Seq<char>, body: Seq<char>, post: Seq<char>)
    requires
        forall|j: int| 0 <= j < pre.len() ==> !occurs_at(
            pre + open_tag(tag) + body + close_tag(tag) + post,
            open_tag(tag),
            j,
        ),
        forall|j: int|
            pre.len() + open_tag(tag).len() <= j < pre.len() + open_tag(tag).len() + body.len()
                ==> !#[trigger] occurs_at(
                pre + open_tag(tag) + body + close_tag(tag) + post,
                close_tag(tag),
                j,
            ),
    ensures
        tag_text(pre + open_tag(tag) + body + close_tag(tag) + post, tag) == Some(body),
{
    let h = pre + open_tag(tag) + body + close_tag(tag) + post;
    let o = open_tag(tag);
    let c = close_tag(tag);
    let cs: int = (pre.len() + o.len()) as int;
    assert(h.subrange(pre.len() as int, cs) =~= o);
    lemma_find_is(h, o, 0, pre.len() as int);
    assert(h.subrange(cs + body.len(), cs + body.len() + c.len()) =~= c);
    lemma_find_is(h, c, cs, cs + body.len());
    assert(h.subrange(cs, cs + body.len()) =~= body);
}

/// `<tag>` or `</tag>`.
fn tag_chars(tag: &str, closing: bool) -> (r: Vec<char>)
    ensures
        r@ == if closing {
            close_tag(tag@)
        } else {
            open_tag(tag@)
        },
{
    let mut r: Vec<char> = Vec::new();
    r.push('<');
    if closing {
        r.push('/');
    }
    let mut t = chars_of(tag);
    r.append(&mut t);
    r.push('>');
    proof {
        if closing {
            assert(r@ =~= close_tag(tag@));
        } else {
            assert(r@ =~= open_tag(tag@));
        }
    }
    r
}

/// The text between the first `<tag>` of `xml` and the first `</tag>`
/// after it.
pub fn extract_tag(xml: &[char], tag: &str) -> (r: Option<Vec<char>>)
    ensures
        match r {
            Some(v) => tag_text(xml@, tag@) == Some(v@),
            None => tag_text(xml@, tag@) is None,
        },
{
    let open = tag_chars(tag, false);
    let close = tag_chars(tag, true);
    match find_chars(xml, open.as_slice(), 0) {
        None => None,
        Some(start) => {
            proof {
                lemma_find_from(xml@, open@, 0);
            }
            let content = start + open.len();
            match find_chars(xml, close.as_slice(), content) {
                None => None,
                Some(end) => {
                    proof {
                        lemma_find_from(xml@, close@, content as int);
                    }
                    Some(copy_range(xml, content, end))
                },
            }
        },
    }
}

/// Whether `p` stands somewhere in `h`.
fn contains_chars(h: &[char], p: &str) -> (r: bool)
    ensures
        r == contains_seq(h@, p@),
{
    let pv = chars_of(p);
    find_chars(h, pv.as_slice(), 0).is_some()
}

/// The address a piece of the feed links its PDF to, if it does.
pub fn pdf_href_of(seg: &[char]) -> (r: Option<Vec<char>>)
    ensures
        match r {
            Some(v) => pdf_href(seg@) == Some(v@),
            None => pdf_href(seg@) is None,
        },
{
    if contains_chars(seg, "title=\"pdf\"") || contains_chars(seg, "type=\"application/pdf\"") {
        let href = chars_of("href=\"");
        let quote = chars_of("\"");
        proof {
            reveal_strlit("href=\"");
            assert(href@.len() == 6);
        }
        match find_chars(seg, href.as_slice(), 0) {
            Some(h) => {
                proof {
                    lemma_find_from(seg@, href@, 0);
                }
                match find_chars(seg, quote.as_slice(), h + 6) {
                    Some(e) => {
                        proof {
                            lemma_find_from(seg@, quote@, h + 6);
                        }
                        Some(copy_range(seg, h + 6, e))
                    },
                    None => None,
                }
            },
            None => None,
        }
    } else {
        None
    }
}

proof fn lemma_first_pdf_href_cons(a: Seq<char>, rest: Seq<Seq<char>>)
    ensures
        first_pdf_href(seq![a] + rest) == match pdf_href(a) {
            Some(u) => Some(u),
            None => first_pdf_href(rest),
        },
{
    let s = seq![a] + rest;
    assert(s[0] == a);
    assert(s.drop_first() =~= rest);
}

/// The PDF address of an entry, if it has one.
pub fn extract_pdf_link(xml: &[char]) -> (r: Option<Vec<char>>)
    ensures
        match r {
            Some(v) => pdf_link(xml@) == Some(v@),
            None => pdf_link(xml@) is None,
        },
{
    let link = chars_of("<link ");
    proof {
        reveal_strlit("<link ");
    }
    let mut pos: usize = 0;
    loop
        invariant
            link@ == "<link "@,
            link@.len() == 6,
            pos <= xml@.len(),
            pdf_link(xml@) == first_pdf_href(split_from(xml@, link@, pos as int)),
        decreases xml@.len() - pos,
    {
        proof {
            lemma_split_step(xml@, link@, pos as int);
        }
        match find_chars(xml, link.as_slice(), pos) {
            Some(i) => {
                let seg = copy_range(xml, pos, i);
                proof {
                    lemma_first_pdf_href_cons(seg@, split_from(xml@, link@, i + 6));
                }
                match pdf_href_of(seg.as_slice()) {
                    Some(u) => {
                        return Some(u);
                    },
                    None => {},
                }
                pos = i + 6;
            },
            None => {
                let seg = copy_range(xml, pos, xml.len());
                proof {
                    lemma_first_pdf_href_cons(seg@, Seq::empty());
                    assert(seq![seg@] + Seq::<Seq<char>>::empty() =~= seq![seg@]);
                    assert(first_pdf_href(Seq::<Seq<char>>::empty()) is None);
                }
                return pdf_href_of(seg.as_slice());
            },
        }
    }
}

/// The characters of an optional value, or none.
fn or_empty_chars(o: Option<Vec<char>>) -> (r: Vec<char>)
    ensures
        r@ == or_empty(match o {
            Some(v) => Some(v@),
            None => None,
        }),
{
    match o {
        Some(v) => v,
        None => Vec::new(),
    }
}

/// The arXiv id in an abstract page address, or nothing.
fn arxiv_id_from(id: &[char]) -> (r: Vec<char>)
    ensures
        r@ == arxiv_id_of(id@),
{
    let http = chars_of("http://arxiv.org/abs/");
    match strip_prefix(id, http.as_slice()) {
        Some(s) => s,
        None => {
            let https = chars_of("https://arxiv.org/abs/");
            or_empty_chars(strip_prefix(id, https.as_slice()))
        },
    }
}

/// The paper that the text of one `<entry>` element describes, if it has
/// a title and an id.
pub fn parse_entry(xml: &[char]) -> (r: Option<Paper>)
    ensures
        match r {
            Some(p) => entry_of(xml@) matches Some(e) && p@ == entry_paper(e, p.created_at),
            None => entry_of(xml@) is None,
        },
{
    let title = match extract_tag(xml, "title") {
        Some(t) => t,
        None => {
            return None;
        },
    };
    let summary = or_empty_chars(extract_tag(xml, "summary"));
    let id = match extract_tag(xml, "id") {
        Some(i) => i,
        None => {
            return None;
        },
    };
    let doi = or_empty_chars(extract_tag(xml, "arxiv:doi"));
    let arxiv_id = arxiv_id_from(id.as_slice());
    let pdf_url = or_empty_chars(extract_pdf_link(xml));
    let t = trim(title.as_slice());
    let s = trim(summary.as_slice());
    let p = Paper::new(string_of(t.as_slice())).with_abstract(string_of(s.as_slice())).with_arxiv_id(
        string_of(arxiv_id.as_slice()),
    ).with_doi(string_of(doi.as_slice())).with_pdf_url(string_of(pdf_url.as_slice()));
    proof {
        let e = entry_of(xml@)->0;
        assert(p.authors@.len() == 0);
        assert(p@.authors =~= Seq::<crate::models::AuthorView>::empty());
        assert(p@ == entry_paper(e, p.created_at));
    }
    Some(p)
}

proof fn lemma_entries_cons(a: Seq<char>, rest: Seq<Seq<char>>)
    ensures
        entries_of_pieces(seq![a] + rest) == match entry_of_piece(a) {
            Some(e) => seq![e] + entries_of_pieces(rest),
            None => entries_of_pieces(rest),
        },
{
    let s = seq![a] + rest;
    assert(s[0] == a);
    assert(s.drop_first() =~= rest);
}

/// The paper of a piece that follows an `<entry>`, if it has one.
fn paper_of_piece(seg: &[char]) -> (r: Option<Paper>)
    ensures
        match r {
            Some(p) => entry_of_piece(seg@) matches Some(e) && p@ == entry_paper(e, p.created_at),
            None => entry_of_piece(seg@) is None,
        },
{
    let end = chars_of("</entry>");
    match find_chars(seg, end.as_slice(), 0) {
        Some(e) => {
            proof {
                lemma_find_from(seg@, end@, 0);
            }
            let body = copy_range(seg, 0, e);
            parse_entry(body.as_slice())
        },
        None => None,
    }
}

/// The papers of an arXiv API answer, one for each entry that has a title
/// and an id, in the order of the feed.
pub fn parse_feed(xml: &str) -> (r: Vec<Paper>)
    ensures
        r@.len() == feed_entries(xml@).len(),
        forall|i: int|
            0 <= i < r@.len() ==> #[trigger] r@[i]@ == entry_paper(
                feed_entries(xml@)[i],
                r@[i].created_at,
            ),
{
    let h = chars_of(xml);
    let entry = chars_of("<entry>");
    proof {
        reveal_strlit("<entry>");
    }
    let mut papers: Vec<Paper> = Vec::new();
    let ghost whole = feed_entries(xml@);
    proof {
        lemma_split_step(h@, entry@, 0);
    }
    let mut pos: usize = match find_chars(h.as_slice(), entry.as_slice(), 0) {
        Some(i) => {
            assert(split_from(h@, entry@, 0).drop_first() =~= split_from(h@, entry@, i + 7));
            i + 7
        },
        None => {
            assert(split_from(h@, entry@, 0).drop_first() =~= Seq::<Seq<char>>::empty());
            return papers;
        },
    };
    let ghost mut done: Seq<ArxivEntry> = Seq::empty();
    loop
        invariant
            entry@ == "<entry>"@,
            entry@.len() == 7,
            pos <= h@.len(),
            h@ == xml@,
            whole == feed_entries(xml@),
            whole == done + entries_of_pieces(split_from(h@, entry@, pos as int)),
            papers@.len() == done.len(),
            forall|i: int|
                0 <= i < papers@.len() ==> #[trigger] papers@[i]@ == entry_paper(
                    done[i],
                    papers@[i].created_at,
                ),
        decreases h@.len() - pos,
    {
        proof {
            lemma_split_step(h@, entry@, pos as int);
        }
        let next = find_chars(h.as_slice(), entry.as_slice(), pos);
        let stop = next.is_none();
        let end = match next {
            Some(i) => i,
            None => h.len(),
        };
        let seg = copy_range(h.as_slice(), pos, end);
        let ghost rest: Seq<Seq<char>> = match next {
            Some(i) => split_from(h@, entry@, i + 7),
            None => Seq::empty(),
        };
        proof {
            lemma_entries_cons(seg@, rest);
            assert(split_from(h@, entry@, pos as int) =~= seq![seg@] + rest);
            assert(entries_of_pieces(Seq::<Seq<char>>::empty()) =~= Seq::<ArxivEntry>::empty());
        }
        match paper_of_piece(seg.as_slice()) {
            Some(p) => {
                let ghost e = entry_of_piece(seg@)->0;
                papers.push(p);
                proof {
                    assert(done.push(e) + entries_of_pieces(rest) =~= done + (seq![e] + entries_of_pieces(rest)));
                    done = done.push(e);
                }
            },
            None => {},
        }
        if stop {
            assert(done + Seq::<ArxivEntry>::empty() =~= done);
            return papers;
        }
        pos = end + 7;
    }
}

} // verus!
