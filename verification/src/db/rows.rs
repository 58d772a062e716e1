//! Rows of the `papers` and `authors` tables as plain values, and how
//! they become papers and authors and back.
use vstd::prelude::*;

use crate::models::{copy_opt, with_id, opt_view, Author, AuthorView, Paper, PaperView};

verus! {

/// A row of the `papers` table; times in microseconds since the Unix epoch.
pub struct PaperRow {
    pub id: i64,
    pub title: String,
    pub abstract_text: Option<String>,
    pub arxiv_id: Option<String>,
    pub semantic_scholar_id: Option<String>,
    pub doi: Option<String>,
    pub pdf_url: Option<String>,
    pub local_pdf_path: Option<String>,
    pub publication_date: Option<String>,
    pub venue: Option<String>,
    pub citation_count: i64,
    pub created_at: i64,
    pub updated_at: i64,
}

/// A row of the `authors` table.
pub struct AuthorRow {
    pub id: i64,
    pub name: String,
    pub semantic_scholar_id: Option<String>,
}

/// The paper a row holds, with these authors.
pub open spec fn row_paper(row: PaperRow, authors: Seq<AuthorView>) -> PaperView {
    PaperView {
        id: Some(row.id),
        title: row.title@,
        abstract_text: opt_view(row.abstract_text),
        arxiv_id: opt_view(row.arxiv_id),
        semantic_scholar_id: opt_view(row.semantic_scholar_id),
        doi: opt_view(row.doi),
        pdf_url: opt_view(row.pdf_url),
        local_pdf_path: opt_view(row.local_pdf_path),
        publication_date: opt_view(row.publication_date),
        venue: opt_view(row.venue),
        citation_count: row.citation_count,
        authors,
        created_at: row.created_at,
        updated_at: row.updated_at,
    }
}

/// The author a row holds; no ORCID is stored.
pub open spec fn row_author(row: AuthorRow) -> AuthorView {
    AuthorView {
        id: Some(row.id),
        name: row.name@,
        semantic_scholar_id: opt_view(row.semantic_scholar_id),
        orcid: None,
    }
}

/// The paper a row holds, with these authors.
pub fn model_to_paper(model: PaperRow, authors: Vec<Author>) -> (p: Paper)
    ensures
        p@ == row_paper(model, authors@.map_values(|a: Author| a@)),
{
    Paper {
        id: Some(model.id),
        title: model.title,
        abstract_text: model.abstract_text,
        arxiv_id: model.arxiv_id,
        semantic_scholar_id: model.semantic_scholar_id,
        doi: model.doi,
        pdf_url: model.pdf_url,
        local_pdf_path: model.local_pdf_path,
        publication_date: model.publication_date,
        venue: model.venue,
        citation_count: model.citation_count,
        authors,
        created_at: model.created_at,
        updated_at: model.updated_at,
    }
}

/// The author a row holds.
pub fn author_from_row(row: AuthorRow) -> (a: Author)
    ensures
        a@ == row_author(row),
{
    Author { id: Some(row.id), name: row.name, semantic_scholar_id: row.semantic_scholar_id, orcid: None }
}

/// The papers that rows of papers and their authors hold, in order.
pub fn rows_to_papers(rows: Vec<(PaperRow, Vec<AuthorRow>)>) -> (r: Vec<Paper>)
    ensures
        r@.len() == rows@.len(),
        forall|i: int|
            0 <= i < r@.len() ==> #[trigger] r@[i]@ == row_paper(
                rows@[i].0,
                rows@[i].1@.map_values(|a: AuthorRow| row_author(a)),
            ),
{
    let ghost rv = rows@;
    let mut r: Vec<Paper> = Vec::new();
    for pair in it: rows
        invariant
            it.seq() == rv,
            r@.len() == it.index(),
            forall|i: int|
                0 <= i < r@.len() ==> #[trigger] r@[i]@ == row_paper(
                    rv[i].0,
                    rv[i].1@.map_values(|a: AuthorRow| row_author(a)),
                ),
    {
        let (row, author_rows) = pair;
        let ghost arv = author_rows@;
        let mut authors: Vec<Author> = Vec::new();
        for a in ait: author_rows
            invariant
                ait.seq() == arv,
                authors@.len() == ait.index(),
                forall|j: int| 0 <= j < authors@.len() ==> #[trigger] authors@[j]@ == row_author(arv[j]),
        {
            authors.push(author_from_row(a));
        }
        let p = model_to_paper(row, authors);
        assert(p@.authors =~= arv.map_values(|a: AuthorRow| row_author(a)));
        r.push(p);
    }
    r
}

/// A paper reads back as it was stored: the row written for it (under the
/// placeholder id 0), once the database has given it the id `k`, holds the
/// paper with that id.
pub proof fn lemma_stored_paper_reads_back(paper: Paper, row: PaperRow, k: i64)
    requires
        row_paper(row, paper@.authors) == with_id(paper@, 0),
    ensures
        row_paper(PaperRow { id: k, ..row }, paper@.authors) == with_id(paper@, k),
{
}

/// The row that stores a new paper: its fields, under an id the database
/// chooses (here 0).
pub fn new_row(paper: &Paper) -> (row: PaperRow)
    ensures
        row_paper(row, paper@.authors) == with_id(paper@, 0),
{
    PaperRow {
        id: 0,
        title: paper.title.clone(),
        abstract_text: copy_opt(&paper.abstract_text),
        arxiv_id: copy_opt(&paper.arxiv_id),
        semantic_scholar_id: copy_opt(&paper.semantic_scholar_id),
        doi: copy_opt(&paper.doi),
        pdf_url: copy_opt(&paper.pdf_url),
        local_pdf_path: copy_opt(&paper.local_pdf_path),
        publication_date: copy_opt(&paper.publication_date),
        venue: copy_opt(&paper.venue),
        citation_count: paper.citation_count,
        created_at: paper.created_at,
        updated_at: paper.updated_at,
    }
}

/// The row that updates a stored paper: the paper needs an id; it is
/// stamped as updated at `now`.
pub fn update_row(paper: &Paper, now: i64) -> (r: Result<PaperRow, String>)
    ensures
        match paper.id {
            Some(id) => r matches Ok(row) && row_paper(row, paper@.authors) == (PaperView {
                updated_at: now,
                ..paper@
            }),
            None => r matches Err(m) && m@ == "Paper id required"@,
        },
{
    match paper.id {
        None => Err(crate::text::string_of_str("Paper id required")),
        Some(id) => {
            Ok(PaperRow {
                id,
                title: paper.title.clone(),
                abstract_text: copy_opt(&paper.abstract_text),
                arxiv_id: copy_opt(&paper.arxiv_id),
                semantic_scholar_id: copy_opt(&paper.semantic_scholar_id),
                doi: copy_opt(&paper.doi),
                pdf_url: copy_opt(&paper.pdf_url),
                local_pdf_path: copy_opt(&paper.local_pdf_path),
                publication_date: copy_opt(&paper.publication_date),
                venue: copy_opt(&paper.venue),
                citation_count: paper.citation_count,
                created_at: paper.created_at,
                updated_at: now,
            })
        },
    }
}

/// The Semantic Scholar id an author is looked up by before being stored:
/// present and not empty.
pub fn author_lookup_key(author: &Author) -> (r: Option<&String>)
    ensures
        match author.semantic_scholar_id {
            Some(s) => if s@.len() > 0 {
                r == Some(&s)
            } else {
                r is None
            },
            None => r is None,
        },
{
    match &author.semantic_scholar_id {
        Some(s) => {
            if s.as_str().is_empty() {
                None
            } else {
                Some(s)
            }
        },
        None => None,
    }
}

/// Microseconds in a day.
pub const DAY_MICROS: i64 = 86_400_000_000;

/// The moment `days` days before `now` (both in microseconds since the
/// Unix epoch): papers created since then are recent.
pub fn recent_cutoff(now: i64, days: i64) -> (r: i64)
    requires
        i64::MIN <= now - days * DAY_MICROS <= i64::MAX,
    ensures
        r == now - days * DAY_MICROS,
{
    let wide: i128 = (now as i128) - (days as i128) * (DAY_MICROS as i128);
    wide as i64
}

} // verus!
