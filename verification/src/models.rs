//! Papers, authors and citation links.
use vstd::prelude::*;

verus! {

/// The characters of an optional string.
pub open spec fn opt_view(o: Option<String>) -> Option<Seq<char>> {
    match o {
        Some(s) => Some(s@),
        None => None,
    }
}

/// An author of a paper.
pub struct Author {
    pub id: Option<i64>,
    pub name: String,
    pub semantic_scholar_id: Option<String>,
    pub orcid: Option<String>,
}

/// What an author holds, as values.
pub struct AuthorView {
    pub id: Option<i64>,
    pub name: Seq<char>,
    pub semantic_scholar_id: Option<Seq<char>>,
    pub orcid: Option<Seq<char>>,
}

impl View for Author {
    type V = AuthorView;

    open spec fn view(&self) -> AuthorView {
        AuthorView {
            id: self.id,
            name: self.name@,
            semantic_scholar_id: opt_view(self.semantic_scholar_id),
            orcid: opt_view(self.orcid),
        }
    }
}

/// A copy of an optional string.
pub fn copy_opt(o: &Option<String>) -> (r: Option<String>)
    ensures
        r == *o,
{
    match o {
        Some(s) => Some(s.clone()),
        None => None,
    }
}

impl Clone for Author {
    fn clone(&self) -> (r: Self)
        ensures
            r == *self,
    {
        Author {
            id: self.id,
            name: self.name.clone(),
            semantic_scholar_id: copy_opt(&self.semantic_scholar_id),
            orcid: copy_opt(&self.orcid),
        }
    }
}

impl Author {
    /// An author with this name and nothing else known.
    pub fn new(name: String) -> (a: Author)
        ensures
            a.id is None,
            a.name == name,
            a.semantic_scholar_id is None,
            a.orcid is None,
    {
        Author { id: None, name, semantic_scholar_id: None, orcid: None }
    }

    /// The same author with its Semantic Scholar id set.
    pub fn with_semantic_scholar_id(self, id: String) -> (a: Author)
        ensures
            a == (Author { semantic_scholar_id: Some(id), ..self }),
    {
        Author { semantic_scholar_id: Some(id), ..self }
    }
}

/// A link from a citing paper to the paper it cites.
pub struct Citation {
    pub citing_paper_id: i64,
    pub cited_paper_id: i64,
}

/// A paper, with its identifiers at the sources, its authors, and the
/// moments (microseconds since the Unix epoch) it was created and updated.
pub struct Paper {
    pub id: Option<i64>,
    pub title: String,
    pub abstract_text: Option<String>,
    pub arxiv_id: Option<String>,
    pub semantic_scholar_id: Option<String>,
    pub doi: Option<String>,
    pub pdf_url: Option<String>,
    pub local_pdf_path: Option<String>,
    pub publication_date: Option<String>,
    pub venue: Option<String>,
    pub citation_count: i64,
    pub authors: Vec<Author>,
    pub created_at: i64,
    pub updated_at: i64,
}

/// What a paper holds, as values.
pub struct PaperView {
    pub id: Option<i64>,
    pub title: Seq<char>,
    pub abstract_text: Option<Seq<char>>,
    pub arxiv_id: Option<Seq<char>>,
    pub semantic_scholar_id: Option<Seq<char>>,
    pub doi: Option<Seq<char>>,
    pub pdf_url: Option<Seq<char>>,
    pub local_pdf_path: Option<Seq<char>>,
    pub publication_date: Option<Seq<char>>,
    pub venue: Option<Seq<char>>,
    pub citation_count: i64,
    pub authors: Seq<AuthorView>,
    pub created_at: i64,
    pub updated_at: i64,
}

impl View for Paper {
    type V = PaperView;

    open spec fn view(&self) -> PaperView {
        PaperView {
            id: self.id,
            title: self.title@,
            abstract_text: opt_view(self.abstract_text),
            arxiv_id: opt_view(self.arxiv_id),
            semantic_scholar_id: opt_view(self.semantic_scholar_id),
            doi: opt_view(self.doi),
            pdf_url: opt_view(self.pdf_url),
            local_pdf_path: opt_view(self.local_pdf_path),
            publication_date: opt_view(self.publication_date),
            venue: opt_view(self.venue),
            citation_count: self.citation_count,
            authors: self.authors@.map_values(|a: Author| a@),
            created_at: self.created_at,
            updated_at: self.updated_at,
        }
    }
}

/// The same paper with the id `k`.
pub open spec fn with_id(v: PaperView, k: i64) -> PaperView {
    PaperView { id: Some(k), ..v }
}

/// A copy of a list of authors.
pub fn copy_authors(v: &Vec<Author>) -> (r: Vec<Author>)
    ensures
        r@ == v@,
{
    let mut r: Vec<Author> = Vec::new();
    let mut i: usize = 0;
    while i < v.len()
        invariant
            i <= v@.len(),
            r@ == v@.subrange(0, i as int),
        decreases v.len() - i,
    {
        r.push(v[i].clone());
        proof {
            assert(v@.subrange(0, i + 1) =~= v@.subrange(0, i as int).push(v@[i as int]));
        }
        i = i + 1;
    }
    proof {
        assert(v@.subrange(0, v@.len() as int) =~= v@);
    }
    r
}

impl Clone for Paper {
    fn clone(&self) -> (r: Self)
        ensures
            r@ == self@,
    {
        Paper {
            id: self.id,
            title: self.title.clone(),
            abstract_text: copy_opt(&self.abstract_text),
            arxiv_id: copy_opt(&self.arxiv_id),
            semantic_scholar_id: copy_opt(&self.semantic_scholar_id),
            doi: copy_opt(&self.doi),
            pdf_url: copy_opt(&self.pdf_url),
            local_pdf_path: copy_opt(&self.local_pdf_path),
            publication_date: copy_opt(&self.publication_date),
            venue: copy_opt(&self.venue),
            citation_count: self.citation_count,
            authors: copy_authors(&self.authors),
            created_at: self.created_at,
            updated_at: self.updated_at,
        }
    }
}

/// Microseconds since the Unix epoch, now: `chrono::Utc::now` read through
/// `DateTime::timestamp_micros`. Nothing is claimed of the value: it is the
/// system clock's.
#[verifier::external_body]
pub(crate) fn now_micros() -> i64 {
    chrono::Utc::now().timestamp_micros()
}

/// A paper with this title and nothing else: no id, no identifiers, no
/// authors, no citations; created and updated at the same, current, moment.
pub open spec fn is_new_paper(p: Paper, title: String) -> bool {
    &&& p.id is None
    &&& p.title == title
    &&& p.abstract_text is None
    &&& p.arxiv_id is None
    &&& p.semantic_scholar_id is None
    &&& p.doi is None
    &&& p.pdf_url is None
    &&& p.local_pdf_path is None
    &&& p.publication_date is None
    &&& p.venue is None
    &&& p.citation_count == 0
    &&& p.authors@.len() == 0
    &&& p.created_at == p.updated_at
}

impl Paper {
    /// What a new paper with this title, made at `t`, holds.
    pub open spec fn new_view(title: Seq<char>, t: i64) -> PaperView {
        PaperView {
            id: None,
            title,
            abstract_text: None,
            arxiv_id: None,
            semantic_scholar_id: None,
            doi: None,
            pdf_url: None,
            local_pdf_path: None,
            publication_date: None,
            venue: None,
            citation_count: 0,
            authors: Seq::empty(),
            created_at: t,
            updated_at: t,
        }
    }

    /// A new paper with this title, created and updated at `now`.
    pub fn new_at(title: String, now: i64) -> (p: Paper)
        ensures
            is_new_paper(p, title),
            p@ == Paper::new_view(title@, now),
    {
        let p = Paper {
            id: None,
            title,
            abstract_text: None,
            arxiv_id: None,
            semantic_scholar_id: None,
            doi: None,
            pdf_url: None,
            local_pdf_path: None,
            publication_date: None,
            venue: None,
            citation_count: 0,
            authors: Vec::new(),
            created_at: now,
            updated_at: now,
        };
        assert(p@.authors =~= Seq::<AuthorView>::empty());
        p
    }

    /// A new paper with this title, stamped with the current time (the
    /// system clock's, read through `chrono`).
    pub fn new(title: String) -> (p: Paper)
        ensures
            is_new_paper(p, title),
            p@ == Paper::new_view(title@, p.created_at),
    {
        Paper::new_at(title, now_micros())
    }

    /// The same paper with its abstract set.
    pub fn with_abstract(self, text: String) -> (p: Paper)
        ensures
            p == (Paper { abstract_text: Some(text), ..self }),
    {
        Paper { abstract_text: Some(text), ..self }
    }

    /// The same paper with its arXiv id set.
    pub fn with_arxiv_id(self, id: String) -> (p: Paper)
        ensures
            p == (Paper { arxiv_id: Some(id), ..self }),
    {
        Paper { arxiv_id: Some(id), ..self }
    }

    /// The same paper with its Semantic Scholar id set.
    pub fn with_semantic_scholar_id(self, id: String) -> (p: Paper)
        ensures
            p == (Paper { semantic_scholar_id: Some(id), ..self }),
    {
        Paper { semantic_scholar_id: Some(id), ..self }
    }

    /// The same paper with its DOI set.
    pub fn with_doi(self, doi: String) -> (p: Paper)
        ensures
            p == (Paper { doi: Some(doi), ..self }),
    {
        Paper { doi: Some(doi), ..self }
    }

    /// The same paper with its PDF address set.
    pub fn with_pdf_url(self, url: String) -> (p: Paper)
        ensures
            p == (Paper { pdf_url: Some(url), ..self }),
    {
        Paper { pdf_url: Some(url), ..self }
    }

    /// The same paper with its citation count set.
    pub fn with_citation_count(self, count: i64) -> (p: Paper)
        ensures
            p == (Paper { citation_count: count, ..self }),
    {
        Paper { citation_count: count, ..self }
    }
}

} // verus!
