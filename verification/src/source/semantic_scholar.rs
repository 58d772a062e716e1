//! The Semantic Scholar source: its request addresses and how its answers
//! become papers and authors.
use vstd::prelude::*;

use super::arxiv::text_or;
use super::arxiv_feed::or_empty;
use super::{
    http_client, proxy_url_accepted, push_url_encoded, url_encoded, HttpClient, SearchParams, SearchResult,
    SourceCapabilities, SourceConfig, SourceError, SourceKind,
};
use crate::models::{opt_view, Author, AuthorView, Paper, PaperView};
use crate::text::{
    chars_of, decimal, find_chars, find_from, push_decimal, push_text, string_of, string_of_str, strip_prefix,
    strip_prefix_seq,
};

verus! {

/// The address of the Semantic Scholar graph API.
pub open spec fn ss_api_url() -> Seq<char> {
    "https://api.semanticscholar.org/graph/v1"@
}

/// The fields asked for each paper.
pub open spec fn paper_fields() -> Seq<char> {
    "paperId,title,abstract,year,venue,citationCount,externalIds,authors,openAccessPdf"@
}

/// A paper as the API describes it.
pub struct SsPaper {
    pub paper_id: String,
    pub title: String,
    pub abstract_text: Option<String>,
    pub year: Option<i64>,
    pub venue: Option<String>,
    pub citation_count: Option<i64>,
    pub external_ids: Option<SsExternalIds>,
    pub authors: Vec<SsAuthor>,
    pub open_access_pdf: Option<SsOpenAccess>,
}

/// The identifiers of a paper elsewhere.
pub struct SsExternalIds {
    pub doi: Option<String>,
    pub arxiv_id: Option<String>,
}

/// An author as the API describes it.
pub struct SsAuthor {
    pub author_id: Option<String>,
    pub name: String,
}

/// Where a paper can be read freely.
pub struct SsOpenAccess {
    pub pdf_url: Option<String>,
}

/// The answer to a search.
pub struct SsSearchResponse {
    pub data: Vec<SsPaper>,
    pub total: Option<i64>,
}

/// The answer to a request for the papers citing a paper.
pub struct SsCitationsResponse {
    pub data: Vec<SsCitation>,
}

/// One citing paper, if the API knows it.
pub struct SsCitation {
    pub citing_paper: Option<SsLinkedPaper>,
}

/// The answer to a request for the papers a paper cites.
pub struct SsReferencesResponse {
    pub data: Vec<SsReference>,
}

/// One cited paper, if the API knows it.
pub struct SsReference {
    pub cited_paper: Option<SsLinkedPaper>,
}

/// A paper at the other end of a citation.
pub struct SsLinkedPaper {
    pub paper_id: String,
    pub title: Option<String>,
    pub authors: Vec<SsAuthor>,
}

/// The DOI the API gives for a paper.
pub open spec fn ss_doi(ss: SsPaper) -> Option<Seq<char>> {
    match ss.external_ids {
        Some(ext) => opt_view(ext.doi),
        None => None,
    }
}

/// The arXiv id the API gives for a paper.
pub open spec fn ss_arxiv_id(ss: SsPaper) -> Option<Seq<char>> {
    match ss.external_ids {
        Some(ext) => opt_view(ext.arxiv_id),
        None => None,
    }
}

/// The PDF address of a paper: its open-access address, else the arXiv
/// PDF address of its arXiv id.
pub open spec fn ss_pdf_url(ss: SsPaper) -> Option<Seq<char>> {
    match ss.open_access_pdf {
        Some(SsOpenAccess { pdf_url: Some(u) }) => Some(u@),
        _ => match ss_arxiv_id(ss) {
            Some(id) => Some("https://arxiv.org/pdf/"@ + id),
            None => None,
        },
    }
}

/// The paper the API describes, created and updated at `t`: its id,
/// title, abstract, DOI, arXiv id, PDF address and citation count, each
/// empty or zero where the API gives none; no authors.
pub open spec fn ss_paper_view(ss: SsPaper, t: i64) -> PaperView {
    PaperView {
        id: None,
        title: ss.title@,
        abstract_text: Some(or_empty(opt_view(ss.abstract_text))),
        arxiv_id: Some(or_empty(ss_arxiv_id(ss))),
        semantic_scholar_id: Some(ss.paper_id@),
        doi: Some(or_empty(ss_doi(ss))),
        pdf_url: Some(or_empty(ss_pdf_url(ss))),
        local_pdf_path: None,
        publication_date: None,
        venue: None,
        citation_count: match ss.citation_count {
            Some(c) => c,
            None => 0,
        },
        authors: Seq::empty(),
        created_at: t,
        updated_at: t,
    }
}

/// Where a paper's PDF is found: at its open-access address when the API
/// gives one; else, for a paper with an arXiv id, at the arXiv PDF address
/// of that id; else nowhere (an empty address).
pub proof fn lemma_pdf_address(ss: SsPaper, t: i64)
    ensures
        match ss.open_access_pdf {
            Some(SsOpenAccess { pdf_url: Some(u) }) => ss_paper_view(ss, t).pdf_url == Some(u@),
            _ => match ss.external_ids {
                Some(SsExternalIds { arxiv_id: Some(a), .. }) => ss_paper_view(ss, t).pdf_url == Some(
                    "https://arxiv.org/pdf/"@ + a@,
                ),
                _ => ss_paper_view(ss, t).pdf_url == Some(Seq::<char>::empty()),
            },
        },
{
}

/// The author the API describes: its name and Semantic Scholar id
/// (empty where the API gives none).
pub open spec fn ss_author_view(a: SsAuthor) -> AuthorView {
    AuthorView {
        id: None,
        name: a.name@,
        semantic_scholar_id: Some(or_empty(opt_view(a.author_id))),
        orcid: None,
    }
}

/// The paper at the other end of a citation, created and updated at `t`:
/// its title (empty where the API gives none) and Semantic Scholar id.
pub open spec fn linked_paper_view(l: SsLinkedPaper, t: i64) -> PaperView {
    PaperView {
        id: None,
        title: or_empty(opt_view(l.title)),
        abstract_text: None,
        arxiv_id: None,
        semantic_scholar_id: Some(l.paper_id@),
        doi: None,
        pdf_url: None,
        local_pdf_path: None,
        publication_date: None,
        venue: None,
        citation_count: 0,
        authors: Seq::empty(),
        created_at: t,
        updated_at: t,
    }
}

/// A paper at the other end of a citation paired with its authors, as the
/// API describes them.
pub open spec fn linked_pair_matches(pair: (Paper, Vec<Author>), l: SsLinkedPaper) -> bool {
    &&& pair.0@ == linked_paper_view(l, pair.0.created_at)
    &&& pair.1@.len() == l.authors@.len()
    &&& forall|j: int| 0 <= j < l.authors@.len() ==> #[trigger] pair.1@[j]@ == ss_author_view(l.authors@[j])
}

/// The papers known at the other ends of the citations, in order.
pub open spec fn known_citing(data: Seq<SsCitation>) -> Seq<SsLinkedPaper>
    decreases data.len(),
{
    if data.len() == 0 {
        Seq::empty()
    } else {
        match data.last().citing_paper {
            Some(l) => known_citing(data.drop_last()).push(l),
            None => known_citing(data.drop_last()),
        }
    }
}

/// The papers known at the other ends of the references, in order.
pub open spec fn known_cited(data: Seq<SsReference>) -> Seq<SsLinkedPaper>
    decreases data.len(),
{
    if data.len() == 0 {
        Seq::empty()
    } else {
        match data.last().cited_paper {
            Some(l) => known_cited(data.drop_last()).push(l),
            None => known_cited(data.drop_last()),
        }
    }
}

/// A decimal digit.
pub open spec fn is_digit(c: char) -> bool {
    '0' <= c && c <= '9'
}

/// Every character a decimal digit.
pub open spec fn all_digits(s: Seq<char>) -> bool {
    forall|i: int| 0 <= i < s.len() ==> is_digit(#[trigger] s[i])
}

/// An arXiv paper number: four digits, a dot, four or five digits.
pub open spec fn is_arxiv_number(s: Seq<char>) -> bool {
    &&& (s.len() == 9 || s.len() == 10)
    &&& all_digits(s.subrange(0, 4))
    &&& s[4] == '.'
    &&& all_digits(s.subrange(5, s.len() as int))
}

/// A bare arXiv id: a paper number, with or without a version (`v` and
/// digits).
pub open spec fn is_bare_arxiv_id(s: Seq<char>) -> bool {
    match find_from(s, seq!['v'], 0) {
        Some(k) => is_arxiv_number(s.subrange(0, k)) && k + 1 < s.len() && all_digits(
            s.subrange(k + 1, s.len() as int),
        ),
        None => is_arxiv_number(s),
    }
}

/// The address that looks a paper up by an identifier: a DOI written
/// behind `DOI:`, `doi:` or `https://doi.org/`, or starting with `10.`; an
/// arXiv id written behind `arXiv:` or `arxiv:`, as its abstract page
/// address, or bare; a Semantic Scholar id written behind `ss:`, or any
/// other text, as it stands.
pub open spec fn identifier_url(s: Seq<char>) -> Seq<char> {
    if let Some(d) = strip_prefix_seq(s, "DOI:"@) {
        paper_url("DOI:"@ + d)
    } else if let Some(d) = strip_prefix_seq(s, "doi:"@) {
        paper_url("DOI:"@ + d)
    } else if let Some(d) = strip_prefix_seq(s, "https://doi.org/"@) {
        paper_url("DOI:"@ + d)
    } else if strip_prefix_seq(s, "10."@) is Some {
        paper_url("DOI:"@ + s)
    } else if let Some(a) = strip_prefix_seq(s, "arXiv:"@) {
        paper_url("arXiv:"@ + a)
    } else if let Some(a) = strip_prefix_seq(s, "arxiv:"@) {
        paper_url("arXiv:"@ + a)
    } else if let Some(a) = strip_prefix_seq(s, "https://arxiv.org/abs/"@) {
        paper_url("arXiv:"@ + a)
    } else if let Some(a) = strip_prefix_seq(s, "http://arxiv.org/abs/"@) {
        paper_url("arXiv:"@ + a)
    } else if is_bare_arxiv_id(s) {
        paper_url("arXiv:"@ + s)
    } else if let Some(i) = strip_prefix_seq(s, "ss:"@) {
        paper_url(i)
    } else {
        paper_url(s)
    }
}

/// The address that asks for the paper `id` (an API paper id, or one
/// prefixed as `DOI:` or `arXiv:`).
pub open spec fn paper_url(id: Seq<char>) -> Seq<char> {
    ss_api_url() + "/paper/"@ + id + "?fields="@ + paper_fields()
}

/// The search address for `p`.
pub open spec fn ss_search_url(p: SearchParams) -> Seq<char> {
    ss_api_url() + "/paper/search?query="@ + url_encoded(p.query@) + "&offset="@ + decimal(
        p.offset as nat,
    ) + "&limit="@ + decimal(p.limit as nat) + "&fields="@ + paper_fields()
}

/// The address that asks for the `which` (`citations` or `references`) of
/// paper `id`, at most `limit` of them.
pub open spec fn links_url(id: Seq<char>, which: Seq<char>, limit: usize) -> Seq<char> {
    ss_api_url() + "/paper/"@ + id + "/"@ + which + "?fields=paperId,title,authors&limit="@
        + decimal(limit as nat)
}

/// Whether the characters of `s` from `a` up to `b` are all digits.
fn digits_between(s: &[char], a: usize, b: usize) -> (r: bool)
    requires
        a <= b <= s@.len(),
    ensures
        r == all_digits(s@.subrange(a as int, b as int)),
{
    let mut i = a;
    while i < b
        invariant
            a <= i <= b <= s@.len(),
            forall|j: int| a <= j < i ==> is_digit(s@[j]),
        decreases b - i,
    {
        if !('0' <= s[i] && s[i] <= '9') {
            assert(s@.subrange(a as int, b as int)[i - a] == s@[i as int]);
            return false;
        }
        i = i + 1;
    }
    assert forall|j: int| 0 <= j < s@.subrange(a as int, b as int).len() implies is_digit(
        #[trigger] s@.subrange(a as int, b as int)[j],
    ) by {
        assert(s@.subrange(a as int, b as int)[j] == s@[a + j]);
    }
    true
}

/// Whether the first `end` characters of `s` are an arXiv paper number.
fn arxiv_number(s: &[char], end: usize) -> (r: bool)
    requires
        end <= s@.len(),
    ensures
        r == is_arxiv_number(s@.subrange(0, end as int)),
{
    let ghost t = s@.subrange(0, end as int);
    if end != 9 && end != 10 {
        return false;
    }
    assert(t.subrange(0, 4) =~= s@.subrange(0, 4));
    assert(t.subrange(5, t.len() as int) =~= s@.subrange(5, end as int));
    digits_between(s, 0, 4) && s[4] == '.' && digits_between(s, 5, end)
}

/// Whether `s` is a bare arXiv id.
fn bare_arxiv_id(s: &[char]) -> (r: bool)
    ensures
        r == is_bare_arxiv_id(s@),
{
    let mut v: Vec<char> = Vec::new();
    v.push('v');
    assert(v@ =~= seq!['v']);
    match find_chars(s, v.as_slice(), 0) {
        Some(k) => arxiv_number(s, k) && k + 1 < s.len() && digits_between(s, k + 1, s.len()),
        None => {
            assert(s@.subrange(0, s@.len() as int) =~= s@);
            arxiv_number(s, s.len())
        },
    }
}

/// `s` without the prefix `p`, when `s` starts with `p`.
fn rest_after(s: &[char], p: &str) -> (r: Option<Vec<char>>)
    ensures
        match r {
            Some(v) => strip_prefix_seq(s@, p@) == Some(v@),
            None => strip_prefix_seq(s@, p@) is None,
        },
{
    let pv = chars_of(p);
    strip_prefix(s, pv.as_slice())
}

/// The Semantic Scholar source.
pub struct SemanticScholarSource {
    client: HttpClient,
    config: SourceConfig,
}

/// A copy of an optional string, or an empty string.
fn text_or_empty(o: Option<String>) -> (r: String)
    ensures
        r@ == or_empty(opt_view(o)),
{
    match o {
        Some(s) => s,
        None => String::new(),
    }
}

impl SemanticScholarSource {
    /// The HTTP client the source sends its requests with, with its
    /// settings.
    pub closed spec fn spec_http(&self) -> HttpClient {
        self.client
    }

    /// The HTTP client the source sends its requests with.
    pub open spec fn spec_client(&self) -> reqwest::Client {
        self.spec_http().spec_inner()
    }

    /// The configuration the source was made with.
    pub closed spec fn spec_config(&self) -> SourceConfig {
        self.config
    }

    /// A source with an HTTP client that waits `config.timeout` seconds and
    /// goes through `config.proxy` where one is given; an error of the
    /// client library becomes a network error.
    pub fn new(config: SourceConfig) -> (r: Result<SemanticScholarSource, SourceError>)
        ensures
            match r {
                Ok(s) => s.spec_config() == config && s.spec_http().timeout() == config.timeout
                    && s.spec_http().proxy() == opt_view(config.proxy),
                Err(e) => e is Network,
            },
            config.proxy matches Some(u) && !proxy_url_accepted(u@) ==> r is Err,
    {
        match http_client(&config) {
            Ok(client) => Ok(SemanticScholarSource { client, config }),
            Err(e) => Err(e),
        }
    }

    /// The HTTP client of the source.
    pub fn client(&self) -> (c: &reqwest::Client)
        ensures
            *c == self.spec_client(),
    {
        self.client.inner()
    }

    /// The configuration of the source.
    pub fn config(&self) -> (c: &SourceConfig)
        ensures
            *c == self.spec_config(),
    {
        &self.config
    }

    /// The kind of the source.
    pub fn kind(&self) -> (k: SourceKind)
        ensures
            k is SemanticScholar,
    {
        SourceKind::SemanticScholar
    }

    /// The name of the source.
    pub fn name(&self) -> (s: &'static str)
        ensures
            s@ == "Semantic Scholar"@,
    {
        "Semantic Scholar"
    }

    /// What the source can do: everything but give PDFs.
    pub fn capabilities(&self) -> (c: SourceCapabilities)
        ensures
            c == (SourceCapabilities {
                search: true,
                get_by_id: true,
                citations: true,
                references: true,
                authors: true,
                pdf_download: false,
            }),
    {
        SourceCapabilities {
            search: true,
            get_by_id: true,
            citations: true,
            references: true,
            authors: true,
            pdf_download: false,
        }
    }

    /// The paper the API describes.
    pub fn ss_to_paper(ss: SsPaper) -> (p: Paper)
        ensures
            p@ == ss_paper_view(ss, p.created_at),
    {
        let ghost g = ss;
        let (doi, arxiv_id) = match ss.external_ids {
            Some(ext) => (ext.doi, ext.arxiv_id),
            None => (None, None),
        };
        let from_oa = match ss.open_access_pdf {
            Some(oa) => oa.pdf_url,
            None => None,
        };
        let pdf_url = match from_oa {
            Some(u) => Some(u),
            None => match &arxiv_id {
                Some(id) => {
                    let mut u = String::new();
                    push_text(&mut u, "https://arxiv.org/pdf/");
                    push_text(&mut u, id.as_str());
                    Some(u)
                },
                None => None,
            },
        };
        let count = match ss.citation_count {
            Some(c) => c,
            None => 0,
        };
        let p = Paper::new(ss.title).with_semantic_scholar_id(ss.paper_id).with_abstract(
            text_or_empty(ss.abstract_text),
        ).with_doi(text_or_empty(doi)).with_arxiv_id(text_or_empty(arxiv_id)).with_pdf_url(
            text_or_empty(pdf_url),
        ).with_citation_count(count);
        proof {
            assert(p@.authors =~= Seq::<AuthorView>::empty());
            assert(p@ == ss_paper_view(g, p.created_at));
        }
        p
    }

    /// The result of a search that the API answered with `resp`: its
    /// papers in order, the total the API reports (as a `usize`), and more
    /// expected when the limit was reached.
    pub fn search_result(resp: SsSearchResponse, params: &SearchParams) -> (r: SearchResult)
        ensures
            r.papers@.len() == resp.data@.len(),
            forall|i: int|
                0 <= i < r.papers@.len() ==> #[trigger] r.papers@[i]@ == ss_paper_view(
                    resp.data@[i],
                    r.papers@[i].created_at,
                ),
            r.total == match resp.total {
                Some(t) => Some(t as usize),
                None => None,
            },
            r.has_more == (resp.data@.len() == params.limit),
    {
        let ghost data = resp.data@;
        let total = match resp.total {
            Some(t) => Some(t as usize),
            None => None,
        };
        let mut papers: Vec<Paper> = Vec::new();
        for ss in it: resp.data
            invariant
                it.seq() == data,
                papers@.len() == it.index(),
                forall|i: int|
                    0 <= i < papers@.len() ==> #[trigger] papers@[i]@ == ss_paper_view(
                        data[i],
                        papers@[i].created_at,
                    ),
        {
            papers.push(Self::ss_to_paper(ss));
        }
        let n = papers.len();
        SearchResult { total, has_more: n == params.limit, papers }
    }

    /// The author the API describes.
    fn ss_author(a: SsAuthor) -> (r: Author)
        ensures
            r@ == ss_author_view(a),
    {
        Author::new(a.name).with_semantic_scholar_id(text_or_empty(a.author_id))
    }

    /// A paper at the other end of a citation with its authors.
    fn linked_pair(l: SsLinkedPaper) -> (r: (Paper, Vec<Author>))
        ensures
            linked_pair_matches(r, l),
    {
        let ghost g = l;
        let paper = Paper::new(text_or_empty(l.title)).with_semantic_scholar_id(l.paper_id);
        let mut authors: Vec<Author> = Vec::new();
        for a in it: l.authors
            invariant
                it.seq() == g.authors@,
                authors@.len() == it.index(),
                forall|j: int| 0 <= j < authors@.len() ==> #[trigger] authors@[j]@ == ss_author_view(g.authors@[j]),
        {
            authors.push(Self::ss_author(a));
        }
        assert(paper@.authors =~= Seq::<AuthorView>::empty());
        (paper, authors)
    }

    /// The citing papers of an answer, with their authors, in order,
    /// leaving out citations whose paper the API does not know.
    pub fn citation_pairs(resp: SsCitationsResponse) -> (r: Vec<(Paper, Vec<Author>)>)
        ensures
            r@.len() == known_citing(resp.data@).len(),
            forall|i: int| 0 <= i < r@.len() ==> linked_pair_matches(#[trigger] r@[i], known_citing(resp.data@)[i]),
    {
        let ghost data = resp.data@;
        let mut r: Vec<(Paper, Vec<Author>)> = Vec::new();
        for c in it: resp.data
            invariant
                it.seq() == data,
                r@.len() == known_citing(data.take(it.index() as int)).len(),
                forall|i: int| 0 <= i < r@.len() ==> linked_pair_matches(#[trigger] r@[i], known_citing(data.take(it.index() as int))[i]),
        {
            let ghost k = it.index();
            proof {
                assert(data.take(k + 1).drop_last() =~= data.take(k as int));
                assert(data.take(k + 1).last() == data[k as int]);
            }
            match c.citing_paper {
                Some(l) => {
                    r.push(Self::linked_pair(l));
                },
                None => {},
            }
        }
        assert(data.take(data.len() as int) =~= data);
        r
    }

    /// The cited papers of an answer, with their authors, in order,
    /// leaving out references whose paper the API does not know.
    pub fn reference_pairs(resp: SsReferencesResponse) -> (r: Vec<(Paper, Vec<Author>)>)
        ensures
            r@.len() == known_cited(resp.data@).len(),
            forall|i: int| 0 <= i < r@.len() ==> linked_pair_matches(#[trigger] r@[i], known_cited(resp.data@)[i]),
    {
        let ghost data = resp.data@;
        let mut r: Vec<(Paper, Vec<Author>)> = Vec::new();
        for c in it: resp.data
            invariant
                it.seq() == data,
                r@.len() == known_cited(data.take(it.index() as int)).len(),
                forall|i: int| 0 <= i < r@.len() ==> linked_pair_matches(#[trigger] r@[i], known_cited(data.take(it.index() as int))[i]),
        {
            let ghost k = it.index();
            proof {
                assert(data.take(k + 1).drop_last() =~= data.take(k as int));
                assert(data.take(k + 1).last() == data[k as int]);
            }
            match c.cited_paper {
                Some(l) => {
                    r.push(Self::linked_pair(l));
                },
                None => {},
            }
        }
        assert(data.take(data.len() as int) =~= data);
        r
    }

    /// What fetching one paper came to: the paper, nothing where the API
    /// does not know it, or the error.
    pub fn lookup_result(fetched: Result<SsPaper, SourceError>) -> (r: Result<Option<Paper>, SourceError>)
        ensures
            match fetched {
                Ok(ss) => r matches Ok(Some(p)) && p@ == ss_paper_view(ss, p.created_at),
                Err(SourceError::NotFound) => r matches Ok(None),
                Err(e) => r == Err::<Option<Paper>, SourceError>(e),
            },
    {
        match fetched {
            Ok(ss) => Ok(Some(Self::ss_to_paper(ss))),
            Err(SourceError::NotFound) => Ok(None),
            Err(e) => Err(e),
        }
    }

    /// The search address for `params`.
    pub fn search_url(params: &SearchParams) -> (r: String)
        ensures
            r@ == ss_search_url(*params),
    {
        let mut r = String::new();
        push_text(&mut r, "https://api.semanticscholar.org/graph/v1");
        push_text(&mut r, "/paper/search?query=");
        push_url_encoded(&mut r, params.query.as_str());
        push_text(&mut r, "&offset=");
        push_decimal(&mut r, params.offset as u64);
        push_text(&mut r, "&limit=");
        push_decimal(&mut r, params.limit as u64);
        push_text(&mut r, "&fields=");
        push_text(&mut r, "paperId,title,abstract,year,venue,citationCount,externalIds,authors,openAccessPdf");
        assert(r@ =~= ss_search_url(*params));
        r
    }

    /// The address that asks for the paper with `prefix` and `id` (the API
    /// id with no prefix, or `DOI:` or `arXiv:`).
    fn prefixed_paper_url(prefix: &str, id: &str) -> (r: String)
        ensures
            r@ == paper_url(prefix@ + id@),
    {
        let mut r = String::new();
        push_text(&mut r, "https://api.semanticscholar.org/graph/v1");
        push_text(&mut r, "/paper/");
        push_text(&mut r, prefix);
        push_text(&mut r, id);
        push_text(&mut r, "?fields=");
        push_text(&mut r, "paperId,title,abstract,year,venue,citationCount,externalIds,authors,openAccessPdf");
        assert(r@ =~= paper_url(prefix@ + id@));
        r
    }

    /// The address that asks for the paper with API id `paper_id`.
    pub fn paper_by_id_url(paper_id: &str) -> (r: String)
        ensures
            r@ == paper_url(paper_id@),
    {
        let r = Self::prefixed_paper_url("", paper_id);
        proof {
            reveal_strlit("");
            assert(""@ + paper_id@ =~= paper_id@);
        }
        r
    }

    /// The address that asks for the paper with DOI `doi`.
    pub fn paper_by_doi_url(doi: &str) -> (r: String)
        ensures
            r@ == paper_url("DOI:"@ + doi@),
    {
        Self::prefixed_paper_url("DOI:", doi)
    }

    /// The address that asks for the paper with arXiv id `arxiv_id`.
    pub fn paper_by_arxiv_url(arxiv_id: &str) -> (r: String)
        ensures
            r@ == paper_url("arXiv:"@ + arxiv_id@),
    {
        Self::prefixed_paper_url("arXiv:", arxiv_id)
    }

    /// The address that looks a paper up by `identifier`.
    pub fn identifier_url(identifier: &str) -> (r: String)
        ensures
            r@ == identifier_url(identifier@),
    {
        let v = chars_of(identifier);
        let v = v.as_slice();
        if let Some(d) = rest_after(v, "DOI:") {
            return Self::paper_by_doi_url(string_of(d.as_slice()).as_str());
        }
        if let Some(d) = rest_after(v, "doi:") {
            return Self::paper_by_doi_url(string_of(d.as_slice()).as_str());
        }
        if let Some(d) = rest_after(v, "https://doi.org/") {
            return Self::paper_by_doi_url(string_of(d.as_slice()).as_str());
        }
        if rest_after(v, "10.").is_some() {
            return Self::paper_by_doi_url(identifier);
        }
        if let Some(a) = rest_after(v, "arXiv:") {
            return Self::paper_by_arxiv_url(string_of(a.as_slice()).as_str());
        }
        if let Some(a) = rest_after(v, "arxiv:") {
            return Self::paper_by_arxiv_url(string_of(a.as_slice()).as_str());
        }
        if let Some(a) = rest_after(v, "https://arxiv.org/abs/") {
            return Self::paper_by_arxiv_url(string_of(a.as_slice()).as_str());
        }
        if let Some(a) = rest_after(v, "http://arxiv.org/abs/") {
            return Self::paper_by_arxiv_url(string_of(a.as_slice()).as_str());
        }
        if bare_arxiv_id(v) {
            return Self::paper_by_arxiv_url(identifier);
        }
        if let Some(i) = rest_after(v, "ss:") {
            return Self::paper_by_id_url(string_of(i.as_slice()).as_str());
        }
        Self::paper_by_id_url(identifier)
    }

    /// The address that asks for `which` (`citations` or `references`) of
    /// a paper.
    fn links_url_of(paper_id: &str, which: &str, limit: usize) -> (r: String)
        ensures
            r@ == links_url(paper_id@, which@, limit),
    {
        let mut r = String::new();
        push_text(&mut r, "https://api.semanticscholar.org/graph/v1");
        push_text(&mut r, "/paper/");
        push_text(&mut r, paper_id);
        push_text(&mut r, "/");
        push_text(&mut r, which);
        push_text(&mut r, "?fields=paperId,title,authors&limit=");
        push_decimal(&mut r, limit as u64);
        assert(r@ =~= links_url(paper_id@, which@, limit));
        r
    }

    /// The address that asks for the papers citing `paper_id`, at most
    /// `limit`.
    pub fn citations_url(paper_id: &str, limit: usize) -> (r: String)
        ensures
            r@ == links_url(paper_id@, "citations"@, limit),
    {
        Self::links_url_of(paper_id, "citations", limit)
    }

    /// The address that asks for the papers `paper_id` cites, at most
    /// `limit`.
    pub fn references_url(paper_id: &str, limit: usize) -> (r: String)
        ensures
            r@ == links_url(paper_id@, "references"@, limit),
    {
        Self::links_url_of(paper_id, "references", limit)
    }

    /// The address the health check asks for.
    pub fn health_check_url() -> (r: String)
        ensures
            r@ == ss_api_url() + "/paper/search?query=test&limit=1&fields=paperId"@,
    {
        let mut r = String::new();
        push_text(&mut r, "https://api.semanticscholar.org/graph/v1");
        push_text(&mut r, "/paper/search?query=test&limit=1&fields=paperId");
        r
    }
}

} // verus!
