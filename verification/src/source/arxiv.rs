//! The arXiv source: its search addresses and how its answers become
//! papers.
use vstd::prelude::*;

use super::arxiv_feed::{entry_paper, feed_entries, parse_feed};
use super::{
    http_client, proxy_url_accepted, push_url_encoded, url_encoded, HttpClient, SearchParams, SearchResult,
    SourceCapabilities, SourceConfig, SourceError, SourceKind,
};
use crate::models::{opt_view, Paper};
use crate::text::{chars_of, decimal, push_decimal, push_text, string_of, string_of_str, strip_prefix, strip_prefix_seq};

verus! {

/// The address of the arXiv API.
pub open spec fn arxiv_api_url() -> Seq<char> {
    "http://export.arxiv.org/api/query"@
}

/// The text of an optional value, or `default`.
pub open spec fn text_or(o: Option<String>, default: Seq<char>) -> Seq<char> {
    match o {
        Some(s) => s@,
        None => default,
    }
}

/// The search address for a request: the query written as in a query
/// string, the offset, the limit, and the sort field and order
/// (`relevance` and `descending` where none is given).
pub open spec fn arxiv_search_url(p: SearchParams) -> Seq<char> {
    arxiv_api_url() + "?search_query="@ + url_encoded(p.query@) + "&start="@ + decimal(
        p.offset as nat,
    ) + "&max_results="@ + decimal(p.limit as nat) + "&sortBy="@ + text_or(
        p.sort_by,
        "relevance"@,
    ) + "&sortOrder="@ + text_or(p.sort_order, "descending"@)
}

/// The arXiv id an identifier names: the part after the abstract page
/// address where it is one (`https` tried first), else the identifier
/// itself.
pub open spec fn identifier_arxiv_id(s: Seq<char>) -> Seq<char> {
    match strip_prefix_seq(s, "https://arxiv.org/abs/"@) {
        Some(r) => r,
        None => match strip_prefix_seq(s, "http://arxiv.org/abs/"@) {
            Some(r) => r,
            None => s,
        },
    }
}

/// The arXiv source.
pub struct ArxivSource {
    client: HttpClient,
    config: SourceConfig,
}

impl ArxivSource {
    /// The HTTP client the source sends its requests with, with its
    /// settings.
    pub closed spec fn spec_http(&self) -> HttpClient {
        self.client
    }

    /// The HTTP client the source sends its requests with.
    pub open spec fn spec_client(&self) -> reqwest::Client {
        self.spec_http().spec_inner()
    }

    /// The configuration the source was made with.
    pub closed spec fn spec_config(&self) -> SourceConfig {
        self.config
    }

    /// A source with an HTTP client that waits `config.timeout` seconds and
    /// goes through `config.proxy` where one is given; an error of the
    /// client library becomes a network error.
    pub fn new(config: SourceConfig) -> (r: Result<ArxivSource, SourceError>)
        ensures
            match r {
                Ok(s) => s.spec_config() == config && s.spec_http().timeout() == config.timeout
                    && s.spec_http().proxy() == opt_view(config.proxy),
                Err(e) => e is Network,
            },
            config.proxy matches Some(u) && !proxy_url_accepted(u@) ==> r is Err,
    {
        match http_client(&config) {
            Ok(client) => Ok(ArxivSource { client, config }),
            Err(e) => Err(e),
        }
    }

    /// The HTTP client of the source.
    pub fn client(&self) -> (c: &reqwest::Client)
        ensures
            *c == self.spec_client(),
    {
        self.client.inner()
    }

    /// The configuration of the source.
    pub fn config(&self) -> (c: &SourceConfig)
        ensures
            *c == self.spec_config(),
    {
        &self.config
    }

    /// The kind of the source.
    pub fn kind(&self) -> (k: SourceKind)
        ensures
            k is Arxiv,
    {
        SourceKind::Arxiv
    }

    /// The name of the source.
    pub fn name(&self) -> (s: &'static str)
        ensures
            s@ == "arXiv"@,
    {
        "arXiv"
    }

    /// What the source can do: search, fetch by id and give PDFs; no
    /// citations, references or authors.
    pub fn capabilities(&self) -> (c: SourceCapabilities)
        ensures
            c == (SourceCapabilities {
                search: true,
                get_by_id: true,
                citations: false,
                references: false,
                authors: false,
                pdf_download: true,
            }),
    {
        SourceCapabilities {
            search: true,
            get_by_id: true,
            citations: false,
            references: false,
            authors: false,
            pdf_download: true,
        }
    }

    /// The search address for `params`.
    pub fn build_search_url(params: &SearchParams) -> (r: String)
        ensures
            r@ == arxiv_search_url(*params),
    {
        let mut r = String::new();
        push_text(&mut r, "http://export.arxiv.org/api/query");
        push_text(&mut r, "?search_query=");
        push_url_encoded(&mut r, params.query.as_str());
        push_text(&mut r, "&start=");
        push_decimal(&mut r, params.offset as u64);
        push_text(&mut r, "&max_results=");
        push_decimal(&mut r, params.limit as u64);
        push_text(&mut r, "&sortBy=");
        match &params.sort_by {
            Some(s) => push_text(&mut r, s.as_str()),
            None => push_text(&mut r, "relevance"),
        }
        push_text(&mut r, "&sortOrder=");
        match &params.sort_order {
            Some(s) => push_text(&mut r, s.as_str()),
            None => push_text(&mut r, "descending"),
        }
        assert(r@ =~= arxiv_search_url(*params));
        r
    }

    /// The papers of an answer of the arXiv API, one for each entry with a
    /// title and an id, in the order of the feed.
    pub fn parse_response(xml: &str) -> (r: Result<Vec<Paper>, SourceError>)
        ensures
            r matches Ok(papers) && papers@.len() == feed_entries(xml@).len() && forall|i: int|
                0 <= i < papers@.len() ==> #[trigger] papers@[i]@ == entry_paper(
                    feed_entries(xml@)[i],
                    papers@[i].created_at,
                ),
    {
        Ok(parse_feed(xml))
    }

    /// The result of a search whose answer was `xml`: its papers, their
    /// number as the total, and more expected when the limit was reached.
    pub fn search_result(xml: &str, params: &SearchParams) -> (r: SearchResult)
        ensures
            r.papers@.len() == feed_entries(xml@).len(),
            forall|i: int|
                0 <= i < r.papers@.len() ==> #[trigger] r.papers@[i]@ == entry_paper(
                    feed_entries(xml@)[i],
                    r.papers@[i].created_at,
                ),
            r.total == Some(r.papers@.len() as usize),
            r.has_more == (r.papers@.len() == params.limit),
    {
        let papers = parse_feed(xml);
        let n = papers.len();
        SearchResult { total: Some(n), has_more: n == params.limit, papers }
    }

    /// The search that fetches the paper with arXiv id `id`: the query
    /// `id:` followed by the id, at most one result.
    pub fn id_search_params(id: &str) -> (p: SearchParams)
        ensures
            p.query@ == "id:"@ + id@,
            p.limit == 1,
            p.offset == 0,
            p.sort_by is None,
            p.sort_order is None,
    {
        let mut q = String::new();
        push_text(&mut q, "id:");
        push_text(&mut q, id);
        SearchParams { query: q, limit: 1, offset: 0, sort_by: None, sort_order: None }
    }

    /// The arXiv id that `identifier` names.
    pub fn identifier_id(identifier: &str) -> (r: String)
        ensures
            r@ == identifier_arxiv_id(identifier@),
    {
        let v = chars_of(identifier);
        match strip_prefix(v.as_slice(), chars_of("https://arxiv.org/abs/").as_slice()) {
            Some(rest) => string_of(rest.as_slice()),
            None => match strip_prefix(v.as_slice(), chars_of("http://arxiv.org/abs/").as_slice()) {
                Some(rest) => string_of(rest.as_slice()),
                None => string_of_str(identifier),
            },
        }
    }

    /// The address the health check asks for.
    pub fn health_check_url() -> (r: String)
        ensures
            r@ == arxiv_api_url() + "?search_query=test&max_results=1"@,
    {
        let mut r = String::new();
        push_text(&mut r, "http://export.arxiv.org/api/query");
        push_text(&mut r, "?search_query=test&max_results=1");
        r
    }

    /// What asking arXiv for citations is answered.
    pub fn citations_unsupported() -> (e: SourceError)
        ensures
            e matches SourceError::Other(m) && m@ == "arXiv 不支持获取引用关系"@,
    {
        SourceError::Other(crate::text::string_of_str("arXiv 不支持获取引用关系"))
    }

    /// What asking arXiv for references is answered.
    pub fn references_unsupported() -> (e: SourceError)
        ensures
            e matches SourceError::Other(m) && m@ == "arXiv 不支持获取参考文献"@,
    {
        SourceError::Other(crate::text::string_of_str("arXiv 不支持获取参考文献"))
    }
}

} // verus!
