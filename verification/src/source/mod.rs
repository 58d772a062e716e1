//! Paper sources: what they are asked, what they answer, how their
//! requests are retried, and the arXiv and Semantic Scholar sources.
pub mod arxiv;
pub mod arxiv_feed;
pub mod retry;
pub mod semantic_scholar;

pub use arxiv::ArxivSource;
pub use semantic_scholar::SemanticScholarSource;

use vstd::prelude::*;

use crate::models::{opt_view, Paper};
use crate::text::{hex2, push_char, push_hex2};

verus! {

/// The sources a paper can come from.
pub enum SourceKind {
    Arxiv,
    SemanticScholar,
}

/// What a source can do.
pub struct SourceCapabilities {
    pub search: bool,
    pub get_by_id: bool,
    pub citations: bool,
    pub references: bool,
    pub authors: bool,
    pub pdf_download: bool,
}

/// Why a request to a source failed.
pub enum SourceError {
    Network(String),
    RateLimit { retry_after: Option<u64> },
    NotFound,
    Parse(String),
    Other(String),
}

/// How a source is reached: request timeout in seconds, optional proxy,
/// optional API key, number of attempts and the pause between them in
/// milliseconds.
pub struct SourceConfig {
    pub timeout: u64,
    pub proxy: Option<String>,
    pub api_key: Option<String>,
    pub max_retries: u32,
    pub retry_delay: u64,
}

/// A search request.
pub struct SearchParams {
    pub query: String,
    pub limit: usize,
    pub offset: usize,
    pub sort_by: Option<String>,
    pub sort_order: Option<String>,
}

impl Default for SearchParams {
    fn default() -> (p: SearchParams)
        ensures
            p.query@ == Seq::<char>::empty(),
            p.limit == 0,
            p.offset == 0,
            p.sort_by is None,
            p.sort_order is None,
    {
        SearchParams { query: String::new(), limit: 0, offset: 0, sort_by: None, sort_order: None }
    }
}

/// The answer to a search: the papers, the total the source reports, and
/// whether more may follow.
pub struct SearchResult {
    pub papers: Vec<Paper>,
    pub total: Option<usize>,
    pub has_more: bool,
}

#[verifier::external_type_specification]
#[verifier::external_body]
pub struct ExClient(reqwest::Client);

#[verifier::external_type_specification]
#[verifier::external_body]
pub struct ExClientBuilder(reqwest::ClientBuilder);

#[verifier::external_type_specification]
#[verifier::external_body]
pub struct ExProxy(reqwest::Proxy);

/// An HTTP client builder with the settings put on it: the request timeout
/// in seconds, and the proxy all traffic goes through, by its address, if
/// one was set (where none was, the client reads the system's proxy
/// settings when it is built).
pub struct HttpClientBuilder {
    builder: reqwest::ClientBuilder,
    timeout: Ghost<u64>,
    proxy: Ghost<Option<Seq<char>>>,
}

impl HttpClientBuilder {
    /// The request timeout, in seconds.
    pub closed spec fn timeout(&self) -> u64 {
        self.timeout@
    }

    /// The address of the proxy set, if one was.
    pub closed spec fn proxy(&self) -> Option<Seq<char>> {
        self.proxy@
    }
}

/// A proxy for all traffic, with the address it was made from.
pub struct HttpProxy {
    proxy: reqwest::Proxy,
    url: Ghost<Seq<char>>,
}

impl HttpProxy {
    /// The address the proxy was made from.
    pub closed spec fn url(&self) -> Seq<char> {
        self.url@
    }
}

/// An HTTP client with the settings it was built with.
pub struct HttpClient {
    client: reqwest::Client,
    timeout: Ghost<u64>,
    proxy: Ghost<Option<Seq<char>>>,
}

impl HttpClient {
    /// The client itself.
    pub closed spec fn spec_inner(&self) -> reqwest::Client {
        self.client
    }

    /// The request timeout, in seconds.
    pub closed spec fn timeout(&self) -> u64 {
        self.timeout@
    }

    /// The address of the proxy all traffic goes through, if one was set.
    pub closed spec fn proxy(&self) -> Option<Seq<char>> {
        self.proxy@
    }

    /// The client itself.
    pub fn inner(&self) -> (c: &reqwest::Client)
        ensures
            *c == self.spec_inner(),
    {
        &self.client
    }

    /// The client itself, taken out.
    pub fn into_inner(self) -> (c: reqwest::Client)
        ensures
            c == self.spec_inner(),
    {
        self.client
    }
}

/// Whether `reqwest::Proxy::all` accepts the address `url`, named: it does
/// when the text, or the text behind `http://`, parses as a URL with a
/// host.
pub uninterp spec fn proxy_url_accepted(url: Seq<char>) -> bool;

/// A client builder whose requests time out after `secs` seconds, with no
/// proxy set; `reqwest::Client::builder` then `ClientBuilder::timeout`.
#[verifier::external_body]
fn client_builder(secs: u64) -> (b: HttpClientBuilder)
    ensures
        b.timeout() == secs,
        b.proxy() is None,
{
    HttpClientBuilder {
        builder: reqwest::Client::builder().timeout(std::time::Duration::from_secs(secs)),
        timeout: Ghost(secs),
        proxy: Ghost(None),
    }
}

/// A proxy for all traffic through `url`, or the error's text;
/// `reqwest::Proxy::all`. Whether it accepts the address is named
/// (`proxy_url_accepted`); the error's text is not stated.
#[verifier::external_body]
fn proxy_all(url: &str) -> (r: Result<HttpProxy, String>)
    ensures
        r is Ok <==> proxy_url_accepted(url@),
        r matches Ok(p) ==> p.url() == url@,
{
    match reqwest::Proxy::all(url) {
        Ok(p) => Ok(HttpProxy { proxy: p, url: Ghost(url@) }),
        Err(e) => Err(e.to_string()),
    }
}

/// The builder with the proxy set (the system's proxy settings then no
/// longer apply), its timeout kept; `ClientBuilder::proxy`.
#[verifier::external_body]
fn with_proxy(b: HttpClientBuilder, p: HttpProxy) -> (r: HttpClientBuilder)
    ensures
        r.timeout() == b.timeout(),
        r.proxy() == Some(p.url()),
{
    HttpClientBuilder { builder: b.builder.proxy(p.proxy), timeout: b.timeout, proxy: Ghost(Some(p.url@)) }
}

/// The client the builder makes, with its settings, or the error's text;
/// `ClientBuilder::build`. When it fails (it reads the system's TLS and
/// proxy settings) is not stated.
#[verifier::external_body]
fn build_client(b: HttpClientBuilder) -> (r: Result<HttpClient, String>)
    ensures
        r matches Ok(c) ==> c.timeout() == b.timeout() && c.proxy() == b.proxy(),
{
    match b.builder.build() {
        Ok(c) => Ok(HttpClient { client: c, timeout: b.timeout, proxy: b.proxy }),
        Err(e) => Err(e.to_string()),
    }
}

/// The HTTP client of a source: requests time out after `config.timeout`
/// seconds and go through `config.proxy` where one is given. A proxy
/// address the HTTP library refuses, and a client it cannot build, are
/// network errors carrying its text.
pub fn http_client(config: &SourceConfig) -> (r: Result<HttpClient, SourceError>)
    ensures
        match r {
            Ok(c) => c.timeout() == config.timeout && c.proxy() == opt_view(config.proxy),
            Err(e) => e is Network,
        },
        config.proxy matches Some(u) && !proxy_url_accepted(u@) ==> r is Err,
{
    let mut builder = client_builder(config.timeout);
    match &config.proxy {
        Some(url) => match proxy_all(url.as_str()) {
            Ok(p) => {
                builder = with_proxy(builder, p);
            },
            Err(msg) => {
                return Err(SourceError::Network(msg));
            },
        },
        None => {},
    }
    match build_client(builder) {
        Ok(c) => Ok(c),
        Err(msg) => Err(SourceError::Network(msg)),
    }
}

/// `char::is_alphanumeric`, named: whether `c` is alphabetic or numeric in
/// Unicode's tables.
pub uninterp spec fn char_is_alphanumeric(c: char) -> bool;

/// An ASCII letter or digit.
pub open spec fn is_ascii_alnum(c: char) -> bool {
    ('a' <= c && c <= 'z') || ('A' <= c && c <= 'Z') || ('0' <= c && c <= '9')
}

/// Whether `c` is alphabetic or numeric: among ASCII characters the letters
/// and digits; beyond ASCII, as Unicode's tables say (named).
pub open spec fn alphanumeric(c: char) -> bool {
    if (c as u32) < 128 {
        is_ascii_alnum(c)
    } else {
        char_is_alphanumeric(c)
    }
}

/// Whether `c` is alphabetic or numeric; `char::is_alphanumeric`. Among
/// ASCII characters these are the letters and the digits.
#[verifier::external_body]
fn is_alphanumeric(c: char) -> (r: bool)
    ensures
        r == char_is_alphanumeric(c),
        (c as u32) < 128 ==> (r == is_ascii_alnum(c)),
{
    c.is_alphanumeric()
}

/// Whether `c` is alphabetic or numeric.
pub fn is_alphanumeric_char(c: char) -> (r: bool)
    ensures
        r == alphanumeric(c),
{
    is_alphanumeric(c)
}

/// A character that stands for itself in a query: alphanumeric, or one of
/// `-`, `_`, `.`, `~`.
pub open spec fn is_unreserved(c: char) -> bool {
    alphanumeric(c) || c == '-' || c == '_' || c == '.' || c == '~'
}

/// How a character is written in a query: itself if unreserved, else `%`
/// and its code point in upper-case hexadecimal, at least two digits.
pub open spec fn encode_char(c: char) -> Seq<char> {
    if is_unreserved(c) {
        seq![c]
    } else {
        seq!['%'] + hex2(c as u32 as nat)
    }
}

/// A text as written in a query: each character encoded in turn.
pub open spec fn url_encoded(s: Seq<char>) -> Seq<char>
    decreases s.len(),
{
    if s.len() == 0 {
        Seq::empty()
    } else {
        url_encoded(s.drop_last()) + encode_char(s.last())
    }
}

/// A text of unreserved characters is written in a query as it is.
pub proof fn lemma_url_encode_unreserved(s: Seq<char>)
    requires
        forall|i: int| 0 <= i < s.len() ==> is_unreserved(#[trigger] s[i]),
    ensures
        url_encoded(s) == s,
    decreases s.len(),
{
    if s.len() > 0 {
        let t = s.drop_last();
        assert forall|i: int| 0 <= i < t.len() implies is_unreserved(#[trigger] t[i]) by {
            assert(t[i] == s[i]);
        }
        lemma_url_encode_unreserved(t);
        assert(is_unreserved(s[s.len() - 1]));
        assert(t.push(s.last()) =~= s);
    }
}

/// Writing in a query keeps the text apart character by character: the
/// encoding of two texts one after the other is the encoding of the first
/// followed by that of the second.
pub proof fn lemma_url_encode_concat(a: Seq<char>, b: Seq<char>)
    ensures
        url_encoded(a + b) == url_encoded(a) + url_encoded(b),
    decreases b.len(),
{
    if b.len() == 0 {
        assert(a + b =~= a);
        assert(url_encoded(a) + url_encoded(b) =~= url_encoded(a));
    } else {
        lemma_url_encode_concat(a, b.drop_last());
        assert((a + b).drop_last() =~= a + b.drop_last());
        assert((a + b).last() == b.last());
        assert(url_encoded(a) + url_encoded(b) =~= url_encoded(a) + url_encoded(b.drop_last())
            + encode_char(b.last()));
    }
}

/// Appends `s` as written in a query to `out`.
pub fn push_url_encoded(out: &mut String, s: &str)
    ensures
        final(out)@ == old(out)@ + url_encoded(s@),
{
    let v = crate::text::chars_of(s);
    let mut i: usize = 0;
    while i < v.len()
        invariant
            v@ == s@,
            i <= v@.len(),
            out@ == old(out)@ + url_encoded(v@.subrange(0, i as int)),
        decreases v.len() - i,
    {
        let c = v[i];
        if is_alphanumeric(c) || c == '-' || c == '_' || c == '.' || c == '~' {
            push_char(out, c);
        } else {
            push_char(out, '%');
            push_hex2(out, c as u32);
        }
        proof {
            let pre = v@.subrange(0, i as int);
            let next = v@.subrange(0, i + 1);
            assert(next.drop_last() =~= pre);
            assert(next.last() == c);
            assert(url_encoded(next) == url_encoded(pre) + encode_char(c));
            if is_unreserved(c) {
                assert(out@ =~= old(out)@ + url_encoded(next));
            } else {
                assert(out@ =~= old(out)@ + url_encoded(next));
            }
        }
        i = i + 1;
    }
    proof {
        assert(v@.subrange(0, v@.len() as int) =~= v@);
    }
}

/// `s` as written in a query.
pub fn url_encode(s: &str) -> (r: String)
    ensures
        r@ == url_encoded(s@),
{
    let mut r = String::new();
    push_url_encoded(&mut r, s);
    assert(r@ =~= url_encoded(s@));
    r
}

} // verus!
