use argusflow::source::arxiv_feed::{extract_pdf_link, extract_tag, parse_entry, parse_feed};
use argusflow::source::retry::{FetchOutcome, Retry, RetryStep};
use argusflow::source::semantic_scholar::{
    SsAuthor, SsCitation, SsCitationsResponse, SsExternalIds, SsLinkedPaper, SsOpenAccess, SsPaper,
    SsReference, SsReferencesResponse, SsSearchResponse,
};
use argusflow::source::{
    http_client, is_alphanumeric_char, url_encode, ArxivSource, SearchParams, SemanticScholarSource,
    SourceConfig, SourceError, SourceKind,
};

fn config() -> SourceConfig {
    SourceConfig { timeout: 30, proxy: None, api_key: None, max_retries: 3, retry_delay: 1000 }
}

fn chars(s: &str) -> Vec<char> {
    s.chars().collect()
}

fn text(v: &[char]) -> String {
    v.iter().collect()
}

fn params(query: &str, limit: usize, offset: usize) -> SearchParams {
    SearchParams { query: query.to_string(), limit, offset, sort_by: None, sort_order: None }
}

const ENTRY_ONE: &str = "<entry>\n<id>http://arxiv.org/abs/1706.03762v5</id>\n<title>  Attention Is All You Need\n</title>\n<summary>\n  The dominant models.\n</summary>\n<arxiv:doi>10.1000/xyz</arxiv:doi>\n<link href=\"http://arxiv.org/abs/1706.03762v5\" rel=\"alternate\" type=\"text/html\"/>\n<link title=\"pdf\" href=\"http://arxiv.org/pdf/1706.03762v5\" rel=\"related\" type=\"application/pdf\"/>\n</entry>";

#[test]
fn url_encode_keeps_unreserved_characters() {
    assert_eq!(url_encode("abc-XYZ_09.~"), "abc-XYZ_09.~");
    assert_eq!(url_encode(""), "");
}

#[test]
fn url_encode_escapes_reserved_characters() {
    assert_eq!(url_encode("a b"), "a%20b");
    assert_eq!(url_encode("x/y&z=1"), "x%2Fy%26z%3D1");
    assert_eq!(url_encode("\n"), "%0A");
}

#[test]
fn url_encode_unicode_letters_and_symbols() {
    // Letters of any script are alphanumeric and stay; a symbol is written
    // with its code point.
    assert_eq!(url_encode("é中"), "é中");
    assert_eq!(url_encode("€"), "%20AC");
}

#[test]
fn url_encode_of_concatenation_is_concatenation_of_encodings() {
    let a = "deep learning";
    let b = "/graphs?";
    let joined = format!("{}{}", a, b);
    assert_eq!(url_encode(&joined), format!("{}{}", url_encode(a), url_encode(b)));
}

#[test]
fn alphanumeric_follows_unicode() {
    assert!(is_alphanumeric_char('a'));
    assert!(is_alphanumeric_char('7'));
    assert!(is_alphanumeric_char('ß'));
    assert!(!is_alphanumeric_char('-'));
    assert!(!is_alphanumeric_char(' '));
    assert!(!is_alphanumeric_char('%'));
    assert!(is_alphanumeric_char('Z'));
}

#[test]
fn arxiv_search_url_defaults() {
    let url = ArxivSource::build_search_url(&params("graph neural", 10, 20));
    assert_eq!(
        url,
        "http://export.arxiv.org/api/query?search_query=graph%20neural&start=20&max_results=10&sortBy=relevance&sortOrder=descending"
    );
}

#[test]
fn arxiv_search_url_with_sort() {
    let p = SearchParams {
        query: "cat:cs.AI".to_string(),
        limit: 5,
        offset: 0,
        sort_by: Some("submittedDate".to_string()),
        sort_order: Some("ascending".to_string()),
    };
    assert_eq!(
        ArxivSource::build_search_url(&p),
        "http://export.arxiv.org/api/query?search_query=cat%3Acs.AI&start=0&max_results=5&sortBy=submittedDate&sortOrder=ascending"
    );
}

#[test]
fn arxiv_id_search_and_health_check() {
    let p = ArxivSource::id_search_params("1706.03762");
    assert_eq!(p.query, "id:1706.03762");
    assert_eq!(p.limit, 1);
    assert_eq!(p.offset, 0);
    assert!(p.sort_by.is_none());
    assert_eq!(ArxivSource::health_check_url(), "http://export.arxiv.org/api/query?search_query=test&max_results=1");
}

#[test]
fn arxiv_unsupported_requests() {
    match ArxivSource::citations_unsupported() {
        SourceError::Other(m) => assert_eq!(m, "arXiv 不支持获取引用关系"),
        _ => panic!("wrong error"),
    }
    match ArxivSource::references_unsupported() {
        SourceError::Other(m) => assert_eq!(m, "arXiv 不支持获取参考文献"),
        _ => panic!("wrong error"),
    }
}

#[test]
fn extract_tag_reads_between_tags() {
    let xml = chars("<a><title>Hello</title><title>Second</title></a>");
    assert_eq!(extract_tag(&xml, "title").map(|v| text(&v)), Some("Hello".to_string()));
    assert_eq!(extract_tag(&xml, "summary"), None);
    let open_only = chars("<title>never closed");
    assert_eq!(extract_tag(&open_only, "title"), None);
}

#[test]
fn extract_tag_reads_back_what_was_written() {
    let body = "some <b>text</b> here";
    let xml = chars(&format!("prefix <note>{}</note> suffix", body));
    assert_eq!(extract_tag(&xml, "note").map(|v| text(&v)), Some(body.to_string()));
}

#[test]
fn extract_pdf_link_by_title_or_type() {
    let by_title = chars("<link title=\"pdf\" href=\"http://x/pdf/1\"/>");
    assert_eq!(extract_pdf_link(&by_title).map(|v| text(&v)), Some("http://x/pdf/1".to_string()));
    let by_type = chars("<link href=\"http://x/a\" type=\"text/html\"/><link type=\"application/pdf\" href=\"http://x/b\"/>");
    assert_eq!(extract_pdf_link(&by_type).map(|v| text(&v)), Some("http://x/b".to_string()));
    let none = chars("<link href=\"http://x/a\" type=\"text/html\"/>");
    assert_eq!(extract_pdf_link(&none), None);
}

#[test]
fn parse_entry_builds_paper() {
    let body = ENTRY_ONE.trim_start_matches("<entry>").trim_end_matches("</entry>");
    let p = parse_entry(&chars(body)).expect("entry");
    assert_eq!(p.title, "Attention Is All You Need");
    assert_eq!(p.abstract_text.as_deref(), Some("The dominant models."));
    assert_eq!(p.arxiv_id.as_deref(), Some("1706.03762v5"));
    assert_eq!(p.doi.as_deref(), Some("10.1000/xyz"));
    assert_eq!(p.pdf_url.as_deref(), Some("http://arxiv.org/pdf/1706.03762v5"));
    assert_eq!(p.id, None);
    assert_eq!(p.citation_count, 0);
    assert!(p.authors.is_empty());
}

#[test]
fn parse_entry_needs_title_and_id() {
    assert!(parse_entry(&chars("<id>http://arxiv.org/abs/1</id>")).is_none());
    assert!(parse_entry(&chars("<title>T</title>")).is_none());
    let p = parse_entry(&chars("<title>T</title><id>https://arxiv.org/abs/2101.1</id>")).expect("entry");
    assert_eq!(p.arxiv_id.as_deref(), Some("2101.1"));
    assert_eq!(p.abstract_text.as_deref(), Some(""));
    assert_eq!(p.doi.as_deref(), Some(""));
    assert_eq!(p.pdf_url.as_deref(), Some(""));
    let other = parse_entry(&chars("<title>T</title><id>urn:x</id>")).expect("entry");
    assert_eq!(other.arxiv_id.as_deref(), Some(""));
}

#[test]
fn parse_feed_reads_entries_in_order() {
    let feed = format!(
        "<feed><title>ArXiv Query</title>{}<entry><title>Second</title><id>http://arxiv.org/abs/2</id></entry><entry><summary>no title</summary></entry><entry><title>unclosed</title><id>x</id></feed>",
        ENTRY_ONE
    );
    let papers = parse_feed(&feed);
    assert_eq!(papers.len(), 2);
    assert_eq!(papers[0].title, "Attention Is All You Need");
    assert_eq!(papers[1].title, "Second");
    assert_eq!(papers[1].arxiv_id.as_deref(), Some("2"));
    assert!(parse_feed("<feed></feed>").is_empty());
}

#[test]
fn arxiv_response_and_search_result() {
    let feed = format!("<feed>{}</feed>", ENTRY_ONE);
    match ArxivSource::parse_response(&feed) {
        Ok(papers) => assert_eq!(papers.len(), 1),
        Err(_) => panic!("parse failed"),
    }
    let r = ArxivSource::search_result(&feed, &params("x", 1, 0));
    assert_eq!(r.papers.len(), 1);
    assert_eq!(r.total, Some(1));
    assert!(r.has_more);
    let r2 = ArxivSource::search_result(&feed, &params("x", 10, 0));
    assert!(!r2.has_more);
}

#[test]
fn arxiv_source_description() {
    let s = match ArxivSource::new(config()) {
        Ok(s) => s,
        Err(_) => panic!("client"),
    };
    assert!(matches!(s.kind(), SourceKind::Arxiv));
    assert_eq!(s.name(), "arXiv");
    let c = s.capabilities();
    assert!(c.search && c.get_by_id && c.pdf_download);
    assert!(!c.citations && !c.references && !c.authors);
    assert_eq!(s.config().timeout, 30);
    assert_eq!(s.config().max_retries, 3);
}

#[test]
fn bad_proxy_is_a_network_error() {
    let mut cfg = config();
    cfg.proxy = Some("http://[not-closed".to_string());
    assert!(matches!(http_client(&cfg), Err(SourceError::Network(_))));
    assert!(matches!(ArxivSource::new(SourceConfig { proxy: cfg.proxy.clone(), ..config() }), Err(SourceError::Network(_))));
    assert!(matches!(SemanticScholarSource::new(cfg), Err(SourceError::Network(_))));
}

#[test]
fn good_proxy_builds_a_client() {
    let mut cfg = config();
    cfg.proxy = Some("http://127.0.0.1:8080".to_string());
    assert!(http_client(&cfg).is_ok());
}

fn ss_paper(id: &str, title: &str) -> SsPaper {
    SsPaper {
        paper_id: id.to_string(),
        title: title.to_string(),
        abstract_text: None,
        year: None,
        venue: None,
        citation_count: None,
        external_ids: None,
        authors: Vec::new(),
        open_access_pdf: None,
    }
}

fn linked(id: &str, title: Option<&str>, authors: &[(&str, Option<&str>)]) -> SsLinkedPaper {
    SsLinkedPaper {
        paper_id: id.to_string(),
        title: title.map(|t| t.to_string()),
        authors: authors
            .iter()
            .map(|(n, i)| SsAuthor { name: n.to_string(), author_id: i.map(|s| s.to_string()) })
            .collect(),
    }
}

#[test]
fn ss_paper_with_everything() {
    let mut ss = ss_paper("abc", "A Paper");
    ss.abstract_text = Some("Abstract".to_string());
    ss.citation_count = Some(42);
    ss.external_ids = Some(SsExternalIds { doi: Some("10.1/x".to_string()), arxiv_id: Some("2101.00001".to_string()) });
    ss.open_access_pdf = Some(SsOpenAccess { pdf_url: Some("https://oa/x.pdf".to_string()) });
    let p = SemanticScholarSource::ss_to_paper(ss);
    assert_eq!(p.title, "A Paper");
    assert_eq!(p.semantic_scholar_id.as_deref(), Some("abc"));
    assert_eq!(p.abstract_text.as_deref(), Some("Abstract"));
    assert_eq!(p.doi.as_deref(), Some("10.1/x"));
    assert_eq!(p.arxiv_id.as_deref(), Some("2101.00001"));
    assert_eq!(p.pdf_url.as_deref(), Some("https://oa/x.pdf"));
    assert_eq!(p.citation_count, 42);
    assert_eq!(p.id, None);
}

#[test]
fn ss_paper_pdf_falls_back_to_arxiv() {
    let mut ss = ss_paper("abc", "T");
    ss.external_ids = Some(SsExternalIds { doi: None, arxiv_id: Some("2101.00001".to_string()) });
    ss.open_access_pdf = Some(SsOpenAccess { pdf_url: None });
    let p = SemanticScholarSource::ss_to_paper(ss);
    assert_eq!(p.pdf_url.as_deref(), Some("https://arxiv.org/pdf/2101.00001"));
    assert_eq!(p.doi.as_deref(), Some(""));
}

#[test]
fn ss_paper_with_nothing() {
    let p = SemanticScholarSource::ss_to_paper(ss_paper("id0", "Bare"));
    assert_eq!(p.abstract_text.as_deref(), Some(""));
    assert_eq!(p.arxiv_id.as_deref(), Some(""));
    assert_eq!(p.doi.as_deref(), Some(""));
    assert_eq!(p.pdf_url.as_deref(), Some(""));
    assert_eq!(p.citation_count, 0);
    assert!(p.authors.is_empty());
}

#[test]
fn ss_search_result_keeps_order_and_total() {
    let resp = SsSearchResponse { data: vec![ss_paper("a", "First"), ss_paper("b", "Second")], total: Some(57) };
    let r = SemanticScholarSource::search_result(resp, &params("q", 2, 0));
    assert_eq!(r.papers.len(), 2);
    assert_eq!(r.papers[0].title, "First");
    assert_eq!(r.papers[1].semantic_scholar_id.as_deref(), Some("b"));
    assert_eq!(r.total, Some(57));
    assert!(r.has_more);
    let none = SemanticScholarSource::search_result(SsSearchResponse { data: Vec::new(), total: None }, &params("q", 2, 0));
    assert_eq!(none.total, None);
    assert!(!none.has_more);
}

#[test]
fn ss_citation_and_reference_pairs_skip_unknown_papers() {
    let resp = SsCitationsResponse {
        data: vec![
            SsCitation { citing_paper: Some(linked("c1", Some("Citing One"), &[("Ada Lovelace", Some("9")), ("Bob", None)])) },
            SsCitation { citing_paper: None },
            SsCitation { citing_paper: Some(linked("c2", None, &[])) },
        ],
    };
    let pairs = SemanticScholarSource::citation_pairs(resp);
    assert_eq!(pairs.len(), 2);
    assert_eq!(pairs[0].0.title, "Citing One");
    assert_eq!(pairs[0].0.semantic_scholar_id.as_deref(), Some("c1"));
    assert_eq!(pairs[0].1.len(), 2);
    assert_eq!(pairs[0].1[0].name, "Ada Lovelace");
    assert_eq!(pairs[0].1[0].semantic_scholar_id.as_deref(), Some("9"));
    assert_eq!(pairs[0].1[1].semantic_scholar_id.as_deref(), Some(""));
    assert_eq!(pairs[1].0.title, "");
    let refs = SsReferencesResponse {
        data: vec![SsReference { cited_paper: None }, SsReference { cited_paper: Some(linked("r1", Some("Ref"), &[])) }],
    };
    let rp = SemanticScholarSource::reference_pairs(refs);
    assert_eq!(rp.len(), 1);
    assert_eq!(rp[0].0.semantic_scholar_id.as_deref(), Some("r1"));
}

#[test]
fn ss_lookup_result_cases() {
    match SemanticScholarSource::lookup_result(Ok(ss_paper("a", "Found"))) {
        Ok(Some(p)) => assert_eq!(p.title, "Found"),
        _ => panic!("expected a paper"),
    }
    assert!(matches!(SemanticScholarSource::lookup_result(Err(SourceError::NotFound)), Ok(None)));
    match SemanticScholarSource::lookup_result(Err(SourceError::Parse("bad".to_string()))) {
        Err(SourceError::Parse(m)) => assert_eq!(m, "bad"),
        _ => panic!("expected the error"),
    }
    assert!(matches!(
        SemanticScholarSource::lookup_result(Err(SourceError::RateLimit { retry_after: Some(3) })),
        Err(SourceError::RateLimit { retry_after: Some(3) })
    ));
}

#[test]
fn ss_addresses() {
    let fields = "paperId,title,abstract,year,venue,citationCount,externalIds,authors,openAccessPdf";
    assert_eq!(
        SemanticScholarSource::search_url(&params("attention is", 10, 5)),
        format!("https://api.semanticscholar.org/graph/v1/paper/search?query=attention%20is&offset=5&limit=10&fields={}", fields)
    );
    assert_eq!(
        SemanticScholarSource::paper_by_id_url("abc123"),
        format!("https://api.semanticscholar.org/graph/v1/paper/abc123?fields={}", fields)
    );
    assert_eq!(
        SemanticScholarSource::paper_by_doi_url("10.1/x"),
        format!("https://api.semanticscholar.org/graph/v1/paper/DOI:10.1/x?fields={}", fields)
    );
    assert_eq!(
        SemanticScholarSource::paper_by_arxiv_url("1706.03762"),
        format!("https://api.semanticscholar.org/graph/v1/paper/arXiv:1706.03762?fields={}", fields)
    );
    assert_eq!(
        SemanticScholarSource::citations_url("p1", 100),
        "https://api.semanticscholar.org/graph/v1/paper/p1/citations?fields=paperId,title,authors&limit=100"
    );
    assert_eq!(
        SemanticScholarSource::references_url("p1", 7),
        "https://api.semanticscholar.org/graph/v1/paper/p1/references?fields=paperId,title,authors&limit=7"
    );
    assert_eq!(
        SemanticScholarSource::health_check_url(),
        "https://api.semanticscholar.org/graph/v1/paper/search?query=test&limit=1&fields=paperId"
    );
}

#[test]
fn ss_source_description() {
    let s = match SemanticScholarSource::new(config()) {
        Ok(s) => s,
        Err(_) => panic!("client"),
    };
    assert!(matches!(s.kind(), SourceKind::SemanticScholar));
    assert_eq!(s.name(), "Semantic Scholar");
    let c = s.capabilities();
    assert!(c.search && c.get_by_id && c.citations && c.references && c.authors);
    assert!(!c.pdf_download);
}

#[test]
fn retry_reads_a_success() {
    let mut r = Retry::start(&config(), false);
    assert!(r.should_fetch());
    assert_eq!(r.delay(), 1000);
    assert!(matches!(r.on_outcome(FetchOutcome::Success), RetryStep::Read));
}

#[test]
fn retry_stops_at_not_found_when_final() {
    let mut r = Retry::start(&config(), true);
    let step = r.on_outcome(FetchOutcome::Status { code: 404, text: "404 Not Found".to_string() });
    assert!(matches!(step, RetryStep::Fail(SourceError::NotFound)));
}

#[test]
fn retry_waits_after_not_found_when_not_final() {
    let mut r = Retry::start(&config(), false);
    let step = r.on_outcome(FetchOutcome::Status { code: 404, text: "404 Not Found".to_string() });
    assert!(matches!(step, RetryStep::Wait(1)));
    match r.give_up() {
        SourceError::Network(m) => assert_eq!(m, "HTTP 404 Not Found"),
        _ => panic!("expected a network error"),
    }
}

#[test]
fn retry_rate_limit_waits_twice() {
    let mut r = Retry::start(&config(), true);
    let step = r.on_outcome(FetchOutcome::Status { code: 429, text: "429 Too Many Requests".to_string() });
    assert!(matches!(step, RetryStep::Wait(2)));
    assert!(matches!(r.give_up(), SourceError::RateLimit { retry_after: None }));
}

#[test]
fn retry_gives_up_after_max_attempts() {
    let mut r = Retry::start(&config(), false);
    let mut attempts = 0;
    while r.should_fetch() {
        attempts += 1;
        let step = r.on_outcome(FetchOutcome::Transport(format!("timeout {}", attempts)));
        assert!(matches!(step, RetryStep::Wait(1)));
    }
    assert_eq!(attempts, 3);
    match r.give_up() {
        SourceError::Network(m) => assert_eq!(m, "timeout 3"),
        _ => panic!("expected the last error"),
    }
}

#[test]
fn retry_without_attempts() {
    let cfg = SourceConfig { max_retries: 0, ..config() };
    let r = Retry::start(&cfg, false);
    assert!(!r.should_fetch());
    match r.give_up() {
        SourceError::Network(m) => assert_eq!(m, "Max retries exceeded"),
        _ => panic!("expected a network error"),
    }
}

#[test]
fn search_params_default() {
    let p = SearchParams::default();
    assert_eq!(p.query, "");
    assert_eq!(p.limit, 0);
    assert_eq!(p.offset, 0);
    assert!(p.sort_by.is_none() && p.sort_order.is_none());
}

#[test]
fn arxiv_identifier_forms() {
    assert_eq!(ArxivSource::identifier_id("https://arxiv.org/abs/1706.03762"), "1706.03762");
    assert_eq!(ArxivSource::identifier_id("http://arxiv.org/abs/2101.1v2"), "2101.1v2");
    assert_eq!(ArxivSource::identifier_id("1706.03762"), "1706.03762");
    assert_eq!(ArxivSource::identifier_id("https://arxiv.org/pdf/1"), "https://arxiv.org/pdf/1");
}

#[test]
fn ss_identifier_addresses() {
    let fields = "paperId,title,abstract,year,venue,citationCount,externalIds,authors,openAccessPdf";
    let at = |id: &str| format!("https://api.semanticscholar.org/graph/v1/paper/{}?fields={}", id, fields);
    assert_eq!(SemanticScholarSource::identifier_url("DOI:10.1/x"), at("DOI:10.1/x"));
    assert_eq!(SemanticScholarSource::identifier_url("doi:10.1/x"), at("DOI:10.1/x"));
    assert_eq!(SemanticScholarSource::identifier_url("10.1145/3"), at("DOI:10.1145/3"));
    assert_eq!(SemanticScholarSource::identifier_url("arXiv:1706.03762"), at("arXiv:1706.03762"));
    assert_eq!(SemanticScholarSource::identifier_url("arxiv:1706.03762"), at("arXiv:1706.03762"));
    assert_eq!(SemanticScholarSource::identifier_url("https://arxiv.org/abs/2101.1"), at("arXiv:2101.1"));
    assert_eq!(SemanticScholarSource::identifier_url("http://arxiv.org/abs/2101.1"), at("arXiv:2101.1"));
    assert_eq!(SemanticScholarSource::identifier_url("649def34f8be"), at("649def34f8be"));
    assert_eq!(SemanticScholarSource::identifier_url("2301.00001"), at("arXiv:2301.00001"));
    assert_eq!(SemanticScholarSource::identifier_url("2301.0001v3"), at("arXiv:2301.0001v3"));
    assert_eq!(SemanticScholarSource::identifier_url("2301.00001v"), at("2301.00001v"));
    assert_eq!(SemanticScholarSource::identifier_url("ss:abc123"), at("abc123"));
    assert_eq!(SemanticScholarSource::identifier_url("https://doi.org/10.1/x"), at("DOI:10.1/x"));
}
