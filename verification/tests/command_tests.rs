use argusflow::citation::{CitationGraph, CrawlDirection};
use argusflow::command::{
    add_stored_paper, authors_line, capability_lines, crawl_direction, graph_format, identifier_lines,
    in_requested_order, listing_for, paper_detail_text, paper_to_save, refresh_key, search_field,
    with_fresh_count, GraphFormat, PaperListing, SearchField, sync_candidates, cache_keys,
};
use argusflow::pdf::{arxiv_pdf_name, pdf_file_name};
use argusflow::db::rows::{
    author_from_row, author_lookup_key, new_row, recent_cutoff, rows_to_papers, update_row, DAY_MICROS,
};
use argusflow::db::{model_to_paper, AuthorRow, PaperRow};
use argusflow::models::{copy_opt, Author, Paper};
use argusflow::source::SourceCapabilities;

fn paper(id: Option<i64>, title: &str) -> Paper {
    let mut p = Paper::new(title.to_string());
    p.id = id;
    p
}

fn row(id: i64, title: &str) -> PaperRow {
    PaperRow {
        id,
        title: title.to_string(),
        abstract_text: Some("abs".to_string()),
        arxiv_id: None,
        semantic_scholar_id: Some("ss".to_string()),
        doi: None,
        pdf_url: None,
        local_pdf_path: Some("/tmp/x.pdf".to_string()),
        publication_date: Some("2020-01-01".to_string()),
        venue: Some("V".to_string()),
        citation_count: 12,
        created_at: 100,
        updated_at: 200,
    }
}

#[test]
fn crawl_direction_by_name() {
    assert!(matches!(crawl_direction(&"citations".to_string()), CrawlDirection::Citations));
    assert!(matches!(crawl_direction(&"references".to_string()), CrawlDirection::References));
    assert!(matches!(crawl_direction(&"both".to_string()), CrawlDirection::Both));
    assert!(matches!(crawl_direction(&"Citations".to_string()), CrawlDirection::Both));
}

#[test]
fn listing_and_search_field_by_name() {
    assert!(matches!(listing_for(&"citation".to_string()), PaperListing::MostCited));
    assert!(matches!(listing_for(&"date".to_string()), PaperListing::Recent));
    assert!(matches!(listing_for(&"created".to_string()), PaperListing::Recent));
    assert!(matches!(listing_for(&"title".to_string()), PaperListing::ByTitle));
    assert!(matches!(search_field(&"author".to_string()), SearchField::Author));
    assert!(matches!(search_field(&"title".to_string()), SearchField::Title));
    assert!(matches!(search_field(&"abstract".to_string()), SearchField::Abstract));
    assert!(matches!(search_field(&"all".to_string()), SearchField::All));
    assert!(matches!(search_field(&"anything".to_string()), SearchField::All));
}

#[test]
fn requested_order_reverses_for_asc() {
    let ps = vec![paper(Some(1), "a"), paper(Some(2), "b"), paper(Some(3), "c")];
    let asc = in_requested_order(ps, &"asc".to_string());
    let titles: Vec<&str> = asc.iter().map(|p| p.title.as_str()).collect();
    assert_eq!(titles, vec!["c", "b", "a"]);
    let ps = vec![paper(Some(1), "a"), paper(Some(2), "b")];
    let desc = in_requested_order(ps, &"desc".to_string());
    let titles: Vec<&str> = desc.iter().map(|p| p.title.as_str()).collect();
    assert_eq!(titles, vec!["a", "b"]);
    assert!(in_requested_order(Vec::new(), &"asc".to_string()).is_empty());
}

#[test]
fn graph_format_by_name() {
    assert!(matches!(graph_format(&"dot".to_string()), Ok(GraphFormat::Dot)));
    assert!(matches!(graph_format(&"json".to_string()), Ok(GraphFormat::Json)));
    match graph_format(&"png".to_string()) {
        Err(m) => assert_eq!(m, "不支持格式: png"),
        Ok(_) => panic!("expected an error"),
    }
}

#[test]
fn stored_paper_joins_graph_with_its_links() {
    let mut g = CitationGraph::new();
    add_stored_paper(&mut g, paper(Some(1), "P"), &vec![2, 3], &vec![4]);
    assert_eq!(g.papers().len(), 1);
    assert_eq!(g.get_citations(1), Some(&[2i64, 3][..]));
    assert_eq!(g.get_citations(4), Some(&[1i64][..]));
    assert_eq!(g.get_cited_by(1), Some(&[4i64][..]));
    assert_eq!(g.citation_count(2), 1);
}

#[test]
fn stored_paper_without_id_is_left_out() {
    let mut g = CitationGraph::new();
    add_stored_paper(&mut g, paper(None, "P"), &vec![2], &vec![4]);
    assert!(g.papers().is_empty());
    assert_eq!(g.get_citations(4), None);
}

#[test]
fn identifier_and_author_lines() {
    let p = paper(Some(1), "T").with_arxiv_id("a".to_string()).with_semantic_scholar_id(String::new());
    assert_eq!(identifier_lines(&p), "arXiv ID: a\n");
    let q = paper(Some(1), "T").with_arxiv_id("a".to_string()).with_semantic_scholar_id("s".to_string());
    assert_eq!(identifier_lines(&q), "arXiv ID: a\nSS ID: s\n");
    assert_eq!(authors_line(&[]), "");
    let names = vec![Author::new("A".to_string()), Author::new("B".to_string())];
    assert_eq!(authors_line(&names), "作者: A, B\n");
}

#[test]
fn paper_detail_as_printed() {
    let mut p = paper(Some(1), "T").with_arxiv_id("a".to_string());
    p.authors = vec![Author::new("A".to_string()), Author::new("B".to_string())];
    assert_eq!(
        paper_detail_text(5, "arXiv", &p),
        "[DB ID: 5] [来源: arXiv]\n标题: T\narXiv ID: a\n作者: A, B\nDOI: N/A\n引用数: 0\nPDF: N/A\n\n摘要:\nN/A\n"
    );
    let q = paper(None, "U").with_doi("d".to_string()).with_citation_count(-2);
    assert_eq!(
        paper_detail_text(-1, "SS", &q),
        "[DB ID: -1] [来源: SS]\n标题: U\nDOI: d\n引用数: -2\nPDF: N/A\n\n摘要:\nN/A\n"
    );
}

#[test]
fn paper_to_save_takes_given_ids() {
    let p = paper_to_save("Title", &Some("a1".to_string()), &None, 77);
    assert_eq!(p.title, "Title");
    assert_eq!(p.arxiv_id.as_deref(), Some("a1"));
    assert_eq!(p.semantic_scholar_id, None);
    assert_eq!(p.id, None);
    assert_eq!(p.created_at, 77);
    assert_eq!(p.updated_at, 77);
    let q = paper_to_save("Other", &None, &Some("s1".to_string()), 5);
    assert_eq!(q.semantic_scholar_id.as_deref(), Some("s1"));
    assert_eq!(q.arxiv_id, None);
}

#[test]
fn fresh_count_is_taken() {
    let stored = paper(Some(9), "Stored").with_citation_count(1).with_doi("d".to_string());
    let fresh = paper(None, "Fresh").with_citation_count(40);
    let p = with_fresh_count(&stored, &fresh, 123456);
    assert_eq!(p.citation_count, 40);
    assert_eq!(p.title, "Stored");
    assert_eq!(p.id, Some(9));
    assert_eq!(p.doi.as_deref(), Some("d"));
    assert_eq!(p.created_at, stored.created_at);
    assert_eq!(p.updated_at, 123456);
}

#[test]
fn refresh_needs_id_and_semantic_scholar_id() {
    let p = paper(Some(1), "T").with_semantic_scholar_id("s".to_string());
    assert_eq!(refresh_key(&p).map(|s| s.as_str()), Some("s"));
    assert_eq!(refresh_key(&paper(Some(1), "T")), None);
    let q = paper(None, "T").with_semantic_scholar_id("s".to_string());
    assert_eq!(refresh_key(&q), None);
}

#[test]
fn capability_marks() {
    let c = SourceCapabilities {
        search: true,
        get_by_id: true,
        citations: false,
        references: false,
        authors: false,
        pdf_download: true,
    };
    assert_eq!(capability_lines(&c), "  搜索: ✓\n  获取: ✓\n  引用: ✗\n  参考文献: ✗\n  PDF下载: ✓\n");
}

#[test]
fn row_becomes_paper() {
    let authors = vec![Author::new("A".to_string())];
    let p = model_to_paper(row(7, "Row"), authors);
    assert_eq!(p.id, Some(7));
    assert_eq!(p.title, "Row");
    assert_eq!(p.abstract_text.as_deref(), Some("abs"));
    assert_eq!(p.semantic_scholar_id.as_deref(), Some("ss"));
    assert_eq!(p.local_pdf_path.as_deref(), Some("/tmp/x.pdf"));
    assert_eq!(p.publication_date.as_deref(), Some("2020-01-01"));
    assert_eq!(p.venue.as_deref(), Some("V"));
    assert_eq!(p.citation_count, 12);
    assert_eq!(p.created_at, 100);
    assert_eq!(p.updated_at, 200);
    assert_eq!(p.authors.len(), 1);
}

#[test]
fn author_rows_become_authors() {
    let a = author_from_row(AuthorRow { id: 3, name: "N".to_string(), semantic_scholar_id: Some("x".to_string()) });
    assert_eq!(a.id, Some(3));
    assert_eq!(a.name, "N");
    assert_eq!(a.semantic_scholar_id.as_deref(), Some("x"));
    assert_eq!(a.orcid, None);
    let rows = vec![
        (row(1, "One"), vec![AuthorRow { id: 1, name: "A".to_string(), semantic_scholar_id: None }]),
        (row(2, "Two"), Vec::new()),
    ];
    let ps = rows_to_papers(rows);
    assert_eq!(ps.len(), 2);
    assert_eq!(ps[0].title, "One");
    assert_eq!(ps[0].authors[0].name, "A");
    assert_eq!(ps[1].id, Some(2));
    assert!(ps[1].authors.is_empty());
}

#[test]
fn paper_round_trips_through_row() {
    let mut p = paper(None, "T").with_arxiv_id("a".to_string()).with_citation_count(4);
    p.venue = Some("V".to_string());
    let r = new_row(&p);
    assert_eq!(r.id, 0);
    assert_eq!(r.title, "T");
    assert_eq!(r.arxiv_id.as_deref(), Some("a"));
    assert_eq!(r.venue.as_deref(), Some("V"));
    assert_eq!(r.citation_count, 4);
    assert_eq!(r.created_at, p.created_at);
    let back = model_to_paper(r, Vec::new());
    assert_eq!(back.id, Some(0));
    assert_eq!(back.title, p.title);
    assert_eq!(back.arxiv_id, p.arxiv_id);
    assert_eq!(back.venue, p.venue);
    assert_eq!(back.updated_at, p.updated_at);
}

#[test]
fn update_row_needs_id() {
    match update_row(&paper(None, "T"), 9) {
        Err(m) => assert_eq!(m, "Paper id required"),
        Ok(_) => panic!("expected an error"),
    }
    let p = paper(Some(5), "T").with_doi("d".to_string());
    match update_row(&p, 999) {
        Ok(r) => {
            assert_eq!(r.id, 5);
            assert_eq!(r.doi.as_deref(), Some("d"));
            assert_eq!(r.created_at, p.created_at);
            assert_eq!(r.updated_at, 999);
        },
        Err(_) => panic!("expected a row"),
    }
}

#[test]
fn author_lookup_needs_nonempty_id() {
    let a = Author::new("A".to_string()).with_semantic_scholar_id("s".to_string());
    assert_eq!(author_lookup_key(&a).map(|s| s.as_str()), Some("s"));
    let b = Author::new("B".to_string()).with_semantic_scholar_id(String::new());
    assert_eq!(author_lookup_key(&b), None);
    assert_eq!(author_lookup_key(&Author::new("C".to_string())), None);
}

#[test]
fn new_paper_and_author() {
    let p = Paper::new("X".to_string());
    assert_eq!(p.title, "X");
    assert_eq!(p.id, None);
    assert_eq!(p.citation_count, 0);
    assert!(p.authors.is_empty());
    assert_eq!(p.created_at, p.updated_at);
    assert!(p.created_at > 0);
    let q = p.clone().with_abstract("a".to_string()).with_pdf_url("u".to_string());
    assert_eq!(q.abstract_text.as_deref(), Some("a"));
    assert_eq!(q.pdf_url.as_deref(), Some("u"));
    assert_eq!(q.created_at, p.created_at);
    let a = Author::new("N".to_string());
    assert_eq!(a.id, None);
    assert_eq!(a.semantic_scholar_id, None);
    assert_eq!(a.clone().name, "N");
    assert_eq!(copy_opt(&Some("k".to_string())).as_deref(), Some("k"));
    assert_eq!(copy_opt(&None), None);
}

#[test]
fn recent_cutoff_counts_whole_days_back() {
    assert_eq!(recent_cutoff(10 * DAY_MICROS, 3), 7 * DAY_MICROS);
    assert_eq!(recent_cutoff(5, 0), 5);
    assert_eq!(recent_cutoff(0, -1), DAY_MICROS);
    assert_eq!(recent_cutoff(1_700_000_000_000_000, 7), 1_700_000_000_000_000 - 604_800_000_000);
}

#[test]
fn stored_row_reads_back_under_given_id() {
    let mut p = paper(None, "Stored").with_doi("d".to_string()).with_citation_count(9);
    p.authors = vec![Author::new("A".to_string())];
    let mut r = new_row(&p);
    r.id = 42;
    let back = model_to_paper(r, p.authors.clone());
    assert_eq!(back.id, Some(42));
    assert_eq!(back.title, p.title);
    assert_eq!(back.doi, p.doi);
    assert_eq!(back.citation_count, 9);
    assert_eq!(back.created_at, p.created_at);
    assert_eq!(back.updated_at, p.updated_at);
    assert_eq!(back.authors.len(), 1);
    assert_eq!(back.authors[0].name, "A");
}

#[test]
fn stored_paper_links_in_order_with_self_citation() {
    let mut g = CitationGraph::new();
    add_stored_paper(&mut g, paper(Some(1), "P"), &vec![2, 1], &vec![1, 3]);
    assert_eq!(g.get_citations(1), Some(&[2i64, 1, 1][..]));
    assert_eq!(g.get_citations(3), Some(&[1i64][..]));
    assert_eq!(g.get_cited_by(1), Some(&[1i64, 1, 3][..]));
    assert_eq!(g.get_cited_by(2), Some(&[1i64][..]));
    let mut none = CitationGraph::new();
    add_stored_paper(&mut none, paper(Some(5), "Q"), &vec![], &vec![]);
    assert_eq!(none.get_citations(5), None);
    assert_eq!(none.get_cited_by(5), None);
    assert_eq!(none.papers().len(), 1);
}

#[test]
fn new_paper_at_given_time() {
    let p = Paper::new_at("T".to_string(), 42);
    assert_eq!(p.created_at, 42);
    assert_eq!(p.updated_at, 42);
    assert_eq!(p.id, None);
    assert!(p.authors.is_empty());
}

#[test]
fn sync_candidates_within_batch() {
    let ps = vec![
        paper(Some(1), "a").with_semantic_scholar_id("s1".to_string()),
        paper(None, "b").with_semantic_scholar_id("s2".to_string()),
        paper(Some(3), "c"),
        paper(Some(4), "d").with_semantic_scholar_id("s4".to_string()),
        paper(Some(5), "e").with_semantic_scholar_id("s5".to_string()),
    ];
    assert_eq!(sync_candidates(&ps, 4), vec![0, 3]);
    assert_eq!(sync_candidates(&ps, 50), vec![0, 3, 4]);
    assert_eq!(sync_candidates(&ps, 0), Vec::<usize>::new());
}

#[test]
fn cache_keys_need_nonempty_ids() {
    let p = paper(None, "T").with_arxiv_id("a".to_string()).with_semantic_scholar_id(String::new());
    let (a, s) = cache_keys(&p);
    assert_eq!(a.map(|x| x.as_str()), Some("a"));
    assert_eq!(s, None);
    let q = paper(None, "U").with_semantic_scholar_id("s".to_string());
    let (a, s) = cache_keys(&q);
    assert_eq!(a, None);
    assert_eq!(s.map(|x| x.as_str()), Some("s"));
}

#[test]
fn pdf_file_names() {
    assert_eq!(pdf_file_name("https://arxiv.org/pdf/1706.03762"), Some("1706.03762.pdf".to_string()));
    assert_eq!(pdf_file_name("http://x.org/papers/a.pdf?dl=1"), Some("a.pdf".to_string()));
    assert_eq!(pdf_file_name("http://x.org/papers/"), None);
    assert_eq!(pdf_file_name("plain"), Some("plain.pdf".to_string()));
    assert_eq!(arxiv_pdf_name("hep-th/9901001"), "hep-th_9901001.pdf");
    assert_eq!(arxiv_pdf_name("1706.03762"), "1706.03762.pdf");
}
