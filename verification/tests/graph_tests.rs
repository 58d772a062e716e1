use argusflow::citation::crawler::{CrawlAction, LinkRequest};
use argusflow::citation::graph::CitationGraph;
use argusflow::citation::stats::MOST_CITED_KEPT;
use argusflow::citation::{CitationCrawler, CitationStats, CrawlDirection};
use argusflow::models::{Author, Paper};

fn paper(id: Option<i64>, title: &str, citations: i64) -> Paper {
    let mut p = Paper::new(title.to_string()).with_citation_count(citations);
    p.id = id;
    p
}

fn linked(ss_id: Option<&str>) -> (Paper, Vec<Author>) {
    let p = Paper::new("linked".to_string());
    let p = match ss_id {
        Some(s) => p.with_semantic_scholar_id(s.to_string()),
        None => p,
    };
    (p, Vec::new())
}

#[test]
fn graph_records_links_both_ways() {
    let mut g = CitationGraph::new();
    let mut p = Paper::new("A".to_string());
    p.id = Some(1);
    g.add_paper(p);
    g.add_citation(1, 2);
    assert_eq!(g.get_citations(1), Some(&[2i64][..]));
    assert_eq!(g.get_cited_by(2), Some(&[1i64][..]));
    assert_eq!(g.citation_count(2), 1);
    assert_eq!(g.papers().len(), 1);
}

#[test]
fn empty_graph_has_nothing() {
    let g = CitationGraph::default();
    assert!(g.papers().is_empty());
    assert_eq!(g.get_citations(1), None);
    assert_eq!(g.get_cited_by(1), None);
    assert_eq!(g.citation_count(1), 0);
    assert_eq!(g.to_dot(), "digraph citations {\n  rankdir=LR;\n  node [shape=box];\n\n\n}\n");
}

#[test]
fn paper_without_id_is_not_added() {
    let mut g = CitationGraph::new();
    g.add_paper(paper(None, "No id", 0));
    assert!(g.papers().is_empty());
}

#[test]
fn paper_with_same_id_replaces() {
    let mut g = CitationGraph::new();
    g.add_paper(paper(Some(7), "Old", 0));
    g.add_paper(paper(Some(7), "New", 3));
    let ps = g.papers();
    assert_eq!(ps.len(), 1);
    assert_eq!(ps[0].title, "New");
    assert_eq!(ps[0].citation_count, 3);
}

#[test]
fn links_keep_order_and_repeats() {
    let mut g = CitationGraph::new();
    g.add_citation(1, 2);
    g.add_citation(1, 3);
    g.add_citation(1, 2);
    g.add_citation(4, 2);
    assert_eq!(g.get_citations(1), Some(&[2i64, 3, 2][..]));
    assert_eq!(g.get_cited_by(2), Some(&[1i64, 1, 4][..]));
    assert_eq!(g.citation_count(2), 3);
    assert_eq!(g.citation_count(3), 1);
    assert_eq!(g.get_citations(2), None);
}

#[test]
fn dot_of_one_paper_and_one_link() {
    let mut g = CitationGraph::new();
    g.add_paper(paper(Some(-5), "A title that is certainly longer than fifty characters in all", 0));
    g.add_citation(-5, 9);
    assert_eq!(
        g.to_dot(),
        "digraph citations {\n  rankdir=LR;\n  node [shape=box];\n\n  -5 [label=\"A title that is certainly longer than fifty charac\"];\n\n  -5 -> 9;\n}\n"
    );
}

#[test]
fn dot_lists_every_node_and_edge() {
    let mut g = CitationGraph::new();
    g.add_paper(paper(Some(1), "One", 0));
    g.add_paper(paper(Some(2), "Two", 0));
    g.add_citation(1, 2);
    g.add_citation(2, 1);
    let dot = g.to_dot();
    assert!(dot.starts_with("digraph citations {\n"));
    assert!(dot.ends_with("}\n"));
    assert!(dot.contains("  1 [label=\"One\"];\n"));
    assert!(dot.contains("  2 [label=\"Two\"];\n"));
    assert!(dot.contains("  1 -> 2;\n"));
    assert!(dot.contains("  2 -> 1;\n"));
}

#[test]
fn stats_of_no_papers() {
    let s = CitationStats::from_papers(&Vec::new());
    assert_eq!(s.total_papers, 0);
    assert_eq!(s.total_citations, 0);
    assert_eq!(s.total_citation_edges, 0);
    assert_eq!(s.h_index, 0);
    assert_eq!(s.max_citations, 0);
    assert!(s.most_cited_papers.is_empty());
    assert!(s.isolated_papers.is_empty());
}

#[test]
fn stats_h_index_and_totals() {
    let papers = vec![
        paper(Some(1), "a", 3),
        paper(Some(2), "b", 10),
        paper(Some(3), "c", 0),
        paper(Some(4), "d", 5),
        paper(Some(5), "e", 4),
        paper(Some(6), "f", 8),
    ];
    let s = CitationStats::from_papers(&papers);
    assert_eq!(s.total_papers, 6);
    assert_eq!(s.total_citations, 30);
    assert_eq!(s.total_citation_edges, 30);
    // counts in rank order: 10, 8, 5, 4, 3, 0
    assert_eq!(s.h_index, 4);
    assert_eq!(s.max_citations, 10);
    let titles: Vec<&str> = s.most_cited_papers.iter().map(|(p, _)| p.title.as_str()).collect();
    assert_eq!(titles, vec!["b", "f", "d", "e", "a", "c"]);
    let counts: Vec<i64> = s.most_cited_papers.iter().map(|(_, c)| *c).collect();
    assert_eq!(counts, vec![10, 8, 5, 4, 3, 0]);
    assert_eq!(s.isolated_papers.len(), 1);
    assert_eq!(s.isolated_papers[0].title, "c");
}

#[test]
fn stats_ties_keep_given_order() {
    let papers = vec![paper(Some(1), "x", 2), paper(Some(2), "y", 7), paper(Some(3), "z", 2)];
    let s = CitationStats::from_papers(&papers);
    let titles: Vec<&str> = s.most_cited_papers.iter().map(|(p, _)| p.title.as_str()).collect();
    assert_eq!(titles, vec!["y", "x", "z"]);
    assert_eq!(s.h_index, 2);
}

#[test]
fn stats_keep_ten_most_cited() {
    let papers: Vec<Paper> = (0..15).map(|i| paper(Some(i), &format!("p{}", i), i)).collect();
    let s = CitationStats::from_papers(&papers);
    assert_eq!(s.most_cited_papers.len(), MOST_CITED_KEPT);
    assert_eq!(s.most_cited_papers[0].0.title, "p14");
    assert_eq!(s.most_cited_papers[9].0.title, "p5");
    assert_eq!(s.max_citations, 14);
    // counts 14..0: 7 papers have at least 7 citations, the 8th has 7 < 8
    assert_eq!(s.h_index, 7);
    assert_eq!(s.isolated_papers.len(), 1);
    assert_eq!(s.total_citations, 105);
}

#[test]
fn stats_all_uncited() {
    let papers = vec![paper(Some(1), "a", 0), paper(Some(2), "b", 0)];
    let s = CitationStats::from_papers(&papers);
    assert_eq!(s.h_index, 0);
    assert_eq!(s.max_citations, 0);
    assert_eq!(s.isolated_papers.len(), 2);
    assert_eq!(s.isolated_papers[1].title, "b");
}

#[test]
fn stats_default_is_empty() {
    let s = CitationStats::default();
    assert_eq!(s.total_papers, 0);
    assert!(s.most_cited_papers.is_empty());
}

#[test]
fn crawler_builder_settings() {
    let c = CitationCrawler::new("source");
    assert_eq!(*c.source(), "source");
    let c = c.with_depth(3).with_max_papers(7);
    assert_eq!(*c.source(), "source");
    let mut crawl = c.start("seed", CrawlDirection::Both);
    match crawl.next_action() {
        CrawlAction::Fetch { paper_id, depth } => {
            assert_eq!(paper_id, "seed");
            assert_eq!(depth, 0);
        },
        CrawlAction::Done => panic!("expected a fetch"),
    }
}

#[test]
fn crawl_follows_links_one_level() {
    let crawler = CitationCrawler::new(()).with_depth(1).with_max_papers(10);
    let mut crawl = crawler.start("seed", CrawlDirection::Citations);
    match crawl.next_action() {
        CrawlAction::Fetch { paper_id, depth } => {
            assert_eq!(paper_id, "seed");
            assert_eq!(depth, 0);
        },
        CrawlAction::Done => panic!("expected a fetch"),
    }
    let next = crawl.on_paper(Some(paper(Some(1), "Seed", 0)));
    assert!(matches!(next, Some(LinkRequest::Citations)));
    crawl.on_links(Some(vec![linked(Some("a")), linked(None), linked(Some("b"))]));
    // the last link waits on top
    match crawl.next_action() {
        CrawlAction::Fetch { paper_id, depth } => {
            assert_eq!(paper_id, "b");
            assert_eq!(depth, 1);
        },
        CrawlAction::Done => panic!("expected a fetch"),
    }
    assert!(crawl.on_paper(None).is_none());
    match crawl.next_action() {
        CrawlAction::Fetch { paper_id, depth } => {
            assert_eq!(paper_id, "a");
            assert_eq!(depth, 1);
        },
        CrawlAction::Done => panic!("expected a fetch"),
    }
    // a paper without an id gets one from its identifier; at the deepest
    // level no links are asked for
    assert!(crawl.on_paper(Some(paper(None, "A", 2))).is_none());
    assert!(matches!(crawl.next_action(), CrawlAction::Done));
    let g = crawl.into_graph();
    let papers = g.papers();
    assert_eq!(papers.len(), 2);
    assert!(papers.iter().all(|p| p.id.is_some()));
    assert!(papers.iter().any(|p| p.title == "Seed" && p.id == Some(1)));
    assert!(papers.iter().any(|p| p.title == "A"));
}

#[test]
fn crawl_references_and_both() {
    let crawler = CitationCrawler::new(()).with_depth(2);
    let mut crawl = crawler.start("s", CrawlDirection::References);
    crawl.next_action();
    assert!(matches!(crawl.on_paper(Some(paper(Some(1), "S", 0))), Some(LinkRequest::References)));
    let crawler = CitationCrawler::new(()).with_depth(2);
    let mut crawl = crawler.start("s", CrawlDirection::Both);
    crawl.next_action();
    assert!(matches!(crawl.on_paper(Some(paper(Some(1), "S", 0))), Some(LinkRequest::Citations)));
}

#[test]
fn crawl_never_fetches_twice() {
    let crawler = CitationCrawler::new(()).with_depth(2);
    let mut crawl = crawler.start("seed", CrawlDirection::Citations);
    crawl.next_action();
    crawl.on_paper(Some(paper(Some(1), "Seed", 0)));
    crawl.on_links(Some(vec![linked(Some("seed")), linked(Some("x"))]));
    match crawl.next_action() {
        CrawlAction::Fetch { paper_id, .. } => assert_eq!(paper_id, "x"),
        CrawlAction::Done => panic!("expected a fetch"),
    }
    crawl.on_paper(None);
    // "seed" was fetched already and is passed over
    assert!(matches!(crawl.next_action(), CrawlAction::Done));
}

#[test]
fn crawl_stops_at_max_papers() {
    let crawler = CitationCrawler::new(()).with_depth(1).with_max_papers(1);
    let mut crawl = crawler.start("seed", CrawlDirection::Citations);
    crawl.next_action();
    crawl.on_paper(Some(paper(Some(1), "Seed", 0)));
    crawl.on_links(Some(vec![linked(Some("a")), linked(Some("b"))]));
    assert!(matches!(crawl.next_action(), CrawlAction::Done));
    assert_eq!(crawl.into_graph().papers().len(), 1);
}

#[test]
fn crawl_with_zero_max_papers_fetches_nothing() {
    let crawler = CitationCrawler::new(()).with_max_papers(0);
    let mut crawl = crawler.start("seed", CrawlDirection::Citations);
    assert!(matches!(crawl.next_action(), CrawlAction::Done));
}

#[test]
fn crawl_failed_links_add_nothing() {
    let crawler = CitationCrawler::new(());
    let mut crawl = crawler.start("seed", CrawlDirection::Citations);
    crawl.next_action();
    crawl.on_paper(Some(paper(Some(1), "Seed", 0)));
    crawl.on_links(None);
    assert!(matches!(crawl.next_action(), CrawlAction::Done));
}

#[test]
fn crawl_same_identifier_same_temporary_id() {
    let run = || {
        let crawler = CitationCrawler::new(()).with_depth(0);
        let mut crawl = crawler.start("xyz", CrawlDirection::Citations);
        crawl.next_action();
        crawl.on_paper(Some(paper(None, "T", 0)));
        crawl.into_graph().papers()[0].id
    };
    assert_eq!(run(), run());
}

#[test]
fn edges_list_every_link() {
    let mut g = CitationGraph::new();
    g.add_citation(1, 2);
    g.add_citation(1, 3);
    g.add_citation(5, 1);
    let mut e = g.edges();
    assert_eq!(e.len(), 3);
    let from_one: Vec<(i64, i64)> = e.iter().filter(|x| x.0 == 1).cloned().collect();
    assert_eq!(from_one, vec![(1, 2), (1, 3)]);
    e.sort();
    assert_eq!(e, vec![(1, 2), (1, 3), (5, 1)]);
    assert!(CitationGraph::new().edges().is_empty());
}

#[test]
fn crawl_both_directions_asks_for_references_after_citations() {
    let crawler = CitationCrawler::new(()).with_depth(1);
    let mut crawl = crawler.start("s", CrawlDirection::Both);
    crawl.next_action();
    assert!(matches!(crawl.on_paper(Some(paper(Some(1), "S", 0))), Some(LinkRequest::Citations)));
    let next = crawl.on_links(Some(vec![linked(Some("c"))]));
    assert!(matches!(next, Some(LinkRequest::References)));
    assert!(crawl.on_links(Some(vec![linked(Some("r"))])).is_none());
    // the cited paper waits on top of the citing one
    match crawl.next_action() {
        CrawlAction::Fetch { paper_id, depth } => {
            assert_eq!(paper_id, "r");
            assert_eq!(depth, 1);
        },
        CrawlAction::Done => panic!("expected a fetch"),
    }
    crawl.on_paper(None);
    match crawl.next_action() {
        CrawlAction::Fetch { paper_id, .. } => assert_eq!(paper_id, "c"),
        CrawlAction::Done => panic!("expected a fetch"),
    }
}

#[test]
fn crawl_one_direction_asks_once() {
    let crawler = CitationCrawler::new(()).with_depth(1);
    let mut crawl = crawler.start("s", CrawlDirection::References);
    crawl.next_action();
    assert!(matches!(crawl.on_paper(Some(paper(Some(1), "S", 0))), Some(LinkRequest::References)));
    assert!(crawl.on_links(None).is_none());
    assert!(matches!(crawl.next_action(), CrawlAction::Done));
}

#[test]
fn crawl_temporary_id_is_hash_of_identifier() {
    let crawler = CitationCrawler::new(()).with_depth(0);
    let mut crawl = crawler.start("649def34f8be", CrawlDirection::Citations);
    crawl.next_action();
    crawl.on_paper(Some(paper(None, "T", 0)));
    let id = crawl.into_graph().papers()[0].id;
    let mut h = std::collections::hash_map::DefaultHasher::new();
    std::hash::Hash::hash("649def34f8be", &mut h);
    assert_eq!(id, Some(std::hash::Hasher::finish(&h) as i64));
}
