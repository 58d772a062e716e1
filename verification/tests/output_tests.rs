use argusflow::citation::CitationStats;
use argusflow::models::{Author, Paper};
use argusflow::output::{
    lowercase_of, BibtexFormatter, CitationDirection, JsonFormatter, MarkdownFormatter, OutputFormat,
    TerminalFormatter,
};

fn paper(id: i64, title: &str, citations: i64) -> Paper {
    let mut p = Paper::new(title.to_string()).with_citation_count(citations);
    p.id = Some(id);
    p
}

fn authors(names: &[&str]) -> Vec<Author> {
    names.iter().map(|n| Author::new(n.to_string())).collect()
}

#[test]
fn format_names_in_any_case() {
    assert!(matches!(OutputFormat::from_name("terminal"), Ok(OutputFormat::Terminal)));
    assert!(matches!(OutputFormat::from_name("TEXT"), Ok(OutputFormat::Terminal)));
    assert!(matches!(OutputFormat::from_name("JSON"), Ok(OutputFormat::Json)));
    assert!(matches!(OutputFormat::from_name("BibTeX"), Ok(OutputFormat::Bibtex)));
    assert!(matches!(OutputFormat::from_name("bib"), Ok(OutputFormat::Bibtex)));
    assert!(matches!(OutputFormat::from_name("Markdown"), Ok(OutputFormat::Markdown)));
    assert!(matches!(OutputFormat::from_name("md"), Ok(OutputFormat::Markdown)));
}

#[test]
fn unknown_format_name_is_refused() {
    match OutputFormat::from_name("Xml") {
        Err(m) => assert_eq!(m, "Unknown format: Xml"),
        Ok(_) => panic!("expected an error"),
    }
    assert!(OutputFormat::from_name("").is_err());
    assert!(OutputFormat::from_name(" json").is_err());
}

#[test]
fn format_extensions() {
    assert_eq!(OutputFormat::Terminal.extension(), "txt");
    assert_eq!(OutputFormat::Json.extension(), "json");
    assert_eq!(OutputFormat::Bibtex.extension(), "bib");
    assert_eq!(OutputFormat::Markdown.extension(), "md");
    assert!(matches!(OutputFormat::default(), OutputFormat::Terminal));
    assert_eq!(TerminalFormatter::new().extension(), "txt");
    assert_eq!(JsonFormatter.extension(), "json");
    assert_eq!(MarkdownFormatter.extension(), "md");
    assert_eq!(BibtexFormatter.extension(), "bib");
}

#[test]
fn lowercase_follows_unicode() {
    assert_eq!(lowercase_of("ÀbC"), "àbc");
    assert_eq!(lowercase_of(""), "");
}

#[test]
fn terminal_identifier_and_authors() {
    let p = paper(1, "T", 0).with_arxiv_id("1".to_string()).with_semantic_scholar_id("2".to_string());
    assert_eq!(TerminalFormatter::format_identifier(&p), "arXiv: 1 | SS: 2");
    let only_ss = paper(1, "T", 0).with_arxiv_id(String::new()).with_semantic_scholar_id("2".to_string());
    assert_eq!(TerminalFormatter::format_identifier(&only_ss), "SS: 2");
    assert_eq!(TerminalFormatter::format_identifier(&paper(1, "T", 0)), "");
    assert_eq!(TerminalFormatter::format_authors(&[]), "N/A");
    assert_eq!(TerminalFormatter::format_authors(&authors(&["A", "B", "C"])), "A, B, C");
    assert_eq!(TerminalFormatter::format_authors(&authors(&["A", "B", "C", "D"])), "A, et al.");
}

#[test]
fn terminal_paper_list() {
    let mut p = paper(3, "T", 5).with_arxiv_id("1234".to_string());
    p.authors = authors(&["Alice", "Bob"]);
    let out = TerminalFormatter::new().format_papers(&[p]);
    assert_eq!(out, "共 1 篇论文:\n\n---\nID: 3\n标题: T\narXiv: 1234\n作者: Alice, Bob\n引用数: 5\n");
    assert_eq!(TerminalFormatter::new().format_papers(&[]), "共 0 篇论文:\n");
}

#[test]
fn terminal_paper_detail() {
    let mut p = paper(3, "T", 5).with_arxiv_id("1234".to_string());
    p.authors = authors(&["Alice", "Bob"]);
    assert_eq!(
        TerminalFormatter::new().format_paper_detail(&p),
        "[DB ID: 3]\n标题: T\narXiv: 1234\n作者: Alice, Bob\nDOI: N/A\n引用数: 5\nPDF: N/A\n\n摘要:\nN/A\n"
    );
    let mut q = Paper::new("U".to_string()).with_doi("10.1/x".to_string()).with_abstract("Abs".to_string());
    q.pdf_url = Some("http://p".to_string());
    assert_eq!(
        TerminalFormatter::new().format_paper_detail(&q),
        "[DB ID: 0]\n标题: U\n作者: N/A\nDOI: 10.1/x\n引用数: 0\nPDF: http://p\n\n摘要:\nAbs\n"
    );
}

#[test]
fn terminal_citations_both_directions() {
    let cit = vec![(Paper::new("Cit".to_string()).with_semantic_scholar_id("s1".to_string()), authors(&["Ann"]))];
    assert_eq!(
        TerminalFormatter::new().format_citations(&cit, CitationDirection::Citing),
        "该论文被以下 1 篇论文引用:\n---\n标题: Cit\nSS ID: s1\n作者: Ann\n"
    );
    let cited = vec![(Paper::new("Ref".to_string()), Vec::new())];
    assert_eq!(
        TerminalFormatter::new().format_citations(&cited, CitationDirection::Cited),
        "该论文引用了以下 1 篇论文:\n---\n标题: Ref\n作者: N/A\n"
    );
}

#[test]
fn terminal_stats() {
    let s = CitationStats::from_papers(&vec![paper(1, "A", 3), paper(2, "B", 0)]);
    assert_eq!(
        TerminalFormatter::new().format_stats(&s, "1.50"),
        "=== 引用统计 ===\n\n论文总数: 2\n引用关系数: 3\n平均引用数: 1.50\nH-Index: 1\n最大引用数: 3\n\n=== 引用最多论文 Top 10 ===\n\n1. A (引用: 3)\n\n2. B (引用: 0)\n\n孤立节点（无引用关系）: 1 篇\n"
    );
    let none = CitationStats::from_papers(&vec![paper(1, "A", 2)]);
    assert_eq!(
        TerminalFormatter::new().format_stats(&none, "2.00"),
        "=== 引用统计 ===\n\n论文总数: 1\n引用关系数: 2\n平均引用数: 2.00\nH-Index: 1\n最大引用数: 2\n\n=== 引用最多论文 Top 10 ===\n\n1. A (引用: 2)\n"
    );
}

#[test]
fn markdown_paper_table_escapes_cells() {
    let mut p = paper(3, "T|x\ny", 5);
    p.authors = authors(&["Alice", "Bob"]);
    assert_eq!(
        MarkdownFormatter.format_papers(&[p, paper(4, "U", 0)]),
        "# Paper List\n\n| ID | Title | Authors | Citations |\n|----|-------|---------|----------|\n| 3 | T\\|x y | Alice, Bob | 5 |\n| 4 | U | N/A | 0 |\n"
    );
    assert_eq!(MarkdownFormatter::format_authors(&[]), "N/A");
    assert_eq!(MarkdownFormatter::format_authors(&authors(&["A", "B", "C", "D"])), "A, B, C, D");
}

#[test]
fn markdown_paper_page() {
    let mut p = paper(3, "T", 5).with_arxiv_id("1234".to_string()).with_semantic_scholar_id(String::new());
    p.venue = Some("NeurIPS".to_string());
    p.abstract_text = Some("Abs".to_string());
    assert_eq!(
        MarkdownFormatter.format_paper_detail(&p),
        "# T\n\n## Metadata\n\n- **ID:** 3\n- **arXiv:** 1234\n- **Authors:** N/A\n- **Citations:** 5\n- **Venue:** NeurIPS\n\n## Abstract\n\nAbs\n"
    );
    let q = Paper::new("U".to_string()).with_doi("d".to_string()).with_pdf_url("http://p".to_string());
    assert_eq!(
        MarkdownFormatter.format_paper_detail(&q),
        "# U\n\n## Metadata\n\n- **ID:** 0\n- **DOI:** d\n- **Authors:** N/A\n- **Citations:** 0\n- **PDF:** http://p\n"
    );
}

#[test]
fn markdown_citations_and_stats() {
    let cit = vec![(Paper::new("Cit".to_string()), authors(&["Ann"]))];
    assert_eq!(
        MarkdownFormatter.format_citations(&cit, CitationDirection::Citing),
        "# Citing Papers\n\n| Title | Authors |\n|-------|--------|\n| Cit | Ann |\n"
    );
    assert_eq!(
        MarkdownFormatter.format_citations(&[], CitationDirection::Cited),
        "# Cited Papers\n\n| Title | Authors |\n|-------|--------|\n"
    );
    let s = CitationStats::from_papers(&vec![paper(1, "A", 3), paper(2, "B", 0)]);
    assert_eq!(
        MarkdownFormatter.format_stats(&s, "1.50"),
        "# Citation Statistics\n\n## Overview\n\n- **Total Papers:** 2\n- **Total Citation Edges:** 3\n- **Average Citations:** 1.50\n- **H-Index:** 1\n- **Max Citations:** 3\n\n## Most Cited Papers\n\n| Rank | Title | Citations |\n|------|-------|----------|\n| 1 | A | 3 |\n| 2 | B | 0 |\n"
    );
}

#[test]
fn bibtex_keys() {
    let mut p = Paper::new("T".to_string());
    assert_eq!(BibtexFormatter::generate_key(&p), "unknownnodate");
    p.authors = authors(&["Geoffrey  E. Hinton  ", "Yann LeCun"]);
    p.publication_date = Some("2015-05-28".to_string());
    assert_eq!(BibtexFormatter::generate_key(&p), "hinton2015");
    p.authors = authors(&["Conan O'Brien"]);
    p.publication_date = Some("1999".to_string());
    assert_eq!(BibtexFormatter::generate_key(&p), "obrien1999");
    p.authors = authors(&["Jürgen MÜLLER"]);
    p.publication_date = None;
    assert_eq!(BibtexFormatter::generate_key(&p), "müllernodate");
    p.authors = authors(&["   "]);
    assert_eq!(BibtexFormatter::generate_key(&p), "nodate");
}

#[test]
fn bibtex_entry_of_arxiv_paper() {
    let mut p = Paper::new("Deep & Wide_1".to_string())
        .with_arxiv_id("1505.1".to_string())
        .with_doi("10.1/x".to_string())
        .with_pdf_url("http://p".to_string());
    p.authors = authors(&["Geoffrey Hinton", "Yann LeCun"]);
    p.publication_date = Some("2015-05-28".to_string());
    assert_eq!(
        BibtexFormatter.format_paper_detail(&p),
        "@misc{hinton2015,\n  title = {Deep \\& Wide\\_1},\n  author = {Geoffrey Hinton and Yann LeCun},\n  year = {2015},\n  doi = {10.1/x},\n  eprint = {1505.1},\n  archiveprefix = {arXiv},\n  url = {http://p},\n}"
    );
}

#[test]
fn bibtex_entries_are_separated() {
    let mut a = Paper::new("A {x}".to_string());
    a.venue = Some("Nature".to_string());
    let b = Paper::new("B 100%".to_string());
    assert_eq!(
        BibtexFormatter.format_papers(&[a, b]),
        "@article{unknownnodate,\n  title = {A \\{x\\}},\n  journal = {Nature},\n}\n\n@article{unknownnodate,\n  title = {B 100\\%},\n}"
    );
    assert_eq!(BibtexFormatter.format_papers(&[]), "");
    let cit = vec![(Paper::new("C $".to_string()), authors(&["Ann"]))];
    assert_eq!(
        BibtexFormatter.format_citations(&cit, CitationDirection::Citing),
        "@article{unknownnodate,\n  title = {C \\$},\n}"
    );
    assert_eq!(BibtexFormatter::format_authors(&authors(&["A", "B", "C"])), "A and B and C");
    assert_eq!(BibtexFormatter::format_authors(&[]), "");
}

#[test]
fn bibtex_stats_unavailable() {
    let s = CitationStats::from_papers(&Vec::new());
    assert_eq!(BibtexFormatter.format_stats(&s), "% Citation statistics not available in BibTeX format\n");
}

#[test]
fn terminal_formatter_default_is_new() {
    assert_eq!(TerminalFormatter::default().extension(), TerminalFormatter::new().extension());
    assert_eq!(TerminalFormatter::default().format_papers(&[]), "共 0 篇论文:\n");
}
