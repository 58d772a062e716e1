//! The citation network: the graph, its statistics, and the crawler that
//! builds it.
pub mod crawler;
pub mod graph;
pub mod stats;

pub use crawler::{CitationCrawler, CrawlDirection};
pub use graph::CitationGraph;
pub use stats::CitationStats;
