//! The rows the database stores, and how they become papers and back.
pub mod rows;

pub use rows::{model_to_paper, AuthorRow, PaperRow};
