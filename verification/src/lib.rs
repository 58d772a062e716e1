pub mod text;
pub mod models;
pub mod citation;
pub mod source;
pub mod output;
pub mod db;
pub mod command;
pub mod pdf;
