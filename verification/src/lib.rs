//! Lookup of a word on a bilingual dictionary's result page: the page's
//! sections are located in the parsed tree and assembled into one record.

pub mod address;
pub mod cmd;
pub mod db;
pub mod dom;
pub mod models;
pub mod queries;
pub mod sentences;
pub mod tabs;
pub mod text;
pub mod tui;
pub mod youdao;
