//! Komora: the catalog and storage layout of a small relational database.
pub mod catalog;
pub mod driver;
pub mod error;
pub mod text;
pub mod storage;
