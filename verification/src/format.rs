//! Ebook file formats the library can read.

pub mod epub;
