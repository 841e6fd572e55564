//! Libri: an ebook library manager.
//!
//! The crate discovers attached document-reader devices, correlates them
//! with the mount table, classifies them against the supported-reader
//! profile table, and plans idempotent uploads of ebooks onto them.

pub mod common;
pub mod config;
pub mod device;
pub mod format;
pub mod import;
pub mod list;
pub mod xml;

use vstd::prelude::*;

verus! {

/// One ebook of the library: its identifying key, display metadata, and the
/// path of its file.
#[derive(Debug, Clone)]
pub struct Ebook {
    pub identifier: String,
    pub title: String,
    pub author: String,
    pub path: String,
}

/// Mathematical model of an [`Ebook`]: every field as a character sequence.
pub ghost struct EbookView {
    pub identifier: Seq<char>,
    pub title: Seq<char>,
    pub author: Seq<char>,
    pub path: Seq<char>,
}

impl View for Ebook {
    type V = EbookView;

    open spec fn view(&self) -> EbookView {
        EbookView {
            identifier: self.identifier@,
            title: self.title@,
            author: self.author@,
            path: self.path@,
        }
    }
}

impl DeepView for Ebook {
    type V = EbookView;

    open spec fn deep_view(&self) -> EbookView {
        self@
    }
}

impl Ebook {
    pub fn new(identifier: String, title: String, author: String, path: &str) -> (e: Ebook)
        ensures
            e@.identifier == identifier@,
            e@.title == title@,
            e@.author == author@,
            e@.path == path@,
    {
        Ebook { identifier, title, author, path: path.to_owned() }
    }
}

} // verus!
