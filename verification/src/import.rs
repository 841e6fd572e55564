//! Importing new ebooks into the library: deciding what to do with one
//! parsed ebook, given what the library already holds.
//!
//! The decision is pure; the caller creates the planned directory and copies
//! the file only when an import is planned.

use vstd::prelude::*;

use crate::Ebook;
use crate::EbookView;
use crate::common::{sanitize, sanitized};

verus! {

/// What to do with one ebook offered for import.
#[derive(Debug, Clone)]
pub enum ImportPlan {
    /// The library already holds an ebook with this identifier: import
    /// nothing.
    Skip,
    /// Create `directory` and copy the ebook's file to `destination`.
    Import { directory: String, destination: String },
}

/// Mathematical model of an [`ImportPlan`].
pub ghost enum ImportPlanView {
    Skip,
    Import { directory: Seq<char>, destination: Seq<char> },
}

impl View for ImportPlan {
    type V = ImportPlanView;

    open spec fn view(&self) -> ImportPlanView {
        match self {
            ImportPlan::Skip => ImportPlanView::Skip,
            ImportPlan::Import { directory, destination } => ImportPlanView::Import {
                directory: directory@,
                destination: destination@,
            },
        }
    }
}

impl DeepView for ImportPlan {
    type V = ImportPlanView;

    open spec fn deep_view(&self) -> ImportPlanView {
        self@
    }
}

/// Whether the library already holds an ebook with this identifier.
pub open spec fn already_imported(existing: Seq<EbookView>, identifier: Seq<char>) -> bool {
    exists|i: int| 0 <= i < existing.len() && existing[i].identifier == identifier
}

/// The directory an imported ebook lives in: the library root, the sanitised
/// author, and the sanitised title, as path segments.
pub open spec fn import_directory(library: Seq<char>, e: EbookView) -> Seq<char> {
    library + "/"@ + sanitized(e.author) + "/"@ + sanitized(e.title)
}

/// The file an imported ebook is copied to, inside its import directory.
pub open spec fn import_destination(library: Seq<char>, e: EbookView) -> Seq<char> {
    import_directory(library, e) + "/"@ + sanitized(e.title) + ".epub"@
}

/// The decision for one offered ebook: skipped exactly when its identifier
/// is already in the library, imported to its author/title spot otherwise.
pub open spec fn planned_import(
    existing: Seq<EbookView>,
    e: EbookView,
    library: Seq<char>,
) -> ImportPlanView {
    if already_imported(existing, e.identifier) {
        ImportPlanView::Skip
    } else {
        ImportPlanView::Import {
            directory: import_directory(library, e),
            destination: import_destination(library, e),
        }
    }
}

/// Decides what to do with one ebook offered for import, against the ebooks
/// the library already holds.
#[verifier::loop_isolation(false)]
pub fn plan_import(existing: &Vec<Ebook>, ebook: &Ebook, library: &str) -> (r: ImportPlan)
    ensures
        r@ == planned_import(existing.deep_view(), ebook@, library@),
{
    let n = existing.len();
    for i in 0..n
        invariant
            forall|j: int|
                0 <= j < i ==> existing.deep_view()[j].identifier != ebook@.identifier,
    {
        if existing[i].identifier == ebook.identifier {
            assert(existing.deep_view()[i as int].identifier == ebook@.identifier);
            return ImportPlan::Skip;
        }
    }
    assert(!already_imported(existing.deep_view(), ebook@.identifier));
    let author = sanitize(ebook.author.as_str());
    let title = sanitize(ebook.title.as_str());
    let mut directory = String::from_str(library);
    directory.append("/");
    directory.append(author.as_str());
    directory.append("/");
    directory.append(title.as_str());
    let mut destination = directory.clone();
    destination.append("/");
    destination.append(title.as_str());
    destination.append(".epub");
    ImportPlan::Import { directory, destination }
}

} // verus!
