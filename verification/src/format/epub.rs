//! Reading the metadata of an epub file.
//!
//! An epub is a zip archive. Its member `META-INF/container.xml` names the
//! metadata document, and that document's Dublin Core elements carry the
//! book's identifier, title and author. Unpacking the archive is the `zip`
//! crate's work and stays behind one trusted reader; what the members mean
//! is decided here and verified against [`parsed_ebook`].

use vstd::prelude::*;

use crate::Ebook;
use crate::EbookView;
use crate::common::bytes_to_string;
use crate::xml;
use crate::xml::{XmlDocument, XmlDocumentView};

verus! {

/// Why an epub file yields no ebook.
#[derive(Debug, Clone, PartialEq, Eq, Structural)]
pub enum EpubError {
    /// The archive cannot be opened or has no `META-INF/container.xml`.
    MissingContainer,
    /// A metadata member is not valid UTF-8 text.
    InvalidText,
    /// The container names no metadata document.
    MalformedContainer,
    /// The named metadata document is not in the archive.
    MissingMetadata,
    /// The metadata carries no identifier.
    MissingIdentifier,
    /// The metadata carries no title.
    MissingTitle,
    /// The metadata carries no author.
    MissingAuthor,
}

/// The bytes of the named member of a zip archive, when the archive parses
/// and has one: a pure function of the archive bytes and the name.
pub uninterp spec fn zip_member_of(archive: Seq<u8>, name: Seq<char>) -> Option<Seq<u8>>;

/// Relies on the `zip` crate's `ZipArchive`: opens the archive over the
/// given bytes and reads the named member whole, a function of the bytes and
/// the name alone.
#[verifier::external_body]
fn zip_member(data: &Vec<u8>, name: &str) -> (r: Option<Vec<u8>>)
    ensures
        r.deep_view() == zip_member_of(data@, name@),
{
    let mut archive = zip::ZipArchive::new(std::io::Cursor::new(data.as_slice())).ok()?;
    let mut member = archive.by_name(name).ok()?;
    let mut out = Vec::new();
    std::io::Read::read_to_end(&mut member, &mut out).ok()?;
    Some(out)
}

/// The document a metadata member's bytes parse to, when they are text.
pub open spec fn document_of_bytes(bytes: Seq<u8>) -> Result<XmlDocumentView, EpubError> {
    if vstd::utf8::valid_utf8(bytes) {
        Ok(xml::document_of(xml::xml_events_of(vstd::utf8::decode_utf8(bytes))))
    } else {
        Err(EpubError::InvalidText)
    }
}

/// The path of the metadata document a container names: the `full-path`
/// attribute of its first `rootfile` element.
pub open spec fn rootfile_path(doc: XmlDocumentView) -> Result<Seq<char>, EpubError> {
    match xml::found_by_tag(doc.elements, "rootfile"@) {
        Some(e) => match xml::attr_value(e.attributes, "full-path"@) {
            Some(p) => Ok(p),
            None => Err(EpubError::MalformedContainer),
        },
        None => Err(EpubError::MalformedContainer),
    }
}

/// The path of an archive's metadata document: the container member decoded,
/// parsed, and its first `rootfile` element's `full-path` attribute read.
pub open spec fn metadata_path_of(archive: Seq<u8>) -> Result<Seq<char>, EpubError> {
    match zip_member_of(archive, "META-INF/container.xml"@) {
        Some(bytes) => match document_of_bytes(bytes) {
            Ok(doc) => rootfile_path(doc),
            Err(e) => Err(e),
        },
        None => Err(EpubError::MissingContainer),
    }
}

/// The ebook a metadata document describes: the contents of its first
/// `dc:identifier`, `dc:title` and `dc:creator` elements, each required.
pub open spec fn ebook_of_metadata(doc: XmlDocumentView, path: Seq<char>) -> Result<
    EbookView,
    EpubError,
> {
    match xml::found_element(doc.elements, Some("dc"@), "identifier"@) {
        None => Err(EpubError::MissingIdentifier),
        Some(ide) => match xml::found_element(doc.elements, Some("dc"@), "title"@) {
            None => Err(EpubError::MissingTitle),
            Some(te) => match xml::found_element(doc.elements, Some("dc"@), "creator"@) {
                None => Err(EpubError::MissingAuthor),
                Some(ce) => Ok(
                    EbookView {
                        identifier: ide.content,
                        title: te.content,
                        author: ce.content,
                        path: path,
                    },
                ),
            },
        },
    }
}

/// The ebook an epub file yields: the metadata document found through the
/// container, decoded and read; the file's path becomes the ebook's path.
pub open spec fn parsed_ebook(archive: Seq<u8>, path: Seq<char>) -> Result<EbookView, EpubError> {
    match metadata_path_of(archive) {
        Ok(mpath) => match zip_member_of(archive, mpath) {
            Some(bytes) => match document_of_bytes(bytes) {
                Ok(doc) => ebook_of_metadata(doc, path),
                Err(e) => Err(e),
            },
            None => Err(EpubError::MissingMetadata),
        },
        Err(e) => Err(e),
    }
}

/// Finds the path of the archive's metadata document inside the container
/// member.
fn get_metadata_path(data: &Vec<u8>) -> (r: Result<String, EpubError>)
    ensures
        match r {
            Ok(p) => metadata_path_of(data@) == Ok::<Seq<char>, EpubError>(p@),
            Err(e) => metadata_path_of(data@) == Err::<Seq<char>, EpubError>(e),
        },
{
    let container = match zip_member(data, "META-INF/container.xml") {
        Some(bytes) => bytes,
        None => {
            return Err(EpubError::MissingContainer);
        },
    };
    proof {
        assert(container.deep_view() =~= container@);
        assert(zip_member_of(data@, "META-INF/container.xml"@) == Some(container@));
    }
    let text = match bytes_to_string(container) {
        Some(text) => text,
        None => {
            return Err(EpubError::InvalidText);
        },
    };
    let document = xml::parse(text.as_str());
    let element = match document.find_by_tag("rootfile") {
        Some(e) => e,
        None => {
            return Err(EpubError::MalformedContainer);
        },
    };
    match element.attribute("full-path") {
        Some(path) => Ok(path.clone()),
        None => Err(EpubError::MalformedContainer),
    }
}

/// Reads and parses the archive member at the metadata path.
fn parse_metadata(data: &Vec<u8>, metadata_path: &str) -> (r: Result<XmlDocument, EpubError>)
    ensures
        match r {
            Ok(doc) => zip_member_of(data@, metadata_path@) matches Some(bytes)
                && document_of_bytes(bytes) == Ok::<XmlDocumentView, EpubError>(doc.deep_view()),
            Err(e) => (zip_member_of(data@, metadata_path@) matches Some(bytes) ==>
                document_of_bytes(bytes) == Err::<XmlDocumentView, EpubError>(e)) && (zip_member_of(
                data@,
                metadata_path@,
            ) is None ==> e == EpubError::MissingMetadata),
        },
{
    let bytes = match zip_member(data, metadata_path) {
        Some(bytes) => bytes,
        None => {
            return Err(EpubError::MissingMetadata);
        },
    };
    proof {
        assert(bytes.deep_view() =~= bytes@);
        assert(zip_member_of(data@, metadata_path@) == Some(bytes@));
    }
    let text = match bytes_to_string(bytes) {
        Some(text) => text,
        None => {
            return Err(EpubError::InvalidText);
        },
    };
    Ok(xml::parse(text.as_str()))
}

/// Reads the ebook an epub file describes: `data` is the file's bytes and
/// `path` the place it was read from, which becomes the ebook's path.
pub fn parse(data: &Vec<u8>, path: &str) -> (r: Result<Ebook, EpubError>)
    ensures
        match r {
            Ok(e) => parsed_ebook(data@, path@) == Ok::<EbookView, EpubError>(e@),
            Err(e) => parsed_ebook(data@, path@) == Err::<EbookView, EpubError>(e),
        },
{
    let metadata_path = match get_metadata_path(data) {
        Ok(p) => p,
        Err(e) => {
            return Err(e);
        },
    };
    let document = match parse_metadata(data, metadata_path.as_str()) {
        Ok(doc) => doc,
        Err(e) => {
            return Err(e);
        },
    };
    let identifier = match document.find_element(Some("dc"), "identifier") {
        Some(e) => e.content.clone(),
        None => {
            return Err(EpubError::MissingIdentifier);
        },
    };
    let title = match document.find_element(Some("dc"), "title") {
        Some(e) => e.content.clone(),
        None => {
            return Err(EpubError::MissingTitle);
        },
    };
    let author = match document.find_element(Some("dc"), "creator") {
        Some(e) => e.content.clone(),
        None => {
            return Err(EpubError::MissingAuthor);
        },
    };
    Ok(Ebook::new(identifier, title, author, path))
}

} // verus!
