use std::io::Write;

use libri::common::{find_books, sanitize};
use libri::format::epub::{self, EpubError};
use libri::import::{ImportPlan, plan_import};
use libri::list::get_ebooks;
use libri::xml;
use libri::Ebook;

#[test]
fn sanitize_clean_path() {
    let path = "/foo/bar.txt";
    let sanitized_path = sanitize(&path);
    assert_eq!(sanitized_path, path);
}

#[test]
fn sanitize_dirty_path() {
    let path = "/foo:bar.txt";
    let sanitized_path = sanitize(&path);
    assert_eq!(sanitized_path, "/foo_bar.txt");
}

#[test]
fn parse_simple_xml() {
    let xml = "<test attr='value'>contents</test>";
    let document = xml::parse(xml);
    assert_eq!(1, document.elements.len());
    let element = document.elements.get(0).unwrap();
    assert_eq!(element.prefix, None);
    assert_eq!(element.tag, "test");
    assert_eq!(element.attributes, vec![("attr".to_string(), "value".to_string())]);
    assert_eq!(element.content, "contents");
}

#[test]
fn parse_xml_prefix_and_encoding() {
    let document = xml::parse(
        "<?xml version='1.0' encoding='utf-8'?><r xmlns:dc='http://purl.org/dc/elements/1.1/'><dc:title>T</dc:title></r>",
    );
    assert_eq!(document.encoding, "utf-8");
    assert_eq!(document.elements.len(), 2);
    let title = document.find_element(Some("dc"), "title").unwrap();
    assert_eq!(title.content, "T");
    assert!(document.find_element(None, "title").is_none());
    assert_eq!(document.find_by_tag("title").unwrap().content, "T");
}

#[test]
fn find_books_keeps_epub_paths_in_order() {
    let paths = vec![
        "/lib/a.epub".to_string(),
        "/lib/notes.txt".to_string(),
        "/lib/.epub".to_string(),
        "/lib/b.tar.epub".to_string(),
    ];
    let books = find_books(&paths);
    assert_eq!(books, vec!["/lib/a.epub".to_string(), "/lib/b.tar.epub".to_string()]);
}

const CONTAINER_XML: &str = "<container version='1.0'><rootfiles>\
<rootfile full-path='content.opf' media-type='application/oebps-package+xml'/>\
</rootfiles></container>";

const CONTENT_OPF: &str = "<package xmlns:dc='http://purl.org/dc/elements/1.1/'>\
<metadata><dc:identifier>urn:isbn:1</dc:identifier>\
<dc:title>A Title</dc:title><dc:creator>An Author</dc:creator></metadata></package>";

fn epub_bytes(members: &[(&str, &str)]) -> Vec<u8> {
    let mut writer = zip::ZipWriter::new(std::io::Cursor::new(Vec::new()));
    let options = zip::write::SimpleFileOptions::default();
    for (name, contents) in members {
        writer.start_file(*name, options).unwrap();
        writer.write_all(contents.as_bytes()).unwrap();
    }
    writer.finish().unwrap().into_inner()
}

#[test]
fn parse_epub_reads_metadata() {
    let bytes = epub_bytes(&[("META-INF/container.xml", CONTAINER_XML), ("content.opf", CONTENT_OPF)]);
    let ebook = epub::parse(&bytes, "/lib/book.epub").unwrap();
    assert_eq!(ebook.identifier, "urn:isbn:1");
    assert_eq!(ebook.title, "A Title");
    assert_eq!(ebook.author, "An Author");
    assert_eq!(ebook.path, "/lib/book.epub");
}

#[test]
fn parse_epub_without_container_fails() {
    let bytes = epub_bytes(&[("content.opf", CONTENT_OPF)]);
    assert_eq!(epub::parse(&bytes, "/x").unwrap_err(), EpubError::MissingContainer);
    assert_eq!(epub::parse(&b"not a zip".to_vec(), "/x").unwrap_err(), EpubError::MissingContainer);
}

#[test]
fn parse_epub_malformed_container_fails() {
    let bytes = epub_bytes(&[("META-INF/container.xml", "<container/>"), ("content.opf", CONTENT_OPF)]);
    assert_eq!(epub::parse(&bytes, "/x").unwrap_err(), EpubError::MalformedContainer);
    let bytes = epub_bytes(&[("META-INF/container.xml", "<container><rootfile/></container>")]);
    assert_eq!(epub::parse(&bytes, "/x").unwrap_err(), EpubError::MalformedContainer);
}

#[test]
fn parse_epub_missing_metadata_member_fails() {
    let bytes = epub_bytes(&[("META-INF/container.xml", CONTAINER_XML)]);
    assert_eq!(epub::parse(&bytes, "/x").unwrap_err(), EpubError::MissingMetadata);
}

#[test]
fn parse_epub_incomplete_metadata_fails() {
    let no_title = "<package xmlns:dc='http://purl.org/dc/elements/1.1/'><metadata>\
<dc:identifier>i</dc:identifier><dc:creator>c</dc:creator></metadata></package>";
    let bytes = epub_bytes(&[("META-INF/container.xml", CONTAINER_XML), ("content.opf", no_title)]);
    assert_eq!(epub::parse(&bytes, "/x").unwrap_err(), EpubError::MissingTitle);

    let no_creator = "<package xmlns:dc='http://purl.org/dc/elements/1.1/'><metadata>\
<dc:identifier>i</dc:identifier><dc:title>t</dc:title></metadata></package>";
    let bytes = epub_bytes(&[("META-INF/container.xml", CONTAINER_XML), ("content.opf", no_creator)]);
    assert_eq!(epub::parse(&bytes, "/x").unwrap_err(), EpubError::MissingAuthor);

    let no_identifier = "<package xmlns:dc='http://purl.org/dc/elements/1.1/'><metadata>\
<dc:title>t</dc:title><dc:creator>c</dc:creator></metadata></package>";
    let bytes = epub_bytes(&[("META-INF/container.xml", CONTAINER_XML), ("content.opf", no_identifier)]);
    assert_eq!(epub::parse(&bytes, "/x").unwrap_err(), EpubError::MissingIdentifier);
}

#[test]
fn parse_epub_invalid_text_fails() {
    let mut writer = zip::ZipWriter::new(std::io::Cursor::new(Vec::new()));
    let options = zip::write::SimpleFileOptions::default();
    writer.start_file("META-INF/container.xml", options).unwrap();
    writer.write_all(&[0xff, 0xfe, 0x00]).unwrap();
    let bytes = writer.finish().unwrap().into_inner();
    assert_eq!(epub::parse(&bytes, "/x").unwrap_err(), EpubError::InvalidText);
}

#[test]
fn get_ebooks_reads_every_file() {
    let bytes = epub_bytes(&[("META-INF/container.xml", CONTAINER_XML), ("content.opf", CONTENT_OPF)]);
    let files = vec![("/lib/a.epub".to_string(), bytes.clone()), ("/lib/b.epub".to_string(), bytes)];
    let ebooks = get_ebooks(&files).unwrap();
    assert_eq!(ebooks.len(), 2);
    assert_eq!(ebooks[0].path, "/lib/a.epub");
    assert_eq!(ebooks[1].path, "/lib/b.epub");
}

#[test]
fn get_ebooks_fails_on_first_bad_file() {
    let good = epub_bytes(&[("META-INF/container.xml", CONTAINER_XML), ("content.opf", CONTENT_OPF)]);
    let files = vec![
        ("/lib/a.epub".to_string(), good),
        ("/lib/b.epub".to_string(), b"broken".to_vec()),
    ];
    assert_eq!(get_ebooks(&files).unwrap_err(), EpubError::MissingContainer);
}

#[test]
fn plan_import_skips_known_identifier() {
    let existing = vec![Ebook::new(
        "urn:isbn:1".to_string(),
        "Old".to_string(),
        "Author".to_string(),
        "/lib/old.epub",
    )];
    let offered = Ebook::new(
        "urn:isbn:1".to_string(),
        "A Title".to_string(),
        "An Author".to_string(),
        "/incoming/book.epub",
    );
    assert!(matches!(plan_import(&existing, &offered, "/lib"), ImportPlan::Skip));
}

#[test]
fn plan_import_places_new_book_by_author_and_title() {
    let offered = Ebook::new(
        "urn:isbn:2".to_string(),
        "Title: Sub".to_string(),
        "An Author".to_string(),
        "/incoming/book.epub",
    );
    match plan_import(&Vec::new(), &offered, "/lib") {
        ImportPlan::Import { directory, destination } => {
            assert_eq!(directory, "/lib/An Author/Title_ Sub");
            assert_eq!(destination, "/lib/An Author/Title_ Sub/Title_ Sub.epub");
        },
        ImportPlan::Skip => panic!("a new identifier must be imported"),
    }
}
