//! A small XML document model: the events an XML text yields, folded into a
//! flat list of elements with their attributes and text content.
//!
//! Tokenising the text is the work of the `xml` crate and stays behind one
//! trusted reader; everything built from the events is verified against the
//! fold [`document_of`].

use vstd::prelude::*;

use crate::common::str_eq;

verus! {

/// One event of an XML text, reduced to what the document model keeps:
/// the declaration's encoding, element openings with their attributes, and
/// text content. Everything else an XML text can contain is `Other`.
#[derive(Debug, Clone)]
pub enum XmlEvent {
    StartDocument { encoding: String },
    StartElement { prefix: Option<String>, tag: String, attributes: Vec<(String, String)> },
    Characters(String),
    Other,
}

/// Mathematical model of an [`XmlEvent`].
pub ghost enum XmlEventView {
    StartDocument { encoding: Seq<char> },
    StartElement {
        prefix: Option<Seq<char>>,
        tag: Seq<char>,
        attributes: Seq<(Seq<char>, Seq<char>)>,
    },
    Characters(Seq<char>),
    Other,
}

impl View for XmlEvent {
    type V = XmlEventView;

    open spec fn view(&self) -> XmlEventView {
        match self {
            XmlEvent::StartDocument { encoding } => XmlEventView::StartDocument {
                encoding: encoding@,
            },
            XmlEvent::StartElement { prefix, tag, attributes } => XmlEventView::StartElement {
                prefix: prefix.deep_view(),
                tag: tag@,
                attributes: attributes.deep_view(),
            },
            XmlEvent::Characters(c) => XmlEventView::Characters(c@),
            XmlEvent::Other => XmlEventView::Other,
        }
    }
}

impl DeepView for XmlEvent {
    type V = XmlEventView;

    open spec fn deep_view(&self) -> XmlEventView {
        self@
    }
}

/// The events an XML text yields, in text order: a pure function of the
/// text alone.
pub uninterp spec fn xml_events_of(data: Seq<char>) -> Seq<XmlEventView>;

/// Relies on the `xml` crate's `EventReader`: pull-parses the text into its
/// event sequence, a function of the text alone. Events past the first
/// parse error are not produced.
#[verifier::external_body]
fn read_events(data: &str) -> (r: Vec<XmlEvent>)
    ensures
        r.deep_view() == xml_events_of(data@),
{
    let mut out = Vec::new();
    for event in xml::reader::EventReader::from_str(data) {
        out.push(match event {
            Ok(xml::reader::XmlEvent::StartDocument { encoding, .. }) => XmlEvent::StartDocument { encoding },
            Ok(xml::reader::XmlEvent::StartElement { name, attributes, .. }) => XmlEvent::StartElement { prefix: name.prefix, tag: name.local_name, attributes: attributes.into_iter().map(|a| (a.name.local_name, a.value)).collect() },
            Ok(xml::reader::XmlEvent::Characters(c)) => XmlEvent::Characters(c),
            Ok(_) => XmlEvent::Other,
            Err(_) => break ,
        });
    }
    out
}

/// One element of a parsed document: its optional namespace prefix, tag
/// name, attributes in text order, and text content.
#[derive(Debug, Clone)]
pub struct XmlElement {
    pub prefix: Option<String>,
    pub tag: String,
    pub attributes: Vec<(String, String)>,
    pub content: String,
}

/// Mathematical model of an [`XmlElement`].
pub ghost struct XmlElementView {
    pub prefix: Option<Seq<char>>,
    pub tag: Seq<char>,
    pub attributes: Seq<(Seq<char>, Seq<char>)>,
    pub content: Seq<char>,
}

impl View for XmlElement {
    type V = XmlElementView;

    open spec fn view(&self) -> XmlElementView {
        XmlElementView {
            prefix: self.prefix.deep_view(),
            tag: self.tag@,
            attributes: self.attributes.deep_view(),
            content: self.content@,
        }
    }
}

impl DeepView for XmlElement {
    type V = XmlElementView;

    open spec fn deep_view(&self) -> XmlElementView {
        self@
    }
}

/// A parsed document: its declared encoding and its elements, flattened in
/// the order their opening tags appear.
#[derive(Debug)]
pub struct XmlDocument {
    pub encoding: String,
    pub elements: Vec<XmlElement>,
}

/// Mathematical model of an [`XmlDocument`].
pub ghost struct XmlDocumentView {
    pub encoding: Seq<char>,
    pub elements: Seq<XmlElementView>,
}

impl View for XmlDocument {
    type V = XmlDocumentView;

    open spec fn view(&self) -> XmlDocumentView {
        XmlDocumentView { encoding: self.encoding@, elements: self.elements.deep_view() }
    }
}

impl DeepView for XmlDocument {
    type V = XmlDocumentView;

    open spec fn deep_view(&self) -> XmlDocumentView {
        self@
    }
}

/// The empty document.
pub open spec fn empty_document() -> XmlDocumentView {
    XmlDocumentView { encoding: Seq::empty(), elements: Seq::empty() }
}

/// How one event changes the document built so far: the declaration sets the
/// encoding, an opening tag appends an element with empty content, text
/// becomes the content of the latest element (text before any element is
/// dropped), and any other event changes nothing.
pub open spec fn apply_event(doc: XmlDocumentView, ev: XmlEventView) -> XmlDocumentView {
    match ev {
        XmlEventView::StartDocument { encoding } => XmlDocumentView {
            encoding: encoding,
            elements: doc.elements,
        },
        XmlEventView::StartElement { prefix, tag, attributes } => XmlDocumentView {
            encoding: doc.encoding,
            elements: doc.elements.push(
                XmlElementView { prefix, tag, attributes, content: Seq::empty() },
            ),
        },
        XmlEventView::Characters(c) => {
            if doc.elements.len() > 0 {
                let i = doc.elements.len() - 1;
                XmlDocumentView {
                    encoding: doc.encoding,
                    elements: doc.elements.update(
                        i,
                        XmlElementView {
                            prefix: doc.elements[i].prefix,
                            tag: doc.elements[i].tag,
                            attributes: doc.elements[i].attributes,
                            content: c,
                        },
                    ),
                }
            } else {
                doc
            }
        },
        XmlEventView::Other => doc,
    }
}

/// The document an event sequence folds to, event by event from the empty
/// document.
pub open spec fn document_of(events: Seq<XmlEventView>) -> XmlDocumentView
    decreases events.len(),
{
    if events.len() == 0 {
        empty_document()
    } else {
        apply_event(document_of(events.drop_last()), events.last())
    }
}

impl XmlDocument {
    /// Returns the empty document.
    pub fn new() -> (doc: XmlDocument)
        ensures
            doc@ == empty_document(),
    {
        let doc = XmlDocument { encoding: String::new(), elements: Vec::new() };
        proof {
            assert(doc@.elements =~= empty_document().elements);
            assert(doc@ =~= empty_document());
        }
        doc
    }
}

/// Clones an option of a string.
fn clone_opt_string(o: &Option<String>) -> (r: Option<String>)
    ensures
        r.deep_view() == o.deep_view(),
{
    match o {
        Some(s) => Some(s.clone()),
        None => None,
    }
}

/// Clones an attribute list.
#[verifier::loop_isolation(false)]
fn clone_attrs(attrs: &Vec<(String, String)>) -> (r: Vec<(String, String)>)
    ensures
        r.deep_view() == attrs.deep_view(),
{
    let mut out: Vec<(String, String)> = Vec::new();
    proof {
        assert(out.deep_view() =~= attrs.deep_view().take(0));
    }
    let n = attrs.len();
    for i in 0..n
        invariant
            out.deep_view() == attrs.deep_view().take(i as int),
    {
        let ghost prev = out.deep_view();
        out.push((attrs[i].0.clone(), attrs[i].1.clone()));
        proof {
            assert(out.deep_view() =~= attrs.deep_view().take(i + 1));
        }
    }
    proof {
        assert(attrs.deep_view().take(n as int) =~= attrs.deep_view());
    }
    out
}

/// Folds an event sequence into a document, exactly as [`document_of`]
/// states.
#[verifier::loop_isolation(false)]
pub fn build_document(events: &Vec<XmlEvent>) -> (doc: XmlDocument)
    ensures
        doc.deep_view() == document_of(events.deep_view()),
{
    let mut doc = XmlDocument::new();
    proof {
        assert(events.deep_view().take(0) =~= Seq::<XmlEventView>::empty());
    }
    let n = events.len();
    for i in 0..n
        invariant
            doc.deep_view() == document_of(events.deep_view().take(i as int)),
    {
        let ghost prev = doc.deep_view();
        match &events[i] {
            XmlEvent::StartDocument { encoding } => {
                doc.encoding = encoding.clone();
            },
            XmlEvent::StartElement { prefix, tag, attributes } => {
                doc.elements.push(
                    XmlElement {
                        prefix: clone_opt_string(prefix),
                        tag: tag.clone(),
                        attributes: clone_attrs(attributes),
                        content: String::new(),
                    },
                );
                proof {
                    assert(doc.deep_view().elements =~= apply_event(
                        prev,
                        events.deep_view()[i as int],
                    ).elements);
                }
            },
            XmlEvent::Characters(c) => {
                match doc.elements.pop() {
                    Some(element) => {
                        let updated = XmlElement {
                            prefix: element.prefix,
                            tag: element.tag,
                            attributes: element.attributes,
                            content: c.clone(),
                        };
                        doc.elements.push(updated);
                        proof {
                            assert(doc.deep_view().elements =~= apply_event(
                                prev,
                                events.deep_view()[i as int],
                            ).elements);
                        }
                    },
                    None => {},
                }
            },
            XmlEvent::Other => {},
        }
        proof {
            assert(events.deep_view().take(i + 1).drop_last() =~= events.deep_view().take(i as int));
            assert(events.deep_view().take(i + 1).last() == events@[i as int]@);
            assert(doc.deep_view() =~= document_of(events.deep_view().take(i + 1)));
        }
    }
    proof {
        assert(events.deep_view().take(n as int) =~= events.deep_view());
    }
    doc
}

/// Parses an XML text into its document: the events the text yields, folded
/// into encoding, elements, attributes and content.
pub fn parse(data: &str) -> (doc: XmlDocument)
    ensures
        doc.deep_view() == document_of(xml_events_of(data@)),
{
    let events = read_events(data);
    build_document(&events)
}

/// The value of the first attribute with this name, when the element has
/// one.
pub open spec fn attr_value(attrs: Seq<(Seq<char>, Seq<char>)>, key: Seq<char>) -> Option<
    Seq<char>,
>
    decreases attrs.len(),
{
    if attrs.len() == 0 {
        None
    } else if attrs.first().0 == key {
        Some(attrs.first().1)
    } else {
        attr_value(attrs.drop_first(), key)
    }
}

/// Whether an element's prefix and tag are the ones looked for.
pub open spec fn element_matches(
    e: XmlElementView,
    prefix: Option<Seq<char>>,
    tag: Seq<char>,
) -> bool {
    e.prefix == prefix && e.tag == tag
}

/// The first element with this prefix and tag, when the document has one.
pub open spec fn found_element(
    elements: Seq<XmlElementView>,
    prefix: Option<Seq<char>>,
    tag: Seq<char>,
) -> Option<XmlElementView>
    decreases elements.len(),
{
    if elements.len() == 0 {
        None
    } else if element_matches(elements.first(), prefix, tag) {
        Some(elements.first())
    } else {
        found_element(elements.drop_first(), prefix, tag)
    }
}

impl XmlElement {
    /// Returns the value of the first attribute named `key`, if any.
    #[verifier::loop_isolation(false)]
    pub fn attribute(&self, key: &str) -> (r: Option<&String>)
        ensures
            r.deep_view() == attr_value(self@.attributes, key@),
    {
        let ghost attrs = self@.attributes;
        let n = self.attributes.len();
        proof {
            assert(attrs.skip(0) =~= attrs);
        }
        for i in 0..n
            invariant
                attr_value(attrs, key@) == attr_value(attrs.skip(i as int), key@),
        {
            proof {
                assert(attrs.skip(i as int).first() == attrs[i as int]);
            }
            if str_eq(self.attributes[i].0.as_str(), key) {
                return Some(&self.attributes[i].1);
            }
            proof {
                assert(attrs.skip(i as int).drop_first() =~= attrs.skip(i + 1));
            }
        }
        proof {
            assert(attrs.skip(n as int) =~= Seq::<(Seq<char>, Seq<char>)>::empty());
        }
        None
    }
}

/// The first element with this tag, whatever its prefix, when the document
/// has one.
pub open spec fn found_by_tag(elements: Seq<XmlElementView>, tag: Seq<char>) -> Option<
    XmlElementView,
>
    decreases elements.len(),
{
    if elements.len() == 0 {
        None
    } else if elements.first().tag == tag {
        Some(elements.first())
    } else {
        found_by_tag(elements.drop_first(), tag)
    }
}

impl XmlDocument {
    /// Returns the first element with this tag, whatever its prefix, if any.
    #[verifier::loop_isolation(false)]
    pub fn find_by_tag(&self, tag: &str) -> (r: Option<&XmlElement>)
        ensures
            r.deep_view() == found_by_tag(self@.elements, tag@),
    {
        let ghost elems = self@.elements;
        let n = self.elements.len();
        proof {
            assert(elems.skip(0) =~= elems);
        }
        for i in 0..n
            invariant
                found_by_tag(elems, tag@) == found_by_tag(elems.skip(i as int), tag@),
        {
            proof {
                assert(elems.skip(i as int).first() == elems[i as int]);
            }
            let e = &self.elements[i];
            if str_eq(e.tag.as_str(), tag) {
                return Some(e);
            }
            proof {
                assert(elems.skip(i as int).drop_first() =~= elems.skip(i + 1));
            }
        }
        proof {
            assert(elems.skip(n as int) =~= Seq::<XmlElementView>::empty());
        }
        None
    }

    /// Returns the first element with this prefix and tag, if any.
    #[verifier::loop_isolation(false)]
    pub fn find_element(&self, prefix: Option<&str>, tag: &str) -> (r: Option<&XmlElement>)
        ensures
            r.deep_view() == found_element(self@.elements, prefix.deep_view(), tag@),
    {
        let ghost elems = self@.elements;
        let ghost p = prefix.deep_view();
        let n = self.elements.len();
        proof {
            assert(elems.skip(0) =~= elems);
        }
        for i in 0..n
            invariant
                found_element(elems, p, tag@) == found_element(elems.skip(i as int), p, tag@),
        {
            proof {
                assert(elems.skip(i as int).first() == elems[i as int]);
            }
            let e = &self.elements[i];
            let prefix_matches = match (&e.prefix, prefix) {
                (Some(a), Some(b)) => str_eq(a.as_str(), b),
                (None, None) => true,
                _ => false,
            };
            if prefix_matches && str_eq(e.tag.as_str(), tag) {
                return Some(e);
            }
            proof {
                assert(elems.skip(i as int).drop_first() =~= elems.skip(i + 1));
            }
        }
        proof {
            assert(elems.skip(n as int) =~= Seq::<XmlElementView>::empty());
        }
        None
    }
}

} // verus!
