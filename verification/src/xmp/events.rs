//! The events of an XML document as far as XMP needs them.
use vstd::prelude::*;
use xml::name::OwnedName;
use xml::reader::XmlEvent;

verus! {

/// The name of an element or an attribute.
#[derive(Debug, Clone, PartialEq, Eq)]
pub struct Name {
    pub local: String,
    pub namespace: Option<String>,
}

/// What a parser meets in an XML document.
#[derive(Debug, Clone, PartialEq, Eq)]
pub enum Event {
    /// The start of an element, with its attributes
    Start(Name, Vec<(Name, String)>),
    /// The end of an element
    End(Name),
    /// Text
    Characters(String),
    /// Everything else: declarations, comments, white space
    Other,
}

/// A name as the contracts see it.
pub struct NameView {
    pub local: Seq<char>,
    pub namespace: Option<Seq<char>>,
}

/// An event as the contracts see it.
pub enum EventView {
    Start(NameView, Seq<(NameView, Seq<char>)>),
    End(NameView),
    Characters(Seq<char>),
    Other,
}

impl View for Name {
    type V = NameView;

    open spec fn view(&self) -> NameView {
        NameView {
            local: self.local@,
            namespace: match self.namespace {
                Some(url) => Some(url@),
                None => None,
            },
        }
    }
}

impl View for Event {
    type V = EventView;

    open spec fn view(&self) -> EventView {
        match self {
            Event::Start(name, attributes) => EventView::Start(
                name@,
                Seq::new(attributes@.len(), |i: int| (attributes@[i].0@, attributes@[i].1@)),
            ),
            Event::End(name) => EventView::End(name@),
            Event::Characters(text) => EventView::Characters(text@),
            Event::Other => EventView::Other,
        }
    }
}

/// The views of some events.
pub open spec fn events_view(events: Seq<Event>) -> Seq<EventView> {
    Seq::new(events.len(), |i: int| events[i]@)
}

/// The events that an XML parser reads from a document, reduced to what
/// XMP needs; `None` for what is no XML document.
pub uninterp spec fn xml_events(data: Seq<u8>) -> Option<Seq<EventView>>;

/// Reads the events of an XML document.
///
/// Runs the reader of `xml-rs` over the bytes, white space at the root
/// included, and keeps of each event what XMP needs. The contract names
/// what comes out; it is a function of the bytes alone.
#[verifier::external_body]
pub(crate) fn read_events(data: &[u8]) -> (events: Option<Vec<Event>>)
    ensures
        match xml_events(data@) {
            Some(found) => events is Some && events_view(events->Some_0@) == found,
            None => events is None,
        },
{
    let name = |n: &OwnedName| Name { local: n.local_name.clone(), namespace: n.namespace.clone() };
    let reader = xml::ParserConfig::default().ignore_root_level_whitespace(false);
    let mut events = Vec::new();
    for event in reader.create_reader(std::io::Cursor::new(data)) {
        events.push(match event.ok()? {
            XmlEvent::StartElement { name: n, attributes, .. } => Event::Start(name(&n), attributes.iter().map(|a| (name(&a.name), a.value.clone())).collect()),
            XmlEvent::EndElement { name: n } => Event::End(name(&n)),
            XmlEvent::Characters(text) => Event::Characters(text),
            _ => Event::Other,
        });
    }
    Some(events)
}

/// `xml::reader::XmlEvent`, an event as the reader of `xml-rs` gives it, so
/// that it can be carried from the reader to the writer. Nothing is known of
/// what is inside.
#[verifier::external_type_specification]
#[verifier::external_body]
pub struct ExXmlEvent(xml::reader::XmlEvent);

/// Reads the events of an XML document as the reader gives them.
///
/// Runs the reader of `xml-rs` over the bytes, white space at the root
/// included. Nothing is claimed of what comes out.
#[verifier::external_body]
pub(crate) fn read_raw(data: &[u8]) -> (events: Option<Vec<XmlEvent>>) {
    let reader = xml::ParserConfig::default().ignore_root_level_whitespace(false);
    reader.create_reader(std::io::Cursor::new(data)).into_iter().collect::<Result<Vec<_>, _>>().ok()
}

/// Gives an event another text: the start of an element as the value of
/// its attribute at `attribute`, text as itself.
///
/// Assigns to the fields of `xml::reader::XmlEvent`. Nothing is claimed of
/// what comes out.
#[verifier::external_body]
pub(crate) fn set_text(events: &mut Vec<XmlEvent>, at: usize, attribute: usize, value: &str)
    ensures
        final(events)@.len() == old(events)@.len(),
{
    match events.get_mut(at) {
        Some(XmlEvent::StartElement { attributes, .. }) => {
            attributes.get_mut(attribute).into_iter().for_each(|a| a.value = value.to_string())
        },
        Some(XmlEvent::Characters(text)) => *text = value.to_string(),
        _ => {},
    }
}

/// Writes events as an XML document, without a declaration.
///
/// Runs the writer of `xml-rs` over the events. Nothing is claimed of what
/// comes out.
#[verifier::external_body]
pub(crate) fn write_raw(events: &Vec<XmlEvent>) -> (data: Option<Vec<u8>>) {
    let mut output = Vec::new();
    let config = xml::EmitterConfig::default().write_document_declaration(false).pad_self_closing(false);
    let mut writer = config.create_writer(&mut output);
    for event in events.iter().filter_map(|e| e.as_writer_event()) {
        writer.write(event).ok()?;
    }
    Some(output)
}

} // verus!
