//! From the events of an XML document to the properties of XMP.
use vstd::prelude::*;
use crate::common::xmp::{same_text, Field, Namespace};
use crate::xmp::events::{Event, EventView, Name, NameView};

verus! {

/// The namespace of RDF.
pub const XML_NS_RDF: &'static str = "http://www.w3.org/1999/02/22-rdf-syntax-ns#";

/// The name of a property: its namespace and its local name.
#[derive(Debug, Clone, PartialEq, Eq)]
pub struct Tag {
    pub namespace: Namespace,
    pub name: String,
}

/// A tag as the contracts see it: the URL of its namespace and its name.
pub struct TagView {
    pub url: Seq<char>,
    pub name: Seq<char>,
}

impl View for Tag {
    type V = TagView;

    open spec fn view(&self) -> TagView {
        TagView { url: self.namespace.url(), name: self.name@ }
    }
}

/// Where the reader stands.
#[derive(Debug, Clone, PartialEq, Eq)]
pub enum ReaderState {
    Nothing,
    /// Inside a description where the XMP properties are defined
    RdfDescription,
    /// Inside an XMP property (also called XMP packet)
    Property(Tag),
}

/// The state of the reader as the contracts see it.
pub enum StateView {
    Nothing,
    RdfDescription,
    Property(TagView),
}

impl View for ReaderState {
    type V = StateView;

    open spec fn view(&self) -> StateView {
        match self {
            ReaderState::Nothing => StateView::Nothing,
            ReaderState::RdfDescription => StateView::RdfDescription,
            ReaderState::Property(tag) => StateView::Property(tag@),
        }
    }
}

/// The tag that a name stands for: a name without namespace stands for
/// none.
pub open spec fn tag_of(name: NameView) -> Option<TagView> {
    match name.namespace {
        Some(url) => Some(TagView { url, name: name.local }),
        None => None,
    }
}

/// Whether a name is `Description` in the namespace of RDF.
pub open spec fn is_rdf_description(name: NameView) -> bool {
    name.local == "Description"@ && name.namespace == Some(XML_NS_RDF@)
}

/// The value of a tag among the first `k` properties.
pub open spec fn value_of(properties: Seq<(TagView, Seq<char>)>, tag: TagView, k: nat) -> Option<
    Seq<char>,
>
    decreases k,
{
    if k == 0 {
        None
    } else {
        match value_of(properties, tag, (k - 1) as nat) {
            Some(value) => Some(value),
            None => if properties[k - 1].0 == tag {
                Some(properties[k - 1].1)
            } else {
                None
            },
        }
    }
}

/// The properties with one more, unless the tag has a value already: the
/// first value of a tag is the one that counts.
pub open spec fn or_insert(properties: Seq<(TagView, Seq<char>)>, tag: TagView, value: Seq<char>) -> Seq<
    (TagView, Seq<char>),
> {
    if value_of(properties, tag, properties.len()) is Some {
        properties
    } else {
        properties.push((tag, value))
    }
}

/// The properties after the first `k` attributes of a description were
/// read: each attribute with a namespace is a property.
pub open spec fn with_attributes(
    properties: Seq<(TagView, Seq<char>)>,
    attributes: Seq<(NameView, Seq<char>)>,
    k: nat,
) -> Seq<(TagView, Seq<char>)>
    decreases k,
{
    if k == 0 {
        properties
    } else {
        let before = with_attributes(properties, attributes, (k - 1) as nat);
        match tag_of(attributes[k - 1].0) {
            Some(tag) => or_insert(before, tag, attributes[k - 1].1),
            None => before,
        }
    }
}

/// The state of the reader behind an event.
///
/// A description starts with its element. Inside a description, an element
/// with a namespace starts a property. Every end of an element closes the
/// property that is open; the end of a description closes it.
pub open spec fn next_state(state: StateView, event: EventView) -> StateView {
    match event {
        EventView::Start(name, _) => if is_rdf_description(name) {
            StateView::RdfDescription
        } else if state is RdfDescription {
            match tag_of(name) {
                Some(tag) => StateView::Property(tag),
                None => state,
            }
        } else {
            state
        },
        EventView::End(name) => match state {
            StateView::RdfDescription => if is_rdf_description(name) {
                StateView::Nothing
            } else {
                state
            },
            StateView::Property(_) => StateView::RdfDescription,
            StateView::Nothing => state,
        },
        _ => state,
    }
}

/// The properties behind an event: the attributes of a description are
/// properties, and so is the text inside a property.
pub open spec fn next_properties(
    state: StateView,
    properties: Seq<(TagView, Seq<char>)>,
    event: EventView,
) -> Seq<(TagView, Seq<char>)> {
    match event {
        EventView::Start(name, attributes) => if is_rdf_description(name) {
            with_attributes(properties, attributes, attributes.len())
        } else {
            properties
        },
        EventView::Characters(text) => match state {
            StateView::Property(tag) => or_insert(properties, tag, text),
            _ => properties,
        },
        _ => properties,
    }
}

/// The state of the reader and the properties behind the first `k` events.
pub open spec fn read(events: Seq<EventView>, k: nat) -> (StateView, Seq<(TagView, Seq<char>)>)
    decreases k,
{
    if k == 0 {
        (StateView::Nothing, Seq::empty())
    } else {
        let before = read(events, (k - 1) as nat);
        (
            next_state(before.0, events[k - 1]),
            next_properties(before.0, before.1, events[k - 1]),
        )
    }
}

/// The properties of a document.
pub open spec fn properties_of(events: Seq<EventView>) -> Seq<(TagView, Seq<char>)> {
    read(events, events.len()).1
}

/// The views of some properties.
pub open spec fn properties_view(properties: Seq<(Tag, String)>) -> Seq<(TagView, Seq<char>)> {
    Seq::new(properties.len(), |i: int| (properties[i].0@, properties[i].1@))
}

impl Tag {
    pub fn new(namespace: Namespace, name: String) -> (tag: Tag)
        ensures
            tag.namespace == namespace,
            tag.name == name,
    {
        Tag { namespace, name }
    }

    /// The tag of a known field.
    pub open spec fn key<T: Field>() -> TagView {
        TagView { url: T::namespace().url(), name: T::name() }
    }

    /// The tag of a known field.
    pub fn of<T: Field>(_field: T) -> (tag: Tag)
        ensures
            tag@ == Tag::key::<T>(),
    {
        Tag {
            name: T::field_name().to_owned(),
            namespace: Namespace::from_url(T::field_namespace().to_url()),
        }
    }

    /// The tag that a name stands for: a name without namespace stands for
    /// none.
    pub fn from_name(name: &Name) -> (tag: Option<Tag>)
        ensures
            match tag_of(name@) {
                Some(view) => tag is Some && tag->Some_0@ == view,
                None => tag is None,
            },
    {
        match &name.namespace {
            Some(namespace_url) => {
                let namespace = Namespace::from_url(namespace_url.as_str());
                Some(Tag::new(namespace, name.local.clone()))
            },
            None => None,
        }
    }

    /// Whether two tags are the same: whether they have the same namespace
    /// and the same name.
    pub fn same(&self, other: &Tag) -> (same: bool)
        ensures
            same == (self@ == other@),
    {
        let same = same_text(self.namespace.to_url(), other.namespace.to_url()) && same_text(
            self.name.as_str(),
            other.name.as_str(),
        );
        proof {
            if self.namespace.url() == other.namespace.url() && self.name@ == other.name@ {
                assert(self@ == other@);
            }
        }
        same
    }

    /// A copy of the tag.
    pub fn copy(&self) -> (tag: Tag)
        ensures
            tag@ == self@,
    {
        Tag { namespace: Namespace::from_url(self.namespace.to_url()), name: self.name.clone() }
    }
}

/// Whether a name is `Description` in the namespace of RDF.
pub fn rdf_description(name: &Name) -> (yes: bool)
    ensures
        yes == is_rdf_description(name@),
{
    match &name.namespace {
        Some(url) => same_text(name.local.as_str(), "Description") && same_text(
            url.as_str(),
            XML_NS_RDF,
        ),
        None => false,
    }
}

/// The value of a tag among some properties: the first one.
pub fn lookup<'a>(properties: &'a Vec<(Tag, String)>, tag: &Tag) -> (value: Option<&'a String>)
    ensures
        match value_of(properties_view(properties@), tag@, properties@.len()) {
            Some(text) => value is Some && value->Some_0@ == text,
            None => value is None,
        },
{
    let n = properties.len();
    let mut k: usize = 0;
    while k < n
        invariant
            k <= n,
            n == properties@.len(),
            value_of(properties_view(properties@), tag@, k as nat) is None,
        decreases n - k,
    {
        if properties[k].0.same(tag) {
            proof {
                value_of_found(properties_view(properties@), tag@, k as nat, n as nat);
            }
            return Some(&properties[k].1);
        }
        k += 1;
    }
    None
}

/// Adds a property unless its tag has a value already.
pub fn insert_new(properties: &mut Vec<(Tag, String)>, tag: Tag, value: String)
    ensures
        properties_view(final(properties)@) == or_insert(
            properties_view(old(properties)@),
            tag@,
            value@,
        ),
{
    if lookup(properties, &tag).is_none() {
        let ghost before = properties_view(properties@);
        properties.push((tag, value));
        assert(properties_view(properties@) =~= before.push((tag@, value@)));
    }
}

/// Reads the properties of a document from its events.
pub fn collect(events: &Vec<Event>) -> (properties: Vec<(Tag, String)>)
    ensures
        properties_view(properties@) == properties_of(crate::xmp::events::events_view(events@)),
{
    let ghost views = crate::xmp::events::events_view(events@);
    let mut reader_state = ReaderState::Nothing;
    let mut found_properties: Vec<(Tag, String)> = Vec::new();
    let n = events.len();
    let mut k: usize = 0;
    assert(properties_view(found_properties@) =~= Seq::empty());
    while k < n
        invariant
            k <= n,
            n == events@.len(),
            views == crate::xmp::events::events_view(events@),
            read(views, k as nat) == (reader_state@, properties_view(found_properties@)),
        decreases n - k,
    {
        assert(views[k as int] == events@[k as int]@);
        match &events[k] {
            Event::Start(name, attributes) => {
                if rdf_description(name) {
                    // Start of a rdf:Description section with XMP elements
                    reader_state = ReaderState::RdfDescription;
                    // The rdf:Description element can contain simple XMP properties directly as
                    // attributes according to Section 7.9.2.2 of Part 1
                    let ghost start = properties_view(found_properties@);
                    let ghost pairs = Seq::new(
                        attributes@.len(),
                        |i: int| (attributes@[i].0@, attributes@[i].1@),
                    );
                    let m = attributes.len();
                    let mut i: usize = 0;
                    while i < m
                        invariant
                            i <= m,
                            m == attributes@.len(),
                            pairs == Seq::new(
                                attributes@.len(),
                                |j: int| (attributes@[j].0@, attributes@[j].1@),
                            ),
                            properties_view(found_properties@) == with_attributes(
                                start,
                                pairs,
                                i as nat,
                            ),
                        decreases m - i,
                    {
                        if let Some(tag) = Tag::from_name(&attributes[i].0) {
                            // Store property
                            insert_new(&mut found_properties, tag, attributes[i].1.clone());
                        }
                        i += 1;
                    }
                } else if let ReaderState::RdfDescription = reader_state {
                    // Inside rdf:Description, hence we are entering a property
                    if let Some(tag) = Tag::from_name(name) {
                        reader_state = ReaderState::Property(tag);
                    }
                }
            },
            Event::Characters(data) => {
                if let ReaderState::Property(tag) = &reader_state {
                    // Store property
                    insert_new(&mut found_properties, tag.copy(), data.clone());
                }
            },
            Event::End(name) => {
                let closes = rdf_description(name);
                reader_state = match reader_state {
                    ReaderState::RdfDescription => if closes {
                        // rdf:Description closed
                        ReaderState::Nothing
                    } else {
                        ReaderState::RdfDescription
                    },
                    // Property closed
                    ReaderState::Property(_) => ReaderState::RdfDescription,
                    ReaderState::Nothing => ReaderState::Nothing,
                };
            },
            Event::Other => {},
        }
        k += 1;
    }
    found_properties
}

/// The first value of a tag stays the first as more properties are looked
/// at.
pub proof fn value_of_found(properties: Seq<(TagView, Seq<char>)>, tag: TagView, k: nat, n: nat)
    requires
        k < n,
        value_of(properties, tag, k) is None,
        properties[k as int].0 == tag,
    ensures
        value_of(properties, tag, n) == Some(properties[k as int].1),
    decreases n,
{
    if n - 1 > k {
        value_of_found(properties, tag, k, (n - 1) as nat);
    }
}

} // verus!
