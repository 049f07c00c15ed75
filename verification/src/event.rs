//! The events that drive the extraction.

use vstd::prelude::*;

verus! {

/// One event of the input, reduced to what the extraction reads: the local
/// name of an element that starts or ends, or a chunk of text.
#[derive(Debug)]
pub enum Event {
    /// An element starts; the string is its local name.
    StartElement(String),
    /// An element ends; the string is its local name.
    EndElement(String),
    /// A chunk of text from a CDATA section.
    CData(String),
    /// A chunk of character data.
    Characters(String),
    /// Anything else: declarations, comments, whitespace between elements.
    Other,
}

/// What the event source delivers, as the contracts see it: the events above
/// by their text, and `Malformed` where the source could not read on.
pub enum EventView {
    StartElement(Seq<char>),
    EndElement(Seq<char>),
    CData(Seq<char>),
    Characters(Seq<char>),
    Other,
    Malformed,
}

impl View for Event {
    type V = EventView;

    open spec fn view(&self) -> EventView {
        match self {
            Event::StartElement(name) => EventView::StartElement(name@),
            Event::EndElement(name) => EventView::EndElement(name@),
            Event::CData(data) => EventView::CData(data@),
            Event::Characters(data) => EventView::Characters(data@),
            Event::Other => EventView::Other,
        }
    }
}

impl EventView {
    /// Whether the event is a chunk of text.
    pub open spec fn is_text(self) -> bool {
        self is CData || self is Characters
    }

    /// The text that the event carries; empty for an event that carries none.
    pub open spec fn text(self) -> Seq<char> {
        match self {
            EventView::CData(data) => data,
            EventView::Characters(data) => data,
            _ => Seq::empty(),
        }
    }
}

/// The views of `events`, in order.
pub open spec fn event_views(events: Seq<Event>) -> Seq<EventView> {
    Seq::new(events.len(), |i: int| events[i]@)
}

} // verus!
