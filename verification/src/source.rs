//! The XML event source: the parser of the `xml` crate over a document held
//! in memory, and the pass that it drives.

use vstd::prelude::*;
use xml::reader::XmlEvent;
use crate::error::ExtractError;
use crate::event::{Event, EventView};
use crate::extractor::{Extraction, Extractor};
use crate::machine::Machine;
use crate::policy::post_views;

verus! {

/// The error of the `xml` crate's reader. Nothing is known of its content here.
#[verifier::external_type_specification]
#[verifier::external_body]
pub struct ExError(xml::reader::Error);

/// The iterator `xml::reader::Events` over a document in memory. Its state
/// is known only through `pending`.
#[verifier::external_body]
pub struct EventSource<'a> {
    events: xml::reader::Events<&'a [u8]>,
}

/// What the `xml` crate's reader, in its default configuration, yields for
/// the document `input`, from the first item to the last one before the
/// iterator ends. An item that is an error is `Malformed`.
pub uninterp spec fn document_events(input: Seq<u8>) -> Seq<EventView>;

/// What `source` has yet to yield before it ends.
pub uninterp spec fn pending(source: EventSource) -> Seq<EventView>;

/// How the contracts see one item of the source.
pub open spec fn item_view(item: Result<Event, xml::reader::Error>) -> EventView {
    match item {
        Ok(event) => event@,
        Err(_) => EventView::Malformed,
    }
}

/// `xml::reader::EventReader::new` on `input`, turned into its iterator with
/// `into_iter`. Claimed: what the iterator has yet to yield is what the
/// reader yields for the document.
#[verifier::external_body]
fn open_document<'a>(input: &'a [u8]) -> (source: EventSource<'a>)
    ensures
        pending(source) == document_events(input@),
{
    EventSource { events: xml::reader::EventReader::new(input).into_iter() }
}

/// `Iterator::next` of `xml::reader::Events`, with the event reduced to an
/// `Event`: the local name of an element, the text of a chunk. Claimed: the
/// call hands out the first pending item and leaves the others pending, in
/// order; it returns `None` when nothing is pending, and nothing is then.
#[verifier::external_body]
fn next_event(source: &mut EventSource) -> (pulled: Option<Result<Event, xml::reader::Error>>)
    ensures
        match pulled {
            Some(item) => pending(*old(source)).len() > 0 && item_view(item) == pending(
                *old(source),
            )[0] && pending(*final(source)) == pending(*old(source)).skip(1),
            None => pending(*old(source)).len() == 0 && pending(*final(source)).len() == 0,
        },
{
    Some(match source.events.next()? {
        Ok(XmlEvent::StartElement { name, .. }) => Ok(Event::StartElement(name.local_name)),
        Ok(XmlEvent::EndElement { name }) => Ok(Event::EndElement(name.local_name)),
        Ok(XmlEvent::CData(data)) => Ok(Event::CData(data)),
        Ok(XmlEvent::Characters(data)) => Ok(Event::Characters(data)),
        Ok(_) => Ok(Event::Other),
        Err(error) => Err(error),
    })
}

/// Parses `input` as XML and runs a whole pass over its events: the posts
/// tagged `target` that have no password, in document order, and the
/// counters; or the first failure, be it the parser's or the extractor's.
pub fn extract(input: &[u8], target: &str) -> (result: Result<Extraction, ExtractError>)
    ensures
        match Machine::start(target@).run(document_events(input@)) {
            Ok(end) => result matches Ok(found) && post_views(found.posts@) == end.kept
                && found.stats@ == end.stats,
            Err(failure) => result matches Err(e) && e@ == failure,
        },
{
    let mut source = open_document(input);
    let mut extractor = Extractor::new(target);
    loop
        invariant
            extractor.wf(),
            Machine::start(target@).run(document_events(input@)) == extractor@.run(
                pending(source),
            ),
        decreases pending(source).len(),
    {
        match next_event(&mut source) {
            None => {
                return Ok(extractor.finish());
            },
            Some(Err(error)) => {
                return Err(ExtractError::Source(error));
            },
            Some(Ok(event)) => {
                match extractor.feed(&event) {
                    Ok(()) => {},
                    Err(e) => {
                        return Err(e);
                    },
                }
            },
        }
    }
}

} // verus!
