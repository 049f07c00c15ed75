//! What holds of every pass, proved of the state machine that the extractor
//! follows.

use vstd::prelude::*;
use vstd::utf8::encode_utf8;
use crate::error::Failure;
use crate::event::EventView;
use crate::machine::Machine;
use crate::names::{field_of, is_item, lemma_field_table, XmlTagType};
use crate::post::PostView;
use crate::render::report_text;
use crate::stats::Counts;

verus! {

/// The number of events in `events` that close an `item` element.
pub open spec fn item_closes(events: Seq<EventView>) -> nat
    decreases events.len(),
{
    if events.len() == 0 {
        0
    } else {
        item_closes(events.skip(1)) + if events[0] matches EventView::EndElement(name) && is_item(
            name,
        ) {
            1nat
        } else {
            0nat
        }
    }
}

/// Whether `event` can arrive inside a field without ending it: a chunk of
/// text, an event that is no element, or the start or the end of an element
/// that is neither `item` nor tracked.
pub open spec fn stays_in_field(event: EventView) -> bool {
    match event {
        EventView::StartElement(name) => !is_item(name) && field_of(name) is Irrelevant,
        EventView::EndElement(name) => !is_item(name) && field_of(name) is Irrelevant,
        EventView::CData(_) => true,
        EventView::Characters(_) => true,
        EventView::Other => true,
        EventView::Malformed => false,
    }
}

/// Whether every event of `events` stays in the field.
pub open spec fn all_stay_in_field(events: Seq<EventView>) -> bool {
    forall|i: int| 0 <= i < events.len() ==> stays_in_field(#[trigger] events[i])
}

/// The chunks of text that `events` carry, in order.
pub open spec fn chunks(events: Seq<EventView>) -> Seq<Seq<char>> {
    Seq::new(events.len(), |i: int| events[i].text())
}

/// Whether `event` opens a tracked field inside a post while another field
/// is active in `state`.
pub open spec fn opens_field_inside_field(state: Machine, event: EventView) -> bool {
    &&& event matches EventView::StartElement(name)
    &&& state.in_item
    &&& field_of(name) != XmlTagType::Irrelevant
    &&& state.scope != XmlTagType::Irrelevant
    &&& state.scope != field_of(name)
}

/// One event leads from a state that satisfies the invariant to another.
pub proof fn lemma_step_keeps_invariant(state: Machine, event: EventView)
    requires
        state.inv(),
    ensures
        state.step(event) matches Ok(next) ==> next.inv() && next.target == state.target,
{
}

/// Every state that a pass reaches from a state that satisfies the invariant
/// satisfies it too.
pub proof fn lemma_run_keeps_invariant(state: Machine, events: Seq<EventView>)
    requires
        state.inv(),
    ensures
        state.run(events) matches Ok(end) ==> end.inv() && end.target == state.target,
    decreases events.len(),
{
    if events.len() > 0 {
        lemma_step_keeps_invariant(state, events[0]);
        if let Ok(next) = state.step(events[0]) {
            lemma_run_keeps_invariant(next, events.skip(1));
        }
    }
}

/// Whatever the events were, no field is active while no post is open.
pub proof fn lemma_no_scope_outside_item(target: Seq<char>, events: Seq<EventView>)
    ensures
        Machine::start(target).run(events) matches Ok(end) ==> (!end.in_item
            ==> end.scope is Irrelevant),
{
    lemma_run_keeps_invariant(Machine::start(target), events);
}

/// An event makes another field active only when no field was active
/// before. This is stated of every event but those that open a tracked field
/// inside another one: such an event replaces the active field.
pub proof fn lemma_scope_entered_from_none(state: Machine, event: EventView)
    requires
        !opens_field_inside_field(state, event),
    ensures
        state.step(event) matches Ok(next) ==> (next.scope != state.scope
            && next.scope != XmlTagType::Irrelevant ==> state.scope is Irrelevant),
{
    lemma_field_table();
}

/// The chunks of text that arrive while a field is active reach the field as
/// one text, the chunks joined in the order of their arrival, whatever else
/// arrives between them that stays in the field; and they touch nothing else.
pub proof fn lemma_chunks_concatenate(state: Machine, events: Seq<EventView>)
    requires
        all_stay_in_field(events),
    ensures
        state.run(events) == Ok::<Machine, Failure>(
            Machine { post: state.post.with_text(state.scope, chunks(events).flatten()), ..state },
        ),
    decreases events.len(),
{
    let joined = chunks(events).flatten();
    if events.len() == 0 {
        assert(joined =~= Seq::empty());
        lemma_empty_text_changes_nothing(state.post, state.scope);
    } else {
        let first = events[0];
        let rest = events.skip(1);
        let next = Machine { post: state.post.with_text(state.scope, first.text()), ..state };
        assert(stays_in_field(first));
        assert(state.step(first) == Ok::<Machine, Failure>(next)) by {
            if !first.is_text() {
                lemma_empty_text_changes_nothing(state.post, state.scope);
            }
        }
        assert(all_stay_in_field(rest)) by {
            assert forall|i: int| 0 <= i < rest.len() implies stays_in_field(
                #[trigger] rest[i],
            ) by {
                assert(rest[i] == events[i + 1]);
            }
        }
        lemma_chunks_concatenate(next, rest);
        assert(chunks(events).drop_first() =~= chunks(rest));
        assert(joined == first.text() + chunks(rest).flatten());
        lemma_text_in_two_parts(state.post, state.scope, first.text(), chunks(rest).flatten());
    }
}

/// Text that arrives in two parts leaves the post as the whole text does.
pub proof fn lemma_text_in_two_parts(
    post: PostView,
    field: XmlTagType,
    head: Seq<char>,
    tail: Seq<char>,
)
    ensures
        post.with_text(field, head).with_text(field, tail) == post.with_text(field, head + tail),
{
    assert((post.title + head) + tail =~= post.title + (head + tail));
    assert((post.cur_tag + head) + tail =~= post.cur_tag + (head + tail));
    assert((post.contents + head) + tail =~= post.contents + (head + tail));
    assert((post.link + head) + tail =~= post.link + (head + tail));
    assert((post.date + head) + tail =~= post.date + (head + tail));
}

/// Empty text leaves the post as it is.
pub proof fn lemma_empty_text_changes_nothing(post: PostView, field: XmlTagType)
    ensures
        post.with_text(field, Seq::empty()) == post,
{
    assert(post.title + Seq::<char>::empty() =~= post.title);
    assert(post.cur_tag + Seq::<char>::empty() =~= post.cur_tag);
    assert(post.contents + Seq::<char>::empty() =~= post.contents);
    assert(post.link + Seq::<char>::empty() =~= post.link);
    assert(post.date + Seq::<char>::empty() =~= post.date);
}

/// While a category is open inside a post, the chunks of text that arrive
/// leave the tags as they are. When the category closes, the pending text
/// with those chunks behind it becomes the last tag, unless it is empty: then
/// the tags stay as they are. Either way no text is pending afterwards and no
/// field is active.
pub proof fn lemma_tag_commit_boundary(state: Machine, events: Seq<EventView>)
    requires
        state.in_item,
        state.scope is Tag,
        all_stay_in_field(events),
    ensures
        ({
            let value = state.post.cur_tag + chunks(events).flatten();
            &&& state.run(events) matches Ok(open)
            &&& open.post.tags == state.post.tags
            &&& open.post.cur_tag == value
            &&& open.step(EventView::EndElement("category"@)) matches Ok(closed)
            &&& closed.post.tags == if value.len() == 0 {
                state.post.tags
            } else {
                state.post.tags.push(value)
            }
            &&& closed.post.cur_tag.len() == 0
            &&& closed.scope is Irrelevant
        }),
{
    lemma_chunks_concatenate(state, events);
    lemma_field_table();
}

/// Tags change only where an element closes: any other event leaves the tags
/// of the post under construction as they are.
pub proof fn lemma_tags_change_only_at_close(state: Machine, event: EventView)
    requires
        !(event is EndElement),
    ensures
        state.step(event) matches Ok(next) ==> next.post.tags == state.post.tags,
{
}

/// The posts seen are the `item` elements closed: a pass adds to the counter
/// of posts seen the number of its events that close an `item`.
pub proof fn lemma_seen_counts_closes(state: Machine, events: Seq<EventView>)
    ensures
        state.run(events) matches Ok(end) ==> end.stats.seen == state.stats.seen + item_closes(
            events,
        ),
    decreases events.len(),
{
    if events.len() > 0 {
        if let Ok(next) = state.step(events[0]) {
            lemma_seen_counts_closes(next, events.skip(1));
        }
    }
}

/// After any pass, the posts emitted and the posts
/// skipped for their password are together no more than the posts seen, and
/// the posts seen are as many as the events that closed an `item`.
pub proof fn lemma_statistics_conserved(target: Seq<char>, events: Seq<EventView>)
    ensures
        Machine::start(target).run(events) matches Ok(end) ==> end.stats.emitted
            + end.stats.skipped <= end.stats.seen && end.stats.seen == item_closes(events),
{
    lemma_run_keeps_invariant(Machine::start(target), events);
    lemma_seen_counts_closes(Machine::start(target), events);
}

/// After any pass, every kept post carries the chosen tag
/// and has no password, and the kept posts are as many as the counter of
/// emitted posts says.
pub proof fn lemma_kept_posts_match(target: Seq<char>, events: Seq<EventView>)
    ensures
        Machine::start(target).run(events) matches Ok(end) ==> end.kept.len() == end.stats.emitted
            && forall|i: int|
            0 <= i < end.kept.len() ==> (#[trigger] end.kept[i]).has_tag(target)
                && !end.kept[i].has_password,
{
    lemma_run_keeps_invariant(Machine::start(target), events);
}

/// The kept posts only grow, at their end, and no counter ever falls.
pub proof fn lemma_results_only_grow(state: Machine, events: Seq<EventView>)
    ensures
        state.run(events) matches Ok(end) ==> state.kept.is_prefix_of(end.kept)
            && state.stats.seen <= end.stats.seen && state.stats.emitted <= end.stats.emitted
            && state.stats.skipped <= end.stats.skipped,
    decreases events.len(),
{
    if events.len() > 0 {
        if let Ok(next) = state.step(events[0]) {
            lemma_results_only_grow(next, events.skip(1));
            assert(state.kept.is_prefix_of(next.kept));
        }
    }
}

/// Two reports rendered from the same stylesheet, posts
/// and counters are the same text, and so the same bytes.
pub proof fn lemma_rerender_is_identical(
    lines: Seq<Seq<char>>,
    posts: Seq<PostView>,
    stats: Counts,
    first: Seq<char>,
    second: Seq<char>,
)
    requires
        first == report_text(lines, posts, stats),
        second == report_text(lines, posts, stats),
    ensures
        first == second,
        encode_utf8(first) == encode_utf8(second),
{
}

} // verus!
