//! The extraction as a state machine over events: the model that the
//! executable extractor is proved against.

use vstd::prelude::*;
use crate::error::Failure;
use crate::event::EventView;
use crate::names::{field_of, is_item, XmlTagType};
use crate::policy::kept_after;
use crate::post::PostView;
use crate::stats::Counts;

verus! {

/// The state of an extraction between two events.
pub struct Machine {
    /// The tag that a post must carry to be kept.
    pub target: Seq<char>,
    /// Whether an `item` element is open.
    pub in_item: bool,
    /// The field that text is routed to.
    pub scope: XmlTagType,
    /// The post under construction.
    pub post: PostView,
    /// The posts kept so far, oldest first.
    pub kept: Seq<PostView>,
    pub stats: Counts,
}

impl Machine {
    /// The state before the first event.
    pub open spec fn start(target: Seq<char>) -> Machine {
        Machine {
            target,
            in_item: false,
            scope: XmlTagType::Irrelevant,
            post: PostView::blank(),
            kept: Seq::empty(),
            stats: Counts::zero(),
        }
    }

    /// An element named `name` starts. `item` opens a post; inside a post, the
    /// name of a tracked field makes that field active; any other name
    /// changes nothing.
    pub open spec fn open_element(self, name: Seq<char>) -> Machine {
        if is_item(name) {
            Machine { in_item: true, ..self }
        } else if self.in_item && field_of(name) != XmlTagType::Irrelevant {
            Machine { scope: field_of(name), ..self }
        } else {
            self
        }
    }

    /// Whether the post under construction carries the chosen tag.
    pub open spec fn matched(self) -> bool {
        self.post.has_tag(self.target)
    }

    /// The `item` element ends. The post is counted; it is kept if it carries
    /// the chosen tag and no password; then a blank post takes its place,
    /// outside every field. Fails when the counter of posts is full.
    pub open spec fn close_item(self) -> Result<Machine, Failure> {
        if self.stats.seen >= u32::MAX {
            Err(Failure::CounterOverflow)
        } else {
            Ok(
                Machine {
                    in_item: false,
                    scope: XmlTagType::Irrelevant,
                    post: PostView::blank(),
                    kept: kept_after(self.kept, self.post, self.target),
                    stats: self.stats.count(self.matched(), self.post.has_password),
                    ..self
                },
            )
        }
    }

    /// An element named `name` ends. `item` closes the post. Inside a post, the
    /// name of a tracked field must be that of the active field: the field
    /// is then left, and a category commits its tag. Any other name changes
    /// nothing.
    pub open spec fn close_element(self, name: Seq<char>) -> Result<Machine, Failure> {
        if is_item(name) {
            self.close_item()
        } else if self.in_item && field_of(name) != XmlTagType::Irrelevant {
            if self.scope != field_of(name) {
                Err(Failure::ScopeMismatch { expected: field_of(name), actual: self.scope })
            } else {
                Ok(
                    Machine {
                        scope: XmlTagType::Irrelevant,
                        post: if self.scope is Tag {
                            self.post.with_tag_committed()
                        } else {
                            self.post
                        },
                        ..self
                    },
                )
            }
        } else {
            Ok(self)
        }
    }

    /// The state after one event, or the reason for which the pass stops.
    pub open spec fn step(self, event: EventView) -> Result<Machine, Failure> {
        match event {
            EventView::StartElement(name) => Ok(self.open_element(name)),
            EventView::EndElement(name) => self.close_element(name),
            EventView::CData(data) => Ok(
                Machine { post: self.post.with_text(self.scope, data), ..self },
            ),
            EventView::Characters(data) => Ok(
                Machine { post: self.post.with_text(self.scope, data), ..self },
            ),
            EventView::Other => Ok(self),
            EventView::Malformed => Err(Failure::Source),
        }
    }

    /// The state after `events`, taken in order, or the first failure.
    pub open spec fn run(self, events: Seq<EventView>) -> Result<Machine, Failure>
        decreases events.len(),
    {
        if events.len() == 0 {
            Ok(self)
        } else {
            match self.step(events[0]) {
                Ok(next) => next.run(events.skip(1)),
                Err(failure) => Err(failure),
            }
        }
    }

    /// What holds of every state that events lead to: outside a post no field
    /// is active; the counters are conserved and fit their width; the kept
    /// posts are the emitted ones, each carries the chosen tag, and none has
    /// a password.
    pub open spec fn inv(self) -> bool {
        &&& !self.in_item ==> self.scope is Irrelevant
        &&& self.stats.conserved()
        &&& self.stats.seen <= u32::MAX
        &&& self.kept.len() == self.stats.emitted
        &&& forall|i: int|
            0 <= i < self.kept.len() ==> (#[trigger] self.kept[i]).has_tag(self.target)
                && !self.kept[i].has_password
    }
}

} // verus!
