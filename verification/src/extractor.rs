//! The executable extractor: one pass over the events of an export.

use vstd::prelude::*;
use crate::error::ExtractError;
use crate::event::{event_views, Event};
use crate::machine::Machine;
use crate::names::{field_for, name_matches, XmlTagType};
use crate::policy::{post_views, record_policy};
use crate::post::{read_characters, PostData};
use crate::stats::Stats;

verus! {

/// What a pass leaves behind: the posts kept, oldest first, and the counters.
#[derive(Debug)]
pub struct Extraction {
    pub posts: Vec<PostData>,
    pub stats: Stats,
}

/// An extraction in progress. Events are fed one by one; the posts kept and
/// the counters are read at any time, and taken out at the end.
pub struct Extractor {
    target: String,
    in_item: bool,
    cur_tag_type: XmlTagType,
    cur_post_data: PostData,
    posts_to_write: Vec<PostData>,
    stats: Stats,
}

impl View for Extractor {
    type V = Machine;

    closed spec fn view(&self) -> Machine {
        Machine {
            target: self.target@,
            in_item: self.in_item,
            scope: self.cur_tag_type,
            post: self.cur_post_data@,
            kept: post_views(self.posts_to_write@),
            stats: self.stats@,
        }
    }
}

impl Extractor {
    /// Whether the extractor is in a state that events can lead to.
    pub open spec fn wf(&self) -> bool {
        self@.inv()
    }

    /// An extractor that keeps the posts tagged `target`.
    pub fn new(target: &str) -> (extractor: Extractor)
        ensures
            extractor@ == Machine::start(target@),
            extractor.wf(),
    {
        let extractor = Extractor {
            target: target.to_owned(),
            in_item: false,
            cur_tag_type: XmlTagType::Irrelevant,
            cur_post_data: PostData::new(),
            posts_to_write: Vec::new(),
            stats: Stats::new(),
        };
        assert(post_views(extractor.posts_to_write@) =~= Seq::empty());
        extractor
    }

    /// Takes in the start of an element named `name`.
    pub fn open_element(&mut self, name: &str)
        requires
            old(self).wf(),
        ensures
            final(self)@ == old(self)@.open_element(name@),
            final(self).wf(),
    {
        if name_matches(name, "item") {
            self.in_item = true;
        } else if self.in_item {
            let field = field_for(name);
            match field {
                XmlTagType::Irrelevant => {},
                _ => {
                    self.cur_tag_type = field;
                },
            }
        }
    }

    fn close_item(&mut self) -> (outcome: Result<(), ExtractError>)
        requires
            old(self).wf(),
        ensures
            final(self).wf(),
            match old(self)@.close_item() {
                Ok(next) => outcome is Ok && final(self)@ == next,
                Err(failure) => outcome matches Err(e) && e@ == failure && final(self)@ == old(
                    self,
                )@,
            },
    {
        if self.stats.total_posts == u32::MAX {
            return Err(ExtractError::CounterOverflow);
        }
        self.in_item = false;
        self.cur_tag_type = XmlTagType::Irrelevant;
        let mut post = PostData::new();
        std::mem::swap(&mut post, &mut self.cur_post_data);
        record_policy(post, self.target.as_str(), &mut self.posts_to_write, &mut self.stats)
    }

    /// Takes in the end of an element named `name`. On a failure the
    /// extractor is left as it was.
    pub fn close_element(&mut self, name: &str) -> (outcome: Result<(), ExtractError>)
        requires
            old(self).wf(),
        ensures
            final(self).wf(),
            match old(self)@.close_element(name@) {
                Ok(next) => outcome is Ok && final(self)@ == next,
                Err(failure) => outcome matches Err(e) && e@ == failure && final(self)@ == old(
                    self,
                )@,
            },
    {
        if name_matches(name, "item") {
            return self.close_item();
        }
        if self.in_item {
            let field = field_for(name);
            match field {
                XmlTagType::Irrelevant => {},
                _ => {
                    if self.cur_tag_type != field {
                        return Err(
                            ExtractError::ScopeMismatch {
                                expected: field,
                                actual: self.cur_tag_type,
                            },
                        );
                    }
                    match field {
                        XmlTagType::Tag => {
                            self.cur_post_data.commit_tag();
                        },
                        _ => {},
                    }
                    self.cur_tag_type = XmlTagType::Irrelevant;
                },
            }
        }
        Ok(())
    }

    /// The tag that a post must carry to be kept.
    pub fn target(&self) -> (target: &str)
        ensures
            target@ == self@.target,
    {
        self.target.as_str()
    }

    /// The counters as they stand.
    pub fn stats(&self) -> (stats: Stats)
        ensures
            stats@ == self@.stats,
    {
        self.stats
    }

    /// The posts kept so far, oldest first.
    pub fn posts(&self) -> (posts: &Vec<PostData>)
        ensures
            post_views(posts@) == self@.kept,
    {
        &self.posts_to_write
    }

    /// The post under construction.
    pub fn current(&self) -> (post: &PostData)
        ensures
            post@ == self@.post,
    {
        &self.cur_post_data
    }

    /// Whether an `item` element is open.
    pub fn in_item(&self) -> (inside: bool)
        ensures
            inside == self@.in_item,
    {
        self.in_item
    }

    /// The field that text is routed to.
    pub fn scope(&self) -> (field: XmlTagType)
        ensures
            field == self@.scope,
    {
        self.cur_tag_type
    }

    /// Ends the pass: hands out the posts kept and the counters, and drops
    /// the post under construction.
    pub fn finish(self) -> (found: Extraction)
        ensures
            post_views(found.posts@) == self@.kept,
            found.stats@ == self@.stats,
    {
        Extraction { posts: self.posts_to_write, stats: self.stats }
    }

    /// Takes in one event. On a failure the extractor is left as it was.
    pub fn feed(&mut self, event: &Event) -> (outcome: Result<(), ExtractError>)
        requires
            old(self).wf(),
        ensures
            final(self).wf(),
            match old(self)@.step(event@) {
                Ok(next) => outcome is Ok && final(self)@ == next,
                Err(failure) => outcome matches Err(e) && e@ == failure && final(self)@ == old(
                    self,
                )@,
            },
    {
        match event {
            Event::StartElement(name) => {
                self.open_element(name.as_str());
                Ok(())
            },
            Event::EndElement(name) => self.close_element(name.as_str()),
            Event::CData(data) => {
                read_characters(&self.cur_tag_type, data.as_str(), &mut self.cur_post_data);
                Ok(())
            },
            Event::Characters(data) => {
                read_characters(&self.cur_tag_type, data.as_str(), &mut self.cur_post_data);
                Ok(())
            },
            Event::Other => Ok(()),
        }
    }
}

/// Runs a whole pass over `events`: the posts tagged `target` that have no
/// password, in the order in which they closed, and the counters; or the
/// first failure.
pub fn process_events(events: &[Event], target: &str) -> (result: Result<Extraction, ExtractError>)
    ensures
        match Machine::start(target@).run(event_views(events@)) {
            Ok(end) => result matches Ok(found) && post_views(found.posts@) == end.kept
                && found.stats@ == end.stats,
            Err(failure) => result matches Err(e) && e@ == failure,
        },
{
    let ghost all = event_views(events@);
    let mut extractor = Extractor::new(target);
    let mut i: usize = 0;
    assert(all.skip(0) =~= all);
    while i < events.len()
        invariant
            i <= events.len(),
            all == event_views(events@),
            extractor.wf(),
            Machine::start(target@).run(all) == extractor@.run(all.skip(i as int)),
        decreases events.len() - i,
    {
        assert(all.skip(i as int)[0] == events[i as int]@);
        assert(all.skip(i as int).skip(1) =~= all.skip(i + 1));
        match extractor.feed(&events[i]) {
            Ok(()) => {},
            Err(e) => {
                return Err(e);
            },
        }
        i += 1;
    }
    Ok(extractor.finish())
}

} // verus!
