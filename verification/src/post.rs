//! One post under construction, and how text reaches its fields.

use vstd::prelude::*;
use vstd::string::StringExecFns;
use crate::names::XmlTagType;

verus! {

/// One post, as read from the export.
#[derive(Debug)]
pub struct PostData {
    /// Rendered body, markup included.
    pub contents: String,
    pub link: String,
    /// Publication date, as written in the export.
    pub date: String,
    pub title: String,
    /// Whether the password element held any text.
    pub has_password: bool,
    /// Text of the category element that is open, not yet a tag.
    pub cur_tag: String,
    /// Tags in the order of their category elements.
    pub tags: Vec<String>,
}

/// The mathematical value of a post.
pub struct PostView {
    pub contents: Seq<char>,
    pub link: Seq<char>,
    pub date: Seq<char>,
    pub title: Seq<char>,
    pub has_password: bool,
    pub cur_tag: Seq<char>,
    pub tags: Seq<Seq<char>>,
}

/// The text of each string of `strings`, in order.
pub open spec fn texts(strings: Seq<String>) -> Seq<Seq<char>> {
    Seq::new(strings.len(), |i: int| strings[i]@)
}

impl View for PostData {
    type V = PostView;

    open spec fn view(&self) -> PostView {
        PostView {
            contents: self.contents@,
            link: self.link@,
            date: self.date@,
            title: self.title@,
            has_password: self.has_password,
            cur_tag: self.cur_tag@,
            tags: texts(self.tags@),
        }
    }
}

impl PostView {
    /// The post of which nothing has been read yet.
    pub open spec fn blank() -> PostView {
        PostView {
            contents: Seq::empty(),
            link: Seq::empty(),
            date: Seq::empty(),
            title: Seq::empty(),
            has_password: false,
            cur_tag: Seq::empty(),
            tags: Seq::empty(),
        }
    }

    /// The post after `data` arrived while `field` was active. Text fields and
    /// the pending tag grow at their end; a password is recorded once any
    /// non-empty text arrives for it; outside every field the text is dropped.
    pub open spec fn with_text(self, field: XmlTagType, data: Seq<char>) -> PostView {
        match field {
            XmlTagType::Title => PostView { title: self.title + data, ..self },
            XmlTagType::Tag => PostView { cur_tag: self.cur_tag + data, ..self },
            XmlTagType::Contents => PostView { contents: self.contents + data, ..self },
            XmlTagType::Link => PostView { link: self.link + data, ..self },
            XmlTagType::Date => PostView { date: self.date + data, ..self },
            XmlTagType::Password => PostView {
                has_password: self.has_password || data.len() > 0,
                ..self
            },
            XmlTagType::Irrelevant => self,
        }
    }

    /// The post after its open category element closed: the pending text, if
    /// there is any, becomes the last tag, and no text is pending.
    pub open spec fn with_tag_committed(self) -> PostView {
        if self.cur_tag.len() == 0 {
            self
        } else {
            PostView { tags: self.tags.push(self.cur_tag), cur_tag: Seq::empty(), ..self }
        }
    }

    /// Whether `tag` is among the committed tags.
    pub open spec fn has_tag(self, tag: Seq<char>) -> bool {
        self.tags.contains(tag)
    }
}

impl PostData {
    pub fn new() -> (post: PostData)
        ensures
            post@ == PostView::blank(),
    {
        let post = PostData {
            contents: String::new(),
            link: String::new(),
            date: String::new(),
            title: String::new(),
            has_password: false,
            cur_tag: String::new(),
            tags: Vec::new(),
        };
        assert(texts(post.tags@) =~= Seq::empty());
        post
    }

    /// Turns the pending category text into a tag, if there is any.
    pub fn commit_tag(&mut self)
        ensures
            final(self)@ == old(self)@.with_tag_committed(),
    {
        if !self.cur_tag.as_str().is_empty() {
            let tag = self.cur_tag.clone();
            self.tags.push(tag);
            self.cur_tag = String::new();
            assert(texts(self.tags@) =~= texts(old(self).tags@).push(old(self).cur_tag@));
        }
    }

    /// Whether `tag` is among the committed tags, compared exactly.
    pub fn has_tag(&self, tag: &str) -> (found: bool)
        ensures
            found == self@.has_tag(tag@),
    {
        let mut i: usize = 0;
        while i < self.tags.len()
            invariant
                i <= self.tags.len(),
                forall|k: int| 0 <= k < i ==> texts(self.tags@)[k] != tag@,
            decreases self.tags.len() - i,
        {
            if crate::names::name_matches(self.tags[i].as_str(), tag) {
                assert(texts(self.tags@)[i as int] == tag@);
                return true;
            }
            i += 1;
        }
        false
    }
}

/// Routes one chunk of text to the field that is active.
pub fn read_characters(cur_tag_type: &XmlTagType, data: &str, cur_post_data: &mut PostData)
    ensures
        final(cur_post_data)@ == old(cur_post_data)@.with_text(*cur_tag_type, data@),
{
    match cur_tag_type {
        XmlTagType::Title => {
            cur_post_data.title.append(data);
        },
        XmlTagType::Tag => {
            cur_post_data.cur_tag.append(data);
        },
        XmlTagType::Contents => {
            cur_post_data.contents.append(data);
        },
        XmlTagType::Link => {
            cur_post_data.link.append(data);
        },
        XmlTagType::Date => {
            cur_post_data.date.append(data);
        },
        XmlTagType::Password => {
            if !data.is_empty() {
                cur_post_data.has_password = true;
            }
        },
        XmlTagType::Irrelevant => {},
    }
}

} // verus!
