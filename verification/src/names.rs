//! Element names: exact comparison and the table of tracked fields.

use vstd::prelude::*;
use vstd::string::StringSliceAdditionalSpecFns;
use vstd::utf8::encode_utf8_decode_utf8;

verus! {

/// The field of a post that text is currently routed to.
#[derive(Clone, Copy, PartialEq, Eq, Debug, Structural)]
pub enum XmlTagType {
    Irrelevant,
    Contents,
    Link,
    Date,
    Title,
    Tag,
    Password,
}

/// Whether an element's local name is `expected`: the same characters in the
/// same order, case-sensitive.
pub fn name_matches(name: &str, expected: &str) -> (same: bool)
    ensures
        same == (name@ == expected@),
{
    let left = name.as_bytes();
    let right = expected.as_bytes();
    proof {
        encode_utf8_decode_utf8(name@);
        encode_utf8_decode_utf8(expected@);
    }
    if left.len() != right.len() {
        return false;
    }
    let mut i: usize = 0;
    while i < left.len()
        invariant
            i <= left.len(),
            left.len() == right.len(),
            left@ == name.spec_bytes(),
            right@ == expected.spec_bytes(),
            forall|k: int| 0 <= k < i ==> left@[k] == right@[k],
        decreases left.len() - i,
    {
        if left[i] != right[i] {
            return false;
        }
        i += 1;
    }
    assert(left@ =~= right@);
    true
}

/// Whether `name` is the local name of the element that holds one post.
pub open spec fn is_item(name: Seq<char>) -> bool {
    name == "item"@
}

/// The field that an element inside a post feeds, by its local name;
/// `Irrelevant` for every name that is not tracked.
pub open spec fn field_of(name: Seq<char>) -> XmlTagType {
    if name == "title"@ {
        XmlTagType::Title
    } else if name == "category"@ {
        XmlTagType::Tag
    } else if name == "encoded"@ {
        XmlTagType::Contents
    } else if name == "link"@ {
        XmlTagType::Link
    } else if name == "post_date"@ {
        XmlTagType::Date
    } else if name == "post_password"@ {
        XmlTagType::Password
    } else {
        XmlTagType::Irrelevant
    }
}

/// The table of tracked fields, entry by entry; `item` is not among them.
pub proof fn lemma_field_table()
    ensures
        field_of("title"@) == XmlTagType::Title,
        field_of("category"@) == XmlTagType::Tag,
        field_of("encoded"@) == XmlTagType::Contents,
        field_of("link"@) == XmlTagType::Link,
        field_of("post_date"@) == XmlTagType::Date,
        field_of("post_password"@) == XmlTagType::Password,
        forall|name: Seq<char>| is_item(name) ==> field_of(name) == XmlTagType::Irrelevant,
        forall|name: Seq<char>| field_of(name) != XmlTagType::Irrelevant ==> !is_item(name),
{
    reveal_strlit("item");
    reveal_strlit("title");
    reveal_strlit("category");
    reveal_strlit("encoded");
    reveal_strlit("link");
    reveal_strlit("post_date");
    reveal_strlit("post_password");
    assert("item"@.len() == 4 && "link"@.len() == 4 && "title"@.len() == 5);
    assert("category"@.len() == 8 && "encoded"@.len() == 7);
    assert("post_date"@.len() == 9 && "post_password"@.len() == 13);
    assert("link"@[0] != "item"@[0]);
}

/// Looks `name` up in the table of tracked fields.
pub fn field_for(name: &str) -> (field: XmlTagType)
    ensures
        field == field_of(name@),
{
    if name_matches(name, "title") {
        XmlTagType::Title
    } else if name_matches(name, "category") {
        XmlTagType::Tag
    } else if name_matches(name, "encoded") {
        XmlTagType::Contents
    } else if name_matches(name, "link") {
        XmlTagType::Link
    } else if name_matches(name, "post_date") {
        XmlTagType::Date
    } else if name_matches(name, "post_password") {
        XmlTagType::Password
    } else {
        XmlTagType::Irrelevant
    }
}

} // verus!
