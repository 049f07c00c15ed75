//! Why an extraction stopped.

use vstd::prelude::*;
use crate::names::XmlTagType;

verus! {

/// The reasons for which a pass over the input is given up.
#[derive(Debug)]
pub enum ExtractError {
    /// An element of field `expected` closed while `actual` was active.
    ScopeMismatch { expected: XmlTagType, actual: XmlTagType },
    /// One more post would not fit in the counter of posts seen.
    CounterOverflow,
    /// The source could not read on; the parser's error says why.
    Source(xml::reader::Error),
}

/// The mathematical value of an `ExtractError`: the parser's own error is
/// reduced to the fact that there was one.
pub enum Failure {
    ScopeMismatch { expected: XmlTagType, actual: XmlTagType },
    CounterOverflow,
    Source,
}

impl View for ExtractError {
    type V = Failure;

    open spec fn view(&self) -> Failure {
        match self {
            ExtractError::ScopeMismatch { expected, actual } => Failure::ScopeMismatch {
                expected: *expected,
                actual: *actual,
            },
            ExtractError::CounterOverflow => Failure::CounterOverflow,
            ExtractError::Source(_) => Failure::Source,
        }
    }
}

} // verus!
