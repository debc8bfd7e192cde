//! Sizing a download from its response headers. Fetching the body, writing
//! the file and showing progress are left to the caller.
use vstd::prelude::*;

use crate::text::{parse_u64, spec_parse_u64};

verus! {

/// The size a download announces: the value of its `content-length` header,
/// when there is one and it is a whole number that fits in a `u64`.
pub open spec fn spec_content_length(header: Option<Seq<char>>) -> Option<u64> {
    match header {
        Some(v) => spec_parse_u64(v),
        None => None,
    }
}

/// The size in bytes that a response announces through the value of its
/// `content-length` header; `None` when the header is missing or not a
/// number, in which case progress is shown without a total.
pub fn content_length(header: Option<&str>) -> (r: Option<u64>)
    ensures
        r == spec_content_length(
            match header {
                Some(v) => Some(v@),
                None => None,
            },
        ),
{
    match header {
        Some(v) => parse_u64(v),
        None => None,
    }
}

} // verus!
