use crate::decimal::{append_decimal, decimal};
use vstd::prelude::*;

verus! {

/// The value of the `Range` header that asks for everything from `offset`
/// on: `bytes=<offset>-`, with no upper bound.
pub open spec fn range_value(offset: u64) -> Seq<char> {
    "bytes="@ + decimal(offset as nat) + "-"@
}

/// The one GET of an attempt, as the transport is to send it.
#[derive(Clone, Debug, PartialEq, Eq)]
pub struct RangeRequest {
    pub url: String,
    /// Value of the `Range` header.
    pub range: String,
}

/// The `Range` header value for a resume offset.
pub fn range_header_value(offset: u64) -> (value: String)
    ensures
        value@ == range_value(offset),
{
    let mut value = String::from_str("bytes=");
    append_decimal(&mut value, offset);
    value.append("-");
    value
}

/// The request for `url` that resumes at `offset`. The header is sent for
/// offset 0 as well.
pub fn build_request(url: &str, offset: u64) -> (request: RangeRequest)
    ensures
        request.url@ == url@,
        request.range@ == range_value(offset),
{
    RangeRequest { url: String::from_str(url), range: range_header_value(offset) }
}

} // verus!
