use crate::decimal::{decimal, law_parse_inverts_decimal, lemma_decimal_is_digits, parse_u64, parsed_u64};
use crate::error::TransferError;
use crate::headers::{field_text, header_text, owned_text};
use crate::text::{after_last, lemma_after_last_of_joined, tail_after_last, text_of};
use reqwest::header::HeaderMap;
use vstd::prelude::*;

verus! {

/// How the server's answer meets what is already on disk. A server that
/// honours the range request answers 206 and sends the bytes from the resume
/// offset on; one that ignores it answers with another success status and
/// sends the resource from its first byte.
#[derive(Clone, Copy, Debug, PartialEq, Eq, Structural)]
pub enum Exchange {
    /// Nothing on disk, the whole resource in the body.
    FreshFull,
    /// Nothing on disk, a partial answer that starts at byte 0.
    FreshPartial,
    /// Bytes on disk, and the body carries on where they end.
    ResumedPartial,
    /// Bytes on disk, yet the body is the whole resource. The payload is then
    /// taken to be the complete file: its leading bytes up to the resume
    /// offset are the ones already on disk and are passed over, the rest is
    /// appended. The file is never truncated or rewritten.
    ResumedFull,
}

/// Whether a status lies in the success range, 200 to 299.
pub open spec fn is_success(status: u16) -> bool {
    200 <= status && status < 300
}

/// The exchange that a status and a resume offset amount to; none for a
/// status outside the success range. 206 is a partial answer, every other
/// success status a full one.
pub open spec fn exchange_of(status: u16, offset: u64) -> Option<Exchange> {
    if !is_success(status) {
        None
    } else if status == 206 {
        if offset == 0 {
            Some(Exchange::FreshPartial)
        } else {
            Some(Exchange::ResumedPartial)
        }
    } else {
        if offset == 0 {
            Some(Exchange::FreshFull)
        } else {
            Some(Exchange::ResumedFull)
        }
    }
}

/// The number that `Content-Length` gives, if it is there and is a number.
pub open spec fn length_of(content_length: Option<Seq<char>>) -> Option<u64> {
    match content_length {
        Some(text) => parsed_u64(text),
        None => None,
    }
}

/// The total that `Content-Range` gives behind its last `/`, if it is there
/// and is a number (`*`, an unknown total, is none).
pub open spec fn range_total_of(content_range: Option<Seq<char>>) -> Option<u64> {
    match content_range {
        Some(text) => parsed_u64(after_last(text, '/')),
        None => None,
    }
}

/// The total size of a transfer: `Content-Length` where it gives a number,
/// else the total of `Content-Range`, else unknown.
pub open spec fn total_size_of(
    content_length: Option<Seq<char>>,
    content_range: Option<Seq<char>>,
) -> Option<u64> {
    match length_of(content_length) {
        Some(n) => Some(n),
        None => range_total_of(content_range),
    }
}

/// The content type of a response, `application/octet-stream` where the
/// header gives none.
pub open spec fn content_type_of(content_type: Option<Seq<char>>) -> Seq<char> {
    match content_type {
        Some(text) => text,
        None => "application/octet-stream"@,
    }
}

/// What one attempt works from, as plain values.
pub struct PlanModel {
    pub resume_offset: u64,
    pub total_size: Option<u64>,
    pub content_type: Seq<char>,
    pub exchange: Exchange,
}

/// What one attempt works from: computed once, from the resume offset and the
/// response's status and headers.
#[derive(Clone, Debug, PartialEq, Eq)]
pub struct TransferPlan {
    /// Bytes of the local file when the attempt began.
    pub resume_offset: u64,
    /// Size announced by the server; `None` where it announced none.
    pub total_size: Option<u64>,
    pub content_type: String,
    pub exchange: Exchange,
}

impl View for TransferPlan {
    type V = PlanModel;

    open spec fn view(&self) -> PlanModel {
        PlanModel {
            resume_offset: self.resume_offset,
            total_size: self.total_size,
            content_type: self.content_type@,
            exchange: self.exchange,
        }
    }
}

/// The plan that a response calls for; none for a status outside the success
/// range.
pub open spec fn plan_of(
    status: u16,
    content_length: Option<Seq<char>>,
    content_range: Option<Seq<char>>,
    content_type: Option<Seq<char>>,
    offset: u64,
) -> Option<PlanModel> {
    match exchange_of(status, offset) {
        Some(exchange) => Some(
            PlanModel {
                resume_offset: offset,
                total_size: total_size_of(content_length, content_range),
                content_type: content_type_of(content_type),
                exchange,
            },
        ),
        None => None,
    }
}

/// Header reconciliation, first rule: a `Content-Length` that writes a number
/// gives the total, whatever `Content-Range` says.
pub proof fn law_total_from_content_length(n: u64, content_range: Option<Seq<char>>)
    ensures
        total_size_of(Some(decimal(n as nat)), content_range) == Some(n),
{
    law_parse_inverts_decimal(n);
}

/// Header reconciliation, second rule: without `Content-Length`, a
/// `Content-Range` that ends in `/` and a number gives that number, whatever
/// stands before the `/`.
pub proof fn law_total_from_content_range(range: Seq<char>, n: u64)
    ensures
        total_size_of(None, Some(range.push('/') + decimal(n as nat))) == Some(n),
{
    lemma_decimal_is_digits(n as nat);
    lemma_after_last_of_joined(range, '/', decimal(n as nat));
    law_parse_inverts_decimal(n);
}

/// A response is turned down exactly when its status lies outside the
/// success range, and no header can change that.
pub proof fn law_only_success_is_planned(
    status: u16,
    content_length: Option<Seq<char>>,
    content_range: Option<Seq<char>>,
    content_type: Option<Seq<char>>,
    offset: u64,
)
    ensures
        plan_of(status, content_length, content_range, content_type, offset) is Some
            <==> is_success(status),
{
}

/// Classifies a response against the resume offset.
pub fn classify(status: u16, offset: u64) -> (exchange: Option<Exchange>)
    ensures
        exchange == exchange_of(status, offset),
{
    if status < 200 || status >= 300 {
        None
    } else if status == 206 {
        if offset == 0 {
            Some(Exchange::FreshPartial)
        } else {
            Some(Exchange::ResumedPartial)
        }
    } else {
        if offset == 0 {
            Some(Exchange::FreshFull)
        } else {
            Some(Exchange::ResumedFull)
        }
    }
}

/// Resolves the total size from the two headers that can give it.
pub fn resolve_total_size(content_length: Option<&str>, content_range: Option<&str>) -> (total:
    Option<u64>)
    ensures
        total == total_size_of(text_of(content_length), text_of(content_range)),
{
    let from_length = match content_length {
        Some(text) => parse_u64(text),
        None => None,
    };
    match from_length {
        Some(n) => Some(n),
        None => match content_range {
            Some(text) => {
                let total = tail_after_last(text, '/');
                parse_u64(total.as_str())
            },
            None => None,
        },
    }
}

/// Interprets a response whose headers have been read as text. Fails with
/// `Protocol`, carrying the status, exactly when the status lies outside the
/// success range; otherwise the plan is the one that `plan_of` describes.
pub fn plan_transfer(
    status: u16,
    content_length: Option<&str>,
    content_range: Option<&str>,
    content_type: Option<&str>,
    offset: u64,
) -> (r: Result<TransferPlan, TransferError>)
    ensures
        match r {
            Ok(plan) => plan_of(
                status,
                text_of(content_length),
                text_of(content_range),
                text_of(content_type),
                offset,
            ) == Some(plan@),
            Err(e) => !is_success(status) && e == (TransferError::Protocol { status }),
        },
{
    let exchange = match classify(status, offset) {
        Some(exchange) => exchange,
        None => {
            return Err(TransferError::Protocol { status });
        },
    };
    let total_size = resolve_total_size(content_length, content_range);
    let content_type = match content_type {
        Some(text) => String::from_str(text),
        None => String::from_str("application/octet-stream"),
    };
    Ok(TransferPlan { resume_offset: offset, total_size, content_type, exchange })
}

/// Interprets a response: the status, and the first values of the headers
/// `Content-Length`, `Content-Range` and `Content-Type` as far as they are
/// text. No byte of the body is looked at.
pub fn interpret_response(status: u16, headers: &HeaderMap, offset: u64) -> (r: Result<
    TransferPlan,
    TransferError,
>)
    ensures
        match r {
            Ok(plan) => plan_of(
                status,
                field_text(*headers, "content-length"@),
                field_text(*headers, "content-range"@),
                field_text(*headers, "content-type"@),
                offset,
            ) == Some(plan@),
            Err(e) => !is_success(status) && e == (TransferError::Protocol { status }),
        },
{
    let content_length = header_text(headers, "content-length");
    let content_range = header_text(headers, "content-range");
    let content_type = header_text(headers, "content-type");
    plan_transfer(
        status,
        borrowed(&content_length),
        borrowed(&content_range),
        borrowed(&content_type),
        offset,
    )
}

fn borrowed(text: &Option<String>) -> (r: Option<&str>)
    ensures
        text_of(r) == owned_text(*text),
{
    match text {
        Some(t) => Some(t.as_str()),
        None => None,
    }
}

} // verus!
