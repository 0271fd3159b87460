//! The two decisions made for one exchange: which entity tag represents the
//! response, and whether the request's preconditions let the response
//! through.

use crate::tag::{
    build_entity_tag, crc32, derived_tag, entity_tag_text, lemma_lower_hex_digits, Strength,
};
use crate::text::{trim, trimmed};
use crate::validators::{if_match_holds, if_none_match_hits, match_if_match, match_if_none_match};
use vstd::prelude::*;
use vstd::utf8::{encode_utf8, is_ascii_chars_encode_utf8};

verus! {

/// The method of a request.
#[derive(Clone, Copy, Debug, PartialEq, Eq, Structural)]
pub enum Method {
    Get,
    Head,
    Post,
    Put,
    Delete,
    Connect,
    Options,
    Trace,
    Patch,
    /// Any method that is not one of the standard ones.
    Extension,
}

impl Method {
    /// The safe retrieval methods are `GET` and `HEAD`.
    pub open spec fn safe_retrieval(self) -> bool {
        self == Method::Get || self == Method::Head
    }

    /// Tells whether this is a safe retrieval method.
    pub fn is_safe_retrieval(self) -> (safe: bool)
        ensures
            safe == self.safe_retrieval(),
    {
        match self {
            Method::Get => true,
            Method::Head => true,
            _ => false,
        }
    }
}

/// The status of a response that takes the place of the handler's.
#[derive(Clone, Copy, Debug, PartialEq, Eq, Structural)]
pub enum Status {
    /// `304 Not Modified`
    NotModified,
    /// `412 Precondition Failed`
    PreconditionFailed,
}

impl Status {
    /// The numeric status code.
    pub open spec fn code_of(self) -> u16 {
        match self {
            Status::NotModified => 304,
            Status::PreconditionFailed => 412,
        }
    }

    /// The numeric status code.
    pub fn code(self) -> (code: u16)
        ensures
            code == self.code_of(),
    {
        match self {
            Status::NotModified => 304,
            Status::PreconditionFailed => 412,
        }
    }
}

/// What the evaluation reads of a request: its method and the values of its
/// two validator headers, each `None` when the header was not sent or could
/// not be read as text.
#[derive(Debug)]
pub struct RequestHead {
    pub method: Method,
    pub if_match: Option<String>,
    pub if_none_match: Option<String>,
}

impl RequestHead {
    /// The value of `If-Match`, if there is one.
    pub open spec fn if_match_text(&self) -> Option<Seq<char>> {
        match self.if_match {
            Some(value) => Some(value@),
            None => None,
        }
    }

    /// The value of `If-None-Match`, if there is one.
    pub open spec fn if_none_match_text(&self) -> Option<Seq<char>> {
        match self.if_none_match {
            Some(value) => Some(value@),
            None => None,
        }
    }
}

/// What the tag derivation reads and writes of a response's headers: the
/// value of its `ETag` entry, `None` when there is none or it could not be
/// read as text.
#[derive(Debug)]
pub struct ResponseHead {
    pub etag: Option<String>,
}

impl ResponseHead {
    /// The value of `ETag`, if there is one.
    pub open spec fn etag_text(&self) -> Option<Seq<char>> {
        match self.etag {
            Some(value) => Some(value@),
            None => None,
        }
    }

    /// Headers without an `ETag` entry.
    pub fn new() -> (head: Self)
        ensures
            head.etag is None,
    {
        ResponseHead { etag: None }
    }

    /// Enters `value` as the `ETag` entry, in place of any other, if it can
    /// be the value of a header field, and tells whether it did. A value
    /// that cannot be leaves the headers as they are.
    pub fn insert_etag(&mut self, value: &str) -> (inserted: bool)
        ensures
            inserted == is_field_value(value@),
            inserted ==> final(self).etag_text() == Some(value@),
            !inserted ==> *final(self) == *old(self),
    {
        if encodes_as_header_value(value) {
            self.etag = Some(value.to_owned());
            true
        } else {
            false
        }
    }
}

/// The outcome of evaluating a request's preconditions.
#[derive(Debug, PartialEq, Eq)]
pub enum ConditionalVerdict {
    /// The handler's response goes out, with the tag attached.
    Proceed(String),
    /// An empty response with this status and the tag goes out in its place.
    ShortCircuit(Status, String),
}

/// What a `ConditionalVerdict` stands for.
pub enum VerdictView {
    Proceed(Seq<char>),
    ShortCircuit(Status, Seq<char>),
}

impl VerdictView {
    /// The tag that the response carries, whichever response goes out.
    pub open spec fn tag(self) -> Seq<char> {
        match self {
            VerdictView::Proceed(tag) => tag,
            VerdictView::ShortCircuit(_, tag) => tag,
        }
    }

    /// The status of the response that replaces the handler's, if one does.
    pub open spec fn status(self) -> Option<Status> {
        match self {
            VerdictView::Proceed(_) => None,
            VerdictView::ShortCircuit(status, _) => Some(status),
        }
    }
}

impl View for ConditionalVerdict {
    type V = VerdictView;

    open spec fn view(&self) -> VerdictView {
        match self {
            ConditionalVerdict::Proceed(tag) => VerdictView::Proceed(tag@),
            ConditionalVerdict::ShortCircuit(status, tag) => VerdictView::ShortCircuit(
                *status,
                tag@,
            ),
        }
    }
}

impl ConditionalVerdict {
    /// The tag that the response carries, whichever response goes out.
    pub fn tag(&self) -> (tag: &str)
        ensures
            tag@ == self@.tag(),
    {
        match self {
            ConditionalVerdict::Proceed(tag) => tag.as_str(),
            ConditionalVerdict::ShortCircuit(_, tag) => tag.as_str(),
        }
    }

    /// The status of the response that replaces the handler's, if one does.
    pub fn status(&self) -> (status: Option<Status>)
        ensures
            status == self@.status(),
    {
        match self {
            ConditionalVerdict::Proceed(_) => None,
            ConditionalVerdict::ShortCircuit(status, _) => Some(*status),
        }
    }
}

/// The tag that represents a response: the value of its `ETag` entry,
/// trimmed, when it has one, and otherwise the tag derived from its body.
pub open spec fn resolved_tag(
    existing: Option<Seq<char>>,
    body: Seq<u8>,
    strength: Strength,
) -> Seq<char> {
    match existing {
        Some(value) => trim(value),
        None => derived_tag(body, strength),
    }
}

/// The verdict on a request, given the tag that represents the response.
///
/// `If-Match` is looked at first: when it is present and its precondition
/// does not hold, the verdict is `412` and nothing else is considered. Then
/// `If-None-Match`: when it is present and names the tag, the verdict is
/// `304` for a safe retrieval method and `412` for any other. Otherwise the
/// response proceeds.
pub open spec fn verdict_for(
    method: Method,
    if_match: Option<Seq<char>>,
    if_none_match: Option<Seq<char>>,
    etag: Seq<char>,
) -> VerdictView {
    if if_match is Some && !if_match_holds(etag, if_match->0) {
        VerdictView::ShortCircuit(Status::PreconditionFailed, etag)
    } else if if_none_match is Some && if_none_match_hits(etag, if_none_match->0) {
        if method.safe_retrieval() {
            VerdictView::ShortCircuit(Status::NotModified, etag)
        } else {
            VerdictView::ShortCircuit(Status::PreconditionFailed, etag)
        }
    } else {
        VerdictView::Proceed(etag)
    }
}

/// A byte that may stand in the value of a header field: anything but a
/// control character, of which only the horizontal tab is admitted.
pub open spec fn is_field_value_byte(b: u8) -> bool {
    (b >= 32 && b != 127) || b == 9
}

/// A text that can be the value of a header field: each byte of its UTF-8
/// encoding may stand there.
pub open spec fn is_field_value(text: Seq<char>) -> bool {
    forall|i: int|
        0 <= i < encode_utf8(text).len() ==> is_field_value_byte(#[trigger] encode_utf8(text)[i])
}

/// Calls `HeaderValue::from_str` of the `http` crate, under the name that
/// `actix_web` gives it, and tells whether it accepted the text. It accepts
/// a text when each of its bytes is at least 32 and not 127, or is 9; the
/// contract claims exactly that.
#[verifier::external_body]
fn encodes_as_header_value(value: &str) -> (accepted: bool)
    ensures
        accepted == is_field_value(value@),
{
    actix_web::http::header::HeaderValue::from_str(value).is_ok()
}

/// Printable ASCII text can be the value of a header field.
pub proof fn lemma_printable_is_field_value(text: Seq<char>)
    requires
        forall|i: int| 0 <= i < text.len() ==> ' ' <= #[trigger] text[i] <= '~',
    ensures
        is_field_value(text),
{
    is_ascii_chars_encode_utf8(text);
}

/// A derived tag can always be the value of a header field.
pub proof fn lemma_derived_tag_is_field_value(digest: u32, strength: Strength)
    ensures
        is_field_value(entity_tag_text(digest, strength)),
{
    lemma_lower_hex_digits(digest as nat);
    lemma_printable_is_field_value(entity_tag_text(digest, strength));
}

/// Resolves the tag that represents a response.
///
/// A tag that the headers already carry wins: it is returned trimmed, as it
/// is, and neither the headers nor the body are touched. Otherwise the tag is
/// derived from the body and entered in the headers.
pub fn extract_or_compute_etag(head: &mut ResponseHead, body: &[u8], strength: Strength) -> (tag:
    String)
    ensures
        tag@ == resolved_tag(old(head).etag_text(), body@, strength),
        old(head).etag is Some ==> *final(head) == *old(head),
        old(head).etag is None ==> final(head).etag_text() == Some(tag@),
{
    match &head.etag {
        Some(value) => {
            return trimmed(value.as_str()).to_owned();
        },
        None => {},
    }
    let value = build_entity_tag(body, strength);
    proof {
        lemma_derived_tag_is_field_value(crc32(body@), strength);
    }
    head.insert_etag(value.as_str());
    value
}

/// Evaluates the preconditions of a request against the tag that represents
/// the response.
pub fn evaluate_conditionals(req: &RequestHead, etag: &str) -> (verdict: ConditionalVerdict)
    ensures
        verdict@ == verdict_for(req.method, req.if_match_text(), req.if_none_match_text(), etag@),
{
    match &req.if_match {
        Some(if_match) => {
            if !match_if_match(etag, if_match.as_str()) {
                return ConditionalVerdict::ShortCircuit(
                    Status::PreconditionFailed,
                    etag.to_owned(),
                );
            }
        },
        None => {},
    }
    match &req.if_none_match {
        Some(if_none_match) => {
            if match_if_none_match(etag, if_none_match.as_str()) {
                let status = if req.method.is_safe_retrieval() {
                    Status::NotModified
                } else {
                    Status::PreconditionFailed
                };
                return ConditionalVerdict::ShortCircuit(status, etag.to_owned());
            }
        },
        None => {},
    }
    ConditionalVerdict::Proceed(etag.to_owned())
}

} // verus!
