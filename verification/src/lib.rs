//! Entity tags for HTTP responses and the evaluation of conditional requests.
//!
//! The library decides two things for each exchange, on plain values that a
//! host hands it:
//!
//! - which entity tag represents a response: the one its headers already
//!   carry, or one derived from the CRC-32 checksum of its body
//!   ([`extract_or_compute_etag`], [`build_entity_tag`]);
//! - whether the request's `If-Match` and `If-None-Match` headers let the
//!   response through or call for an empty `304` or `412` in its place
//!   ([`evaluate_conditionals`]).
//!
//! [`ETagMiddleware::call`] does both in turn. The rules are stated over
//! sequences of characters in [`tag`], [`validators`] and [`conditional`],
//! every function here is proved to follow them, and [`laws`] holds what
//! follows from them for every input.
//!
//! The checksum is for cache freshness only: it is not a cryptographic
//! digest, and two bodies may share a tag.

pub mod conditional;
pub mod laws;
pub mod middleware;
pub mod tag;
pub mod text;
pub mod validators;

pub use conditional::{
    evaluate_conditionals, extract_or_compute_etag, ConditionalVerdict, Method, RequestHead,
    ResponseHead, Status,
};
pub use middleware::{ETag, ETagMiddleware};
pub use tag::{
    build_entity_tag, is_weak, render_entity_tag, strip_weak_prefix, strong_compare, weak_compare,
    Strength,
};
pub use validators::{match_if_match, match_if_none_match, Validator, ValidatorList};
