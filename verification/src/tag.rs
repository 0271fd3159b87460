//! Entity tags: their textual form, how one is derived from a response body,
//! and the two ways of comparing them.
//!
//! An entity tag is kept as plain text. A tag whose text begins with `W/` is
//! weak; what follows the marker (or the whole text of a strong tag) is its
//! opaque token, which is compared character by character and never
//! interpreted.

use crate::text::same_text;
use vstd::prelude::*;

verus! {

/// How a freshly derived entity tag is marked. It has no bearing on how tags
/// are compared: each tag carries its own marker.
#[derive(Clone, Copy, Debug, PartialEq, Eq, Structural)]
pub enum Strength {
    Strong,
    Weak,
}

/// The marker of a weak tag.
pub open spec fn weak_marker() -> Seq<char> {
    seq!['W', '/']
}

/// A tag is weak when its text begins with the weak marker.
pub open spec fn is_weak_tag(tag: Seq<char>) -> bool {
    tag.len() >= 2 && tag[0] == 'W' && tag[1] == '/'
}

/// The opaque token of a tag: its text without the weak marker, if it has one.
pub open spec fn opaque_token(tag: Seq<char>) -> Seq<char> {
    if is_weak_tag(tag) {
        tag.skip(2)
    } else {
        tag
    }
}

/// Strong comparison: neither tag is weak and the two are the same text.
pub open spec fn strong_match(left: Seq<char>, right: Seq<char>) -> bool {
    !is_weak_tag(left) && !is_weak_tag(right) && left == right
}

/// Weak comparison: the opaque tokens are the same text, whatever the markers.
pub open spec fn weak_match(left: Seq<char>, right: Seq<char>) -> bool {
    opaque_token(left) == opaque_token(right)
}

/// The sixteen lowercase hexadecimal digits, in order.
pub open spec fn hex_digits() -> Seq<char> {
    seq!['0', '1', '2', '3', '4', '5', '6', '7', '8', '9', 'a', 'b', 'c', 'd', 'e', 'f']
}

/// The lowercase hexadecimal digit for `d`, which is less than sixteen.
pub open spec fn hex_digit(d: int) -> char
    recommends
        0 <= d < 16,
{
    hex_digits()[d]
}

/// `n` in lowercase hexadecimal, most significant digit first, without
/// leading zeros (zero itself is `0`).
pub open spec fn lower_hex(n: nat) -> Seq<char>
    decreases n,
{
    if n < 16 {
        seq![hex_digit(n as int)]
    } else {
        lower_hex(n / 16).push(hex_digit((n % 16) as int))
    }
}

/// A lowercase hexadecimal digit.
pub open spec fn is_hex_digit(c: char) -> bool {
    '0' <= c <= '9' || 'a' <= c <= 'f'
}

/// A number in hexadecimal has at least one digit, and nothing but digits.
pub proof fn lemma_lower_hex_digits(n: nat)
    ensures
        lower_hex(n).len() > 0,
        forall|i: int| 0 <= i < lower_hex(n).len() ==> is_hex_digit(#[trigger] lower_hex(n)[i]),
    decreases n,
{
    if n >= 16 {
        lemma_lower_hex_digits(n / 16);
    }
}

/// The text of the tag that is derived from a checksum: the checksum in
/// lowercase hexadecimal between double quotes, behind the weak marker when
/// the tag is to be weak.
pub open spec fn entity_tag_text(digest: u32, strength: Strength) -> Seq<char> {
    let quoted = seq!['"'] + lower_hex(digest as nat) + seq!['"'];
    match strength {
        Strength::Strong => quoted,
        Strength::Weak => weak_marker() + quoted,
    }
}

/// The CRC-32 (IEEE) checksum of a sequence of bytes.
pub uninterp spec fn crc32(data: Seq<u8>) -> u32;

/// The text of the tag that is derived from a response body.
pub open spec fn derived_tag(body: Seq<u8>, strength: Strength) -> Seq<char> {
    entity_tag_text(crc32(body), strength)
}

/// Calls `crc32fast::hash`, which computes the CRC-32 checksum of a byte
/// slice. It is a function of the bytes alone; the contract gives that value
/// its name and claims nothing else of it.
#[verifier::external_body]
fn checksum(body: &[u8]) -> (digest: u32)
    ensures
        digest == crc32(body@),
{
    crc32fast::hash(body)
}

/// Tells whether a tag is weak.
pub fn is_weak(value: &str) -> (weak: bool)
    ensures
        weak == is_weak_tag(value@),
{
    let n: usize = value.unicode_len();
    n >= 2 && value.get_char(0) == 'W' && value.get_char(1) == '/'
}

/// The opaque token of a tag: `value` without its weak marker, or `value`
/// itself when it has none.
pub fn strip_weak_prefix<'a>(value: &'a str) -> (token: &'a str)
    ensures
        token@ == opaque_token(value@),
{
    if is_weak(value) {
        value.substring_char(2, value.unicode_len())
    } else {
        value
    }
}

/// Strong comparison of two tags.
pub fn strong_compare(left: &str, right: &str) -> (equal: bool)
    ensures
        equal == strong_match(left@, right@),
{
    !is_weak(left) && !is_weak(right) && same_text(left, right)
}

/// Weak comparison of two tags.
pub fn weak_compare(left: &str, right: &str) -> (equal: bool)
    ensures
        equal == weak_match(left@, right@),
{
    same_text(strip_weak_prefix(left), strip_weak_prefix(right))
}

/// The one-character text of a hexadecimal digit.
fn hex_digit_text(d: u32) -> (text: &'static str)
    requires
        d < 16,
    ensures
        text@ == seq![hex_digit(d as int)],
{
    proof {
        reveal_strlit("0123456789abcdef");
    }
    let digits: &'static str = "0123456789abcdef";
    let at: usize = d as usize;
    digits.substring_char(at, at + 1)
}

/// Appends `n` in lowercase hexadecimal to `out`.
fn push_lower_hex(out: &mut String, n: u32)
    ensures
        final(out)@ == old(out)@ + lower_hex(n as nat),
    decreases n,
{
    if n >= 16 {
        push_lower_hex(out, n / 16);
    }
    out.append(hex_digit_text(n % 16));
}

/// `n` in lowercase hexadecimal.
pub fn to_lower_hex(n: u32) -> (text: String)
    ensures
        text@ == lower_hex(n as nat),
{
    let mut text = String::new();
    push_lower_hex(&mut text, n);
    text
}

/// Writes out the tag for a checksum that has already been computed.
pub fn render_entity_tag(digest: u32, strength: Strength) -> (tag: String)
    ensures
        tag@ == entity_tag_text(digest, strength),
{
    proof {
        reveal_strlit("W/");
        reveal_strlit("\"");
    }
    let mut tag = String::new();
    match strength {
        Strength::Strong => {},
        Strength::Weak => {
            tag.append("W/");
        },
    }
    tag.append("\"");
    push_lower_hex(&mut tag, digest);
    tag.append("\"");
    tag
}

/// Derives the tag of a response body: the CRC-32 checksum of its bytes,
/// written out as `render_entity_tag` does.
pub fn build_entity_tag(body: &[u8], strength: Strength) -> (tag: String)
    ensures
        tag@ == derived_tag(body@, strength),
{
    render_entity_tag(checksum(body), strength)
}

} // verus!
