//! What holds of tag derivation, tag comparison and precondition evaluation
//! for every input.

use crate::conditional::{resolved_tag, verdict_for, Method, Status, VerdictView};
use crate::tag::{
    crc32, derived_tag, is_hex_digit, is_weak_tag, lemma_lower_hex_digits, opaque_token,
    strong_match, weak_marker, weak_match, Strength,
};
use crate::text::{
    is_trimmed, is_whitespace, lemma_first_comma_at, split_commas, trim, trim_end, trim_start,
};
use crate::validators::{
    accepts_strongly, accepts_weakly, if_match_holds, if_none_match_hits, parse_validators,
    wildcard, ValidatorView,
};
use vstd::prelude::*;

verus! {

/// `trim_start` drops a prefix and stops at the first character that is not
/// whitespace.
pub proof fn lemma_trim_start_shape(s: Seq<char>)
    ensures
        trim_start(s).len() <= s.len(),
        trim_start(s) == s.skip(s.len() - trim_start(s).len()),
        trim_start(s).len() > 0 ==> !is_whitespace(trim_start(s).first()),
    decreases s.len(),
{
    if s.len() > 0 && is_whitespace(s.first()) {
        lemma_trim_start_shape(s.drop_first());
    }
}

/// `trim_end` drops a suffix and stops at the last character that is not
/// whitespace.
pub proof fn lemma_trim_end_shape(s: Seq<char>)
    ensures
        trim_end(s).len() <= s.len(),
        trim_end(s) == s.take(trim_end(s).len() as int),
        trim_end(s).len() > 0 ==> !is_whitespace(trim_end(s).last()),
    decreases s.len(),
{
    if s.len() > 0 && is_whitespace(s.last()) {
        lemma_trim_end_shape(s.drop_last());
    }
}

/// What trimming leaves neither starts nor ends with whitespace, and
/// trimming it again changes nothing.
pub proof fn lemma_trim_is_idempotent(s: Seq<char>)
    ensures
        is_trimmed(trim(s)),
        trim(trim(s)) == trim(s),
        trim(s).len() <= s.len(),
{
    lemma_trim_start_shape(s);
    lemma_trim_end_shape(trim_start(s));
}

/// Text that neither starts nor ends with whitespace is its own trimmed
/// form.
pub proof fn lemma_trim_of_trimmed(s: Seq<char>)
    requires
        is_trimmed(s),
    ensures
        trim(s) == s,
{
}

/// Derivation is deterministic: two bodies that hold the same bytes get the
/// same tag under the same strength.
pub proof fn lemma_derivation_is_deterministic(first: Seq<u8>, second: Seq<u8>, strength: Strength)
    requires
        first.len() == second.len(),
        forall|i: int| 0 <= i < first.len() ==> first[i] == second[i],
    ensures
        derived_tag(first, strength) == derived_tag(second, strength),
{
    assert(first =~= second);
}

/// A tag derived under weak strength begins with `W/"`; one derived under
/// strong strength begins with `"` and is not weak. Either ends with `"`.
pub proof fn lemma_derived_tag_carries_its_marker(body: Seq<u8>)
    ensures
        seq!['W', '/', '"'].is_prefix_of(derived_tag(body, Strength::Weak)),
        is_weak_tag(derived_tag(body, Strength::Weak)),
        seq!['"'].is_prefix_of(derived_tag(body, Strength::Strong)),
        !is_weak_tag(derived_tag(body, Strength::Strong)),
        derived_tag(body, Strength::Weak).last() == '"',
        derived_tag(body, Strength::Strong).last() == '"',
        derived_tag(body, Strength::Weak) == weak_marker() + derived_tag(body, Strength::Strong),
        opaque_token(derived_tag(body, Strength::Weak)) == derived_tag(body, Strength::Strong),
        opaque_token(derived_tag(body, Strength::Strong)) == derived_tag(body, Strength::Strong),
{
}

/// Strong comparison never holds when either tag is weak.
pub proof fn lemma_strong_match_rejects_weak(left: Seq<char>, right: Seq<char>)
    requires
        is_weak_tag(left) || is_weak_tag(right),
    ensures
        !strong_match(left, right),
{
}

/// A weak tag does not compare strongly equal to the strong tag with the
/// same token, as `W/"t"` against `"t"`, nor to itself.
pub proof fn lemma_strong_match_rejects_weak_form(tag: Seq<char>)
    ensures
        !strong_match(weak_marker() + tag, tag),
        !strong_match(tag, weak_marker() + tag),
        !strong_match(weak_marker() + tag, weak_marker() + tag),
{
}

/// Strong comparison holds of a tag and itself exactly when the tag is not
/// weak.
pub proof fn lemma_strong_match_reflexive_on_strong(tag: Seq<char>)
    ensures
        strong_match(tag, tag) == !is_weak_tag(tag),
{
}

/// Weak comparison is symmetric.
pub proof fn lemma_weak_match_is_symmetric(left: Seq<char>, right: Seq<char>)
    ensures
        weak_match(left, right) == weak_match(right, left),
{
}

/// Weak comparison is reflexive and transitive.
pub proof fn lemma_weak_match_is_equivalence(a: Seq<char>, b: Seq<char>, c: Seq<char>)
    ensures
        weak_match(a, a),
        weak_match(a, b) && weak_match(b, c) ==> weak_match(a, c),
{
}

/// Weak comparison ignores the marker: a tag with the weak marker put in
/// front compares weakly equal to the tag without it.
pub proof fn lemma_weak_match_ignores_marker(tag: Seq<char>)
    requires
        !is_weak_tag(tag),
    ensures
        weak_match(weak_marker() + tag, tag),
        weak_match(tag, weak_marker() + tag),
{
    assert((weak_marker() + tag).skip(2) =~= tag);
}

/// Strong comparison implies weak comparison.
pub proof fn lemma_strong_match_implies_weak_match(left: Seq<char>, right: Seq<char>)
    requires
        strong_match(left, right),
    ensures
        weak_match(left, right),
{
}

/// An empty header value lists no validator, so it accepts no tag.
pub proof fn lemma_empty_header_accepts_nothing(etag: Seq<char>)
    ensures
        parse_validators(Seq::empty()).len() == 0,
        !if_match_holds(etag, Seq::empty()),
        !if_none_match_hits(etag, Seq::empty()),
{
}

/// The header value `*` lists exactly the wildcard.
pub proof fn lemma_wildcard_header_parses()
    ensures
        parse_validators(wildcard()) == seq![ValidatorView::Any],
{
    lemma_first_comma_at(wildcard(), 1);
}

/// The wildcard accepts every tag: `If-Match: *` holds and
/// `If-None-Match: *` hits, whatever the tag.
pub proof fn lemma_wildcard_accepts_every_tag(etag: Seq<char>)
    ensures
        if_match_holds(etag, wildcard()),
        if_none_match_hits(etag, wildcard()),
{
    lemma_wildcard_header_parses();
    let list = parse_validators(wildcard());
    assert(accepts_strongly(list[0], etag));
    assert(accepts_weakly(list[0], etag));
}

/// A header value one of whose pieces is the wildcard, whatever whitespace
/// surrounds it, accepts every tag.
pub proof fn lemma_listed_wildcard_accepts_every_tag(header: Seq<char>, i: int, etag: Seq<char>)
    requires
        0 <= i < split_commas(header).len(),
        trim(split_commas(header)[i]) == wildcard(),
    ensures
        if_match_holds(etag, header),
        if_none_match_hits(etag, header),
{
    if header.len() == 0 {
        lemma_first_comma_at(header, 0);
    } else {
        let list = parse_validators(header);
        assert(accepts_strongly(list[i], etag));
        assert(accepts_weakly(list[i], etag));
    }
}

/// With `If-Match: *` and no `If-None-Match` every response proceeds; with
/// `If-None-Match: *` and no `If-Match` none does: the verdict is `304` for
/// a safe retrieval method and `412` for any other.
pub proof fn lemma_wildcard_verdicts(method: Method, etag: Seq<char>)
    ensures
        verdict_for(method, Some(wildcard()), None, etag) == VerdictView::Proceed(etag),
        verdict_for(method, None, Some(wildcard()), etag) == VerdictView::ShortCircuit(
            if method.safe_retrieval() {
                Status::NotModified
            } else {
                Status::PreconditionFailed
            },
            etag,
        ),
{
    lemma_wildcard_accepts_every_tag(etag);
}

/// `If-Match` takes precedence: when its precondition does not hold, the
/// verdict is `412` with the resolved tag, whatever the method and whatever
/// `If-None-Match` says or whether it was sent at all.
pub proof fn lemma_if_match_takes_precedence(
    method: Method,
    if_match: Seq<char>,
    if_none_match: Option<Seq<char>>,
    etag: Seq<char>,
)
    requires
        !if_match_holds(etag, if_match),
    ensures
        verdict_for(method, Some(if_match), if_none_match, etag) == VerdictView::ShortCircuit(
            Status::PreconditionFailed,
            etag,
        ),
{
}

/// The method decides the status of a hit: when `If-Match` does not stand in
/// the way and `If-None-Match` names the tag, the verdict is `304` for `GET`
/// and `HEAD` and `412` for every other method.
pub proof fn lemma_method_decides_status_of_hit(
    method: Method,
    if_match: Option<Seq<char>>,
    if_none_match: Seq<char>,
    etag: Seq<char>,
)
    requires
        if_match matches Some(value) ==> if_match_holds(etag, value),
        if_none_match_hits(etag, if_none_match),
    ensures
        method == Method::Get || method == Method::Head ==> verdict_for(
            method,
            if_match,
            Some(if_none_match),
            etag,
        ) == VerdictView::ShortCircuit(Status::NotModified, etag),
        method != Method::Get && method != Method::Head ==> verdict_for(
            method,
            if_match,
            Some(if_none_match),
            etag,
        ) == VerdictView::ShortCircuit(Status::PreconditionFailed, etag),
{
}

/// A response proceeds exactly when neither header stands in the way, and
/// every verdict carries the resolved tag.
pub proof fn lemma_verdict_cases(
    method: Method,
    if_match: Option<Seq<char>>,
    if_none_match: Option<Seq<char>>,
    etag: Seq<char>,
)
    ensures
        verdict_for(method, if_match, if_none_match, etag) is Proceed <==> (if_match matches Some(
            value,
        ) ==> if_match_holds(etag, value)) && (if_none_match matches Some(value)
            ==> !if_none_match_hits(etag, value)),
        verdict_for(method, if_match, if_none_match, etag).tag() == etag,
        verdict_for(method, None, None, etag) == VerdictView::Proceed(etag),
{
}

/// A tag that the headers already carry passes through: the resolved tag is
/// that value, trimmed, whatever the body and the strength, and it is the
/// value itself when there is nothing to trim.
pub proof fn lemma_existing_tag_passes_through(
    existing: Seq<char>,
    body: Seq<u8>,
    other_body: Seq<u8>,
    strength: Strength,
    other_strength: Strength,
)
    ensures
        resolved_tag(Some(existing), body, strength) == trim(existing),
        resolved_tag(Some(existing), body, strength) == resolved_tag(
            Some(existing),
            other_body,
            other_strength,
        ),
        is_trimmed(existing) ==> resolved_tag(Some(existing), body, strength) == existing,
{
}

/// A header value without a comma that is not empty and has nothing to
/// trim lists exactly one validator: the wildcard if it is `*`, and
/// otherwise itself as a tag.
pub proof fn lemma_single_entry_header_parses(header: Seq<char>)
    requires
        header.len() > 0,
        forall|i: int| 0 <= i < header.len() ==> header[i] != ',',
        is_trimmed(header),
    ensures
        header == wildcard() ==> parse_validators(header) == seq![ValidatorView::Any],
        header != wildcard() ==> parse_validators(header) == seq![ValidatorView::Tag(header)],
{
    lemma_first_comma_at(header, header.len() as int);
}

/// A derived tag holds nothing but the weak marker, the two quotes and
/// hexadecimal digits: no comma, no whitespace, and it is not the wildcard.
pub proof fn lemma_derived_tag_is_plain(body: Seq<u8>, strength: Strength)
    ensures
        derived_tag(body, strength).len() >= 3,
        derived_tag(body, strength) != wildcard(),
        is_trimmed(derived_tag(body, strength)),
        forall|i: int|
            0 <= i < derived_tag(body, strength).len() ==> {
                let c = #[trigger] derived_tag(body, strength)[i];
                c == 'W' || c == '/' || c == '"' || is_hex_digit(c)
            },
        forall|i: int|
            0 <= i < derived_tag(body, strength).len() ==> #[trigger] derived_tag(
                body,
                strength,
            )[i] != ',',
        parse_validators(derived_tag(body, strength)) == seq![
            ValidatorView::Tag(derived_tag(body, strength)),
        ],
{
    let digest = crc32(body);
    let tag = derived_tag(body, strength);
    lemma_lower_hex_digits(digest as nat);
    assert forall|i: int| 0 <= i < tag.len() implies {
        let c = #[trigger] tag[i];
        c == 'W' || c == '/' || c == '"' || is_hex_digit(c)
    } by {}
    lemma_single_entry_header_parses(tag);
}

/// A client that sends back the tag it was given is recognised, for every
/// body: `If-None-Match` with the derived tag, in its strong or its weak
/// form, names the derived tag of either strength, and `If-Match` holds
/// exactly when both the tag sent and the derived tag are strong.
pub proof fn lemma_derived_tag_revalidates(body: Seq<u8>, sent: Strength, derived: Strength)
    ensures
        if_none_match_hits(derived_tag(body, derived), derived_tag(body, sent)),
        if_match_holds(derived_tag(body, derived), derived_tag(body, sent)) <==> sent
            == Strength::Strong && derived == Strength::Strong,
{
    let header = derived_tag(body, sent);
    let etag = derived_tag(body, derived);
    lemma_derived_tag_is_plain(body, sent);
    lemma_derived_tag_carries_its_marker(body);
    let list = parse_validators(header);
    assert(accepts_weakly(list[0], etag));
    if sent == Strength::Strong && derived == Strength::Strong {
        assert(accepts_strongly(list[0], etag));
    }
}

/// The verdicts on a request that sends back the derived tag: under
/// `If-None-Match` it is `304` for `GET`, whatever the strengths; under
/// `If-Match` the response proceeds when both tags are strong and is
/// refused with `412` when the derived tag is weak.
pub proof fn lemma_verdicts_on_derived_tag(body: Seq<u8>, sent: Strength, derived: Strength)
    ensures
        verdict_for(
            Method::Get,
            None,
            Some(derived_tag(body, sent)),
            derived_tag(body, derived),
        ) == VerdictView::ShortCircuit(Status::NotModified, derived_tag(body, derived)),
        verdict_for(
            Method::Get,
            Some(derived_tag(body, Strength::Strong)),
            None,
            derived_tag(body, Strength::Strong),
        ) == VerdictView::Proceed(derived_tag(body, Strength::Strong)),
        verdict_for(
            Method::Get,
            Some(derived_tag(body, sent)),
            None,
            derived_tag(body, Strength::Weak),
        ) == VerdictView::ShortCircuit(
            Status::PreconditionFailed,
            derived_tag(body, Strength::Weak),
        ),
{
    lemma_derived_tag_revalidates(body, sent, derived);
    lemma_derived_tag_revalidates(body, Strength::Strong, Strength::Strong);
    lemma_derived_tag_revalidates(body, sent, Strength::Weak);
}

} // verus!
