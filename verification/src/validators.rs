//! The value of an `If-Match` or `If-None-Match` header as a list of
//! validators, and what it means for a tag to be matched by such a list.

use crate::tag::{strong_compare, strong_match, weak_compare, weak_match};
use crate::text::{
    lemma_split_at_comma, lemma_split_without_comma, split_commas, to_chars, trim, trim_bounds,
};
use vstd::prelude::*;

verus! {

/// One entry of a validator list.
#[derive(Debug, PartialEq, Eq)]
pub enum Validator {
    /// The wildcard `*`, which stands for any tag.
    Any,
    /// An entity tag, as it was written in the header.
    Tag(String),
}

/// What a `Validator` stands for.
pub enum ValidatorView {
    Any,
    Tag(Seq<char>),
}

impl View for Validator {
    type V = ValidatorView;

    open spec fn view(&self) -> ValidatorView {
        match self {
            Validator::Any => ValidatorView::Any,
            Validator::Tag(tag) => ValidatorView::Tag(tag@),
        }
    }
}

/// The text of the wildcard.
pub open spec fn wildcard() -> Seq<char> {
    seq!['*']
}

/// The validator that one piece of a header stands for: the wildcard when
/// the piece, trimmed, is exactly `*`, and otherwise the trimmed piece taken
/// as a tag.
pub open spec fn validator_of(piece: Seq<char>) -> ValidatorView {
    let entry = trim(piece);
    if entry == wildcard() {
        ValidatorView::Any
    } else {
        ValidatorView::Tag(entry)
    }
}

/// The validators that a header value lists: one for each of its
/// comma-separated pieces, in order. An empty header value lists none.
pub open spec fn parse_validators(header: Seq<char>) -> Seq<ValidatorView> {
    if header.len() == 0 {
        Seq::empty()
    } else {
        split_commas(header).map_values(|piece: Seq<char>| validator_of(piece))
    }
}

/// A validator accepts a tag for `If-Match` when it is the wildcard or a tag
/// that compares strongly equal.
pub open spec fn accepts_strongly(validator: ValidatorView, etag: Seq<char>) -> bool {
    match validator {
        ValidatorView::Any => true,
        ValidatorView::Tag(tag) => strong_match(tag, etag),
    }
}

/// A validator accepts a tag for `If-None-Match` when it is the wildcard or
/// a tag that compares weakly equal.
pub open spec fn accepts_weakly(validator: ValidatorView, etag: Seq<char>) -> bool {
    match validator {
        ValidatorView::Any => true,
        ValidatorView::Tag(tag) => weak_match(tag, etag),
    }
}

/// Some validator of the list accepts the tag under strong comparison.
pub open spec fn any_accepts_strongly(list: Seq<ValidatorView>, etag: Seq<char>) -> bool {
    exists|i: int| 0 <= i < list.len() && accepts_strongly(#[trigger] list[i], etag)
}

/// Some validator of the list accepts the tag under weak comparison.
pub open spec fn any_accepts_weakly(list: Seq<ValidatorView>, etag: Seq<char>) -> bool {
    exists|i: int| 0 <= i < list.len() && accepts_weakly(#[trigger] list[i], etag)
}

/// The precondition of an `If-Match` header holds for a tag.
pub open spec fn if_match_holds(etag: Seq<char>, header: Seq<char>) -> bool {
    any_accepts_strongly(parse_validators(header), etag)
}

/// An `If-None-Match` header names the tag.
pub open spec fn if_none_match_hits(etag: Seq<char>, header: Seq<char>) -> bool {
    any_accepts_weakly(parse_validators(header), etag)
}

impl Validator {
    /// Tells whether this validator accepts `etag` under strong comparison.
    pub fn accepts_strongly(&self, etag: &str) -> (accepted: bool)
        ensures
            accepted == accepts_strongly(self@, etag@),
    {
        match self {
            Validator::Any => true,
            Validator::Tag(tag) => strong_compare(tag.as_str(), etag),
        }
    }

    /// Tells whether this validator accepts `etag` under weak comparison.
    pub fn accepts_weakly(&self, etag: &str) -> (accepted: bool)
        ensures
            accepted == accepts_weakly(self@, etag@),
    {
        match self {
            Validator::Any => true,
            Validator::Tag(tag) => weak_compare(tag.as_str(), etag),
        }
    }
}

/// The validator for the part `lo..hi` of a header, whose characters are
/// `chars`.
fn validator_at(header: &str, chars: &Vec<char>, lo: usize, hi: usize) -> (validator: Validator)
    requires
        chars@ == header@,
        lo <= hi <= chars.len(),
    ensures
        validator@ == validator_of(header@.subrange(lo as int, hi as int)),
{
    let (from, to) = trim_bounds(chars, lo, hi);
    let ghost entry = chars@.subrange(from as int, to as int);
    if to - from == 1 && chars[from] == '*' {
        assert(entry =~= wildcard());
        Validator::Any
    } else {
        assert(entry != wildcard()) by {
            if entry == wildcard() {
                assert(entry[0] == '*');
            }
        }
        Validator::Tag(header.substring_char(from, to).to_owned())
    }
}

/// The parsed form of an `If-Match` or `If-None-Match` header value.
pub struct ValidatorList {
    entries: Vec<Validator>,
}

impl View for ValidatorList {
    type V = Seq<ValidatorView>;

    closed spec fn view(&self) -> Seq<ValidatorView> {
        self.entries@.map_values(|validator: Validator| validator@)
    }
}

impl ValidatorList {
    /// Parses a header value: it is split at its commas, and each piece is
    /// trimmed and read as the wildcard or as a tag. Every text parses; an
    /// empty one gives the empty list, which accepts no tag.
    pub fn parse(header: &str) -> (list: ValidatorList)
        ensures
            list@ == parse_validators(header@),
    {
        let chars: Vec<char> = to_chars(header);
        let n: usize = chars.len();
        let mut entries: Vec<Validator> = Vec::new();
        if n == 0 {
            let list = ValidatorList { entries };
            return list;
        }
        let mut start: usize = 0;
        let mut i: usize = 0;
        let ghost text = header@;
        let ghost mut pieces: Seq<Seq<char>> = Seq::empty();
        proof {
            assert(text.skip(0) =~= text);
        }
        while i < n
            invariant
                chars@ == text,
                text == header@,
                n == chars.len(),
                start <= i <= n,
                forall|j: int| start <= j < i ==> text[j] != ',',
                split_commas(text) == pieces + split_commas(text.skip(start as int)),
                entries@.len() == pieces.len(),
                forall|j: int|
                    0 <= j < pieces.len() ==> (#[trigger] entries@[j])@ == validator_of(pieces[j]),
            decreases n - i,
        {
            if chars[i] == ',' {
                let validator = validator_at(header, &chars, start, i);
                proof {
                    let rest = text.skip(start as int);
                    let piece = text.subrange(start as int, i as int);
                    lemma_split_at_comma(rest, i - start);
                    assert(rest.take(i - start) =~= piece);
                    assert(rest.skip(i - start + 1) =~= text.skip(i + 1));
                    pieces = pieces.push(piece);
                }
                entries.push(validator);
                start = i + 1;
            }
            i = i + 1;
        }
        let validator = validator_at(header, &chars, start, n);
        proof {
            let rest = text.skip(start as int);
            let piece = text.subrange(start as int, n as int);
            lemma_split_without_comma(rest);
            pieces = pieces.push(piece);
        }
        entries.push(validator);
        let list = ValidatorList { entries };
        list
    }

    /// The number of validators in the list.
    pub fn len(&self) -> (n: usize)
        ensures
            n == self@.len(),
    {
        self.entries.len()
    }

    /// Tells whether the list holds no validator.
    pub fn is_empty(&self) -> (empty: bool)
        ensures
            empty == (self@.len() == 0),
    {
        self.entries.len() == 0
    }

    /// The validator at position `i`, if the list is that long.
    pub fn get(&self, i: usize) -> (validator: Option<&Validator>)
        ensures
            i < self@.len() ==> (validator matches Some(found) && found@ == self@[i as int]),
            i >= self@.len() ==> validator is None,
    {
        if i < self.entries.len() {
            Some(&self.entries[i])
        } else {
            None
        }
    }

    /// Tells whether some validator of the list accepts `etag` under strong
    /// comparison: the test of an `If-Match` header.
    pub fn any_accepts_strongly(&self, etag: &str) -> (accepted: bool)
        ensures
            accepted == any_accepts_strongly(self@, etag@),
    {
        let mut i: usize = 0;
        while i < self.entries.len()
            invariant
                i <= self.entries.len(),
                forall|j: int| 0 <= j < i ==> !accepts_strongly(#[trigger] self@[j], etag@),
            decreases self.entries.len() - i,
        {
            if self.entries[i].accepts_strongly(etag) {
                assert(accepts_strongly(self@[i as int], etag@));
                return true;
            }
            i = i + 1;
        }
        false
    }

    /// Tells whether some validator of the list accepts `etag` under weak
    /// comparison: the test of an `If-None-Match` header.
    pub fn any_accepts_weakly(&self, etag: &str) -> (accepted: bool)
        ensures
            accepted == any_accepts_weakly(self@, etag@),
    {
        let mut i: usize = 0;
        while i < self.entries.len()
            invariant
                i <= self.entries.len(),
                forall|j: int| 0 <= j < i ==> !accepts_weakly(#[trigger] self@[j], etag@),
            decreases self.entries.len() - i,
        {
            if self.entries[i].accepts_weakly(etag) {
                assert(accepts_weakly(self@[i as int], etag@));
                return true;
            }
            i = i + 1;
        }
        false
    }
}

/// Tells whether the precondition of an `If-Match` header holds for `etag`:
/// the header lists the wildcard, or a tag that compares strongly equal.
pub fn match_if_match(etag: &str, header_value: &str) -> (holds: bool)
    ensures
        holds == if_match_holds(etag@, header_value@),
{
    ValidatorList::parse(header_value).any_accepts_strongly(etag)
}

/// Tells whether an `If-None-Match` header names `etag`: the header lists
/// the wildcard, or a tag that compares weakly equal.
pub fn match_if_none_match(etag: &str, header_value: &str) -> (hits: bool)
    ensures
        hits == if_none_match_hits(etag@, header_value@),
{
    ValidatorList::parse(header_value).any_accepts_weakly(etag)
}

} // verus!
