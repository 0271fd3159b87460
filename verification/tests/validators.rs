use etag_actix_middleware::{match_if_match, match_if_none_match, Validator, ValidatorList};

fn tag(text: &str) -> Validator {
    Validator::Tag(text.to_string())
}

fn entries(header: &str) -> Vec<Validator> {
    let list = ValidatorList::parse(header);
    let mut out = Vec::new();
    let mut i = 0;
    while let Some(validator) = list.get(i) {
        out.push(match validator {
            Validator::Any => Validator::Any,
            Validator::Tag(text) => Validator::Tag(text.clone()),
        });
        i += 1;
    }
    assert_eq!(out.len(), list.len());
    assert!(list.get(list.len()).is_none());
    out
}

fn std_pieces(header: &str) -> Vec<&str> {
    if header.is_empty() {
        Vec::new()
    } else {
        header.split(',').map(|piece| piece.trim()).collect()
    }
}

fn std_if_match(etag: &str, header: &str) -> bool {
    std_pieces(header).into_iter().any(|piece| {
        piece == "*" || (!piece.starts_with("W/") && !etag.starts_with("W/") && piece == etag)
    })
}

fn std_if_none_match(etag: &str, header: &str) -> bool {
    let token = etag.strip_prefix("W/").unwrap_or(etag);
    std_pieces(header)
        .into_iter()
        .any(|piece| piece == "*" || piece.strip_prefix("W/").unwrap_or(piece) == token)
}

#[test]
fn parse_single_tag() {
    assert_eq!(entries("\"abc\""), vec![tag("\"abc\"")]);
}

#[test]
fn parse_wildcard() {
    assert_eq!(entries("*"), vec![Validator::Any]);
    assert_eq!(entries("  *\t"), vec![Validator::Any]);
}

#[test]
fn parse_list_trims_each_piece_and_keeps_order() {
    assert_eq!(
        entries(" \"a\" ,W/\"b\",  * , \"c\""),
        vec![tag("\"a\""), tag("W/\"b\""), Validator::Any, tag("\"c\"")]
    );
}

#[test]
fn parse_keeps_empty_pieces_and_duplicates() {
    assert_eq!(entries("\"a\",,\"a\""), vec![tag("\"a\""), tag(""), tag("\"a\"")]);
    assert_eq!(entries(","), vec![tag(""), tag("")]);
    assert_eq!(entries("\"a\","), vec![tag("\"a\""), tag("")]);
    assert_eq!(entries(" "), vec![tag("")]);
}

#[test]
fn parse_empty_header_lists_nothing() {
    assert_eq!(entries(""), Vec::<Validator>::new());
    assert_eq!(ValidatorList::parse("").len(), 0);
    assert!(ValidatorList::parse("").is_empty());
    assert!(!ValidatorList::parse(" ").is_empty());
}

#[test]
fn wildcard_is_only_a_whole_piece() {
    assert_eq!(entries("**"), vec![tag("**")]);
    assert_eq!(entries("\"*\""), vec![tag("\"*\"")]);
    assert_eq!(entries("* *"), vec![tag("* *")]);
    assert_eq!(entries("W/*"), vec![tag("W/*")]);
    assert!(!match_if_match("\"abc\"", "\"*\""));
    assert!(!match_if_none_match("\"abc\"", "a*"));
}

#[test]
fn parse_agrees_with_std_split_and_trim() {
    let headers = [
        "\"a\"", "\"a\", \"b\"", " * ", "a,b,c", ",,", " , ,", "W/\"x\" ,\t\"y\"", "é , 日本",
        "\"a\"\u{a0},\u{3000}\"b\"", "no commas at all", "trailing,", ",leading",
    ];
    for header in headers {
        let expected: Vec<Validator> = std_pieces(header)
            .into_iter()
            .map(|piece| if piece == "*" { Validator::Any } else { tag(piece) })
            .collect();
        assert_eq!(entries(header), expected, "{:?}", header);
    }
}

#[test]
fn list_accepts_by_any_entry() {
    let list = ValidatorList::parse("\"a\", W/\"b\", \"c\"");
    assert!(list.any_accepts_strongly("\"a\""));
    assert!(list.any_accepts_strongly("\"c\""));
    assert!(!list.any_accepts_strongly("\"b\""));
    assert!(!list.any_accepts_strongly("W/\"b\""));
    assert!(!list.any_accepts_strongly("\"d\""));
    assert!(list.any_accepts_weakly("\"a\""));
    assert!(list.any_accepts_weakly("\"b\""));
    assert!(list.any_accepts_weakly("W/\"b\""));
    assert!(list.any_accepts_weakly("W/\"c\""));
    assert!(!list.any_accepts_weakly("\"d\""));
}

#[test]
fn single_validators_accept() {
    assert!(Validator::Any.accepts_strongly("W/\"x\""));
    assert!(Validator::Any.accepts_weakly(""));
    assert!(tag("\"x\"").accepts_strongly("\"x\""));
    assert!(!tag("\"x\"").accepts_strongly("W/\"x\""));
    assert!(!tag("W/\"x\"").accepts_strongly("W/\"x\""));
    assert!(tag("W/\"x\"").accepts_weakly("\"x\""));
    assert!(!tag("\"x\"").accepts_weakly("\"y\""));
}

#[test]
fn if_match_examples() {
    assert!(match_if_match("\"3610a686\"", "\"3610a686\""));
    assert!(!match_if_match("\"3610a686\"", "\"deadbeef\""));
    assert!(match_if_match("\"3610a686\"", "\"deadbeef\", \"3610a686\""));
    assert!(match_if_match("\"3610a686\"", "  \"3610a686\"  "));
    assert!(!match_if_match("W/\"3610a686\"", "W/\"3610a686\""));
    assert!(!match_if_match("W/\"3610a686\"", "\"3610a686\""));
    assert!(!match_if_match("\"3610a686\"", "W/\"3610a686\""));
    assert!(!match_if_match("\"abc\"", "\"ABC\""));
}

#[test]
fn if_none_match_examples() {
    assert!(match_if_none_match("\"3610a686\"", "\"3610a686\""));
    assert!(match_if_none_match("W/\"3610a686\"", "\"3610a686\""));
    assert!(match_if_none_match("\"3610a686\"", "W/\"3610a686\""));
    assert!(match_if_none_match("W/\"3610a686\"", "W/\"3610a686\""));
    assert!(match_if_none_match("W/\"3610a686\"", "\"x\" ,  \"3610a686\""));
    assert!(!match_if_none_match("\"3610a686\"", "\"deadbeef\""));
    assert!(!match_if_none_match("\"abc\"", "\"ABC\""));
}

#[test]
fn wildcard_accepts_every_tag() {
    for etag in ["\"a\"", "W/\"a\"", "malformed", "*", "W/", ""] {
        for header in ["*", " * ", "\"x\", *", "*,\"x\"", "\"x\",\t*\t,\"y\""] {
            assert!(match_if_match(etag, header), "{:?} {:?}", etag, header);
            assert!(match_if_none_match(etag, header), "{:?} {:?}", etag, header);
        }
    }
}

#[test]
fn empty_header_accepts_nothing() {
    for etag in ["\"a\"", "W/\"a\"", "W/", ""] {
        assert!(!match_if_match(etag, ""));
        assert!(!match_if_none_match(etag, ""));
    }
}

#[test]
fn empty_pieces_accept_only_an_empty_token() {
    assert!(match_if_match("", ","));
    assert!(match_if_none_match("W/", " "));
    assert!(!match_if_match("\"a\"", ","));
    assert!(!match_if_none_match("\"a\"", ", ,"));
}

#[test]
fn matching_agrees_with_std() {
    let etags = ["\"a\"", "W/\"a\"", "\"b\"", "W/\"b\"", "", "W/", "*", "a", "W/W/\"a\""];
    let headers = [
        "", "*", " * ", "\"a\"", "W/\"a\"", "\"a\", \"b\"", "W/\"b\" , \"c\"", ",", " ", "**",
        "\"A\"", "a", "W/a", "\"c\",*", "W/", "W/W/\"a\"", "\"a\"\u{a0}", " \"b\"\t,\n\"a\" ",
    ];
    for etag in etags {
        for header in headers {
            assert_eq!(
                match_if_match(etag, header),
                std_if_match(etag, header),
                "If-Match {:?} {:?}",
                etag,
                header
            );
            assert_eq!(
                match_if_none_match(etag, header),
                std_if_none_match(etag, header),
                "If-None-Match {:?} {:?}",
                etag,
                header
            );
        }
    }
}
