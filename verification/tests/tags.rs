use etag_actix_middleware::tag::to_lower_hex;
use etag_actix_middleware::{
    build_entity_tag, is_weak, render_entity_tag, strip_weak_prefix, strong_compare, weak_compare,
    Strength,
};

#[test]
fn hello_has_the_fixed_strong_tag() {
    assert_eq!(build_entity_tag(b"hello", Strength::Strong), "\"3610a686\"");
}

#[test]
fn hello_has_the_fixed_weak_tag() {
    assert_eq!(build_entity_tag(b"hello", Strength::Weak), "W/\"3610a686\"");
}

#[test]
fn tags_of_other_bodies() {
    assert_eq!(build_entity_tag(b"", Strength::Strong), "\"0\"");
    assert_eq!(build_entity_tag(b"", Strength::Weak), "W/\"0\"");
    assert_eq!(build_entity_tag(b"a", Strength::Strong), "\"e8b7be43\"");
    assert_eq!(build_entity_tag(b"hello world", Strength::Strong), "\"d4a1185\"");
}

#[test]
fn derivation_is_repeatable() {
    let body: Vec<u8> = (0u32..5000).map(|i| (i % 251) as u8).collect();
    for strength in [Strength::Strong, Strength::Weak] {
        let first = build_entity_tag(&body, strength);
        let second = build_entity_tag(&body.clone(), strength);
        assert_eq!(first, second);
    }
}

#[test]
fn different_bodies_usually_differ() {
    assert_ne!(
        build_entity_tag(b"hello", Strength::Strong),
        build_entity_tag(b"hellp", Strength::Strong)
    );
}

#[test]
fn derived_tags_carry_their_marker() {
    for body in [&b""[..], b"hello", b"\x00\xff", b"a much longer body, with punctuation"] {
        let weak = build_entity_tag(body, Strength::Weak);
        let strong = build_entity_tag(body, Strength::Strong);
        assert!(weak.starts_with("W/\""));
        assert!(weak.ends_with('"'));
        assert!(strong.starts_with('"'));
        assert!(!strong.starts_with("W/"));
        assert!(strong.ends_with('"'));
        assert_eq!(weak, format!("W/{}", strong));
        assert!(is_weak(&weak));
        assert!(!is_weak(&strong));
    }
}

#[test]
fn derived_tag_is_the_checksum_in_hex() {
    for body in [&b""[..], b"hello", b"hello world", b"1234567890"] {
        let digest = crc32fast::hash(body);
        assert_eq!(build_entity_tag(body, Strength::Strong), format!("\"{:x}\"", digest));
        assert_eq!(build_entity_tag(body, Strength::Weak), format!("W/\"{:x}\"", digest));
        assert_eq!(
            build_entity_tag(body, Strength::Strong),
            render_entity_tag(digest, Strength::Strong)
        );
    }
}

#[test]
fn render_writes_the_digest_between_quotes() {
    assert_eq!(render_entity_tag(0, Strength::Strong), "\"0\"");
    assert_eq!(render_entity_tag(0x3610a686, Strength::Strong), "\"3610a686\"");
    assert_eq!(render_entity_tag(0x3610a686, Strength::Weak), "W/\"3610a686\"");
    assert_eq!(render_entity_tag(0xdeadbeef, Strength::Strong), "\"deadbeef\"");
    assert_eq!(render_entity_tag(u32::MAX, Strength::Weak), "W/\"ffffffff\"");
    assert_eq!(render_entity_tag(0x0000_00ab, Strength::Strong), "\"ab\"");
}

#[test]
fn lower_hex_exact_values() {
    assert_eq!(to_lower_hex(0), "0");
    assert_eq!(to_lower_hex(9), "9");
    assert_eq!(to_lower_hex(10), "a");
    assert_eq!(to_lower_hex(15), "f");
    assert_eq!(to_lower_hex(16), "10");
    assert_eq!(to_lower_hex(255), "ff");
    assert_eq!(to_lower_hex(0x0d4a1185), "d4a1185");
    assert_eq!(to_lower_hex(0x1000_0000), "10000000");
    assert_eq!(to_lower_hex(u32::MAX), "ffffffff");
}

#[test]
fn lower_hex_agrees_with_std_formatting() {
    for n in 0u32..70000 {
        assert_eq!(to_lower_hex(n), format!("{:x}", n));
    }
    let mut n: u32 = 1;
    for _ in 0..32 {
        for m in [n.wrapping_sub(1), n, n.wrapping_add(1), n.wrapping_mul(0x9e37_79b9)] {
            assert_eq!(to_lower_hex(m), format!("{:x}", m));
        }
        n = n.wrapping_mul(2);
    }
}

#[test]
fn is_weak_looks_at_the_marker_only() {
    assert!(is_weak("W/\"abc\""));
    assert!(is_weak("W/"));
    assert!(is_weak("W/W/\"abc\""));
    assert!(!is_weak("\"abc\""));
    assert!(!is_weak(""));
    assert!(!is_weak("W"));
    assert!(!is_weak("w/\"abc\""));
    assert!(!is_weak(" W/\"abc\""));
    assert!(!is_weak("\"W/abc\""));
}

#[test]
fn strip_weak_prefix_removes_one_marker() {
    assert_eq!(strip_weak_prefix("W/\"abc\""), "\"abc\"");
    assert_eq!(strip_weak_prefix("\"abc\""), "\"abc\"");
    assert_eq!(strip_weak_prefix("W/"), "");
    assert_eq!(strip_weak_prefix(""), "");
    assert_eq!(strip_weak_prefix("W/W/\"abc\""), "W/\"abc\"");
    assert_eq!(strip_weak_prefix("w/\"abc\""), "w/\"abc\"");
    assert_eq!(strip_weak_prefix("W/\"é\""), "\"é\"");
}

#[test]
fn strong_compare_needs_two_strong_equal_tags() {
    assert!(strong_compare("\"abc\"", "\"abc\""));
    assert!(!strong_compare("\"abc\"", "\"abd\""));
    assert!(!strong_compare("\"abc\"", "\"ABC\""));
    assert!(!strong_compare("W/\"abc\"", "\"abc\""));
    assert!(!strong_compare("\"abc\"", "W/\"abc\""));
    assert!(!strong_compare("W/\"abc\"", "W/\"abc\""));
    assert!(strong_compare("", ""));
    assert!(strong_compare("malformed", "malformed"));
}

#[test]
fn strong_compare_rejects_weak_form_of_any_token() {
    for token in ["", "abc", "3610a686", "with space", "W/", "é"] {
        let strong = format!("\"{}\"", token);
        let weak = format!("W/\"{}\"", token);
        assert!(!strong_compare(&weak, &strong));
        assert!(!strong_compare(&strong, &weak));
        assert!(!strong_compare(&weak, &weak));
        assert!(strong_compare(&strong, &strong));
    }
}

#[test]
fn weak_compare_ignores_markers() {
    assert!(weak_compare("W/\"abc\"", "\"abc\""));
    assert!(weak_compare("\"abc\"", "W/\"abc\""));
    assert!(weak_compare("W/\"abc\"", "W/\"abc\""));
    assert!(weak_compare("\"abc\"", "\"abc\""));
    assert!(!weak_compare("W/\"abc\"", "\"abd\""));
    assert!(!weak_compare("\"abc\"", "\"ABC\""));
    assert!(!weak_compare("W/W/\"abc\"", "\"abc\""));
    assert!(weak_compare("W/", ""));
}

#[test]
fn weak_compare_is_symmetric() {
    let tags = [
        "", "W/", "\"a\"", "W/\"a\"", "\"b\"", "W/\"b\"", "W/W/\"a\"", "a", "W/a", "\"A\"", "*",
    ];
    for a in tags {
        for b in tags {
            assert_eq!(weak_compare(a, b), weak_compare(b, a), "{:?} {:?}", a, b);
            if strong_compare(a, b) {
                assert!(weak_compare(a, b));
            }
        }
    }
}
