use lexkit::Location;
use lexkit::pattern::PatternError;
use lexkit::pattern::TokenPattern;
use lexkit::token::Eof;
use lexkit::token::TokenDef;
use lexkit::token::TokenType;

fn loc(position: usize) -> Location {
    Location { position }
}

fn exact(id: u64, name: &str, literal: &str) -> TokenType {
    TokenType::define(id, name, None, TokenPattern::Exact { literal: literal.to_string() })
        .unwrap()
}

fn regex(id: u64, name: &str, pattern: &str, group: usize) -> TokenType {
    TokenType::define(id, name, None, TokenPattern::Regex { pattern: pattern.to_string(), group })
        .unwrap()
}

#[test]
fn same_kind_handles_agree() {
    let a = TokenType::of::<Eof>().unwrap();
    let b = TokenType::of::<Eof>().unwrap();
    assert!(a == b);
    assert_eq!(a.token_id(), b.token_id());
    assert!(!(a < b));
    assert!(!(b < a));
}

#[test]
fn distinct_kind_handles_differ() {
    let a = exact(1, "Let", "let");
    let b = exact(2, "Ident", "x");
    assert!(a != b);
    assert_ne!(a.token_id(), b.token_id());
    assert!((a < b) ^ (b < a));
}

#[test]
fn exact_literal_matches_at_exact_offset() {
    let t = exact(1, "Let", "let");
    let m = t.try_lex("let x = 1", loc(0)).unwrap();
    assert_eq!(m.range.start.position, 0);
    assert_eq!(m.range.end.position, 3);
    assert!(t.try_lex("let x = 1", loc(1)).is_none());
}

#[test]
fn exact_literal_near_the_end() {
    let t = exact(1, "Let", "let");
    assert!(t.try_lex("let x = 1", loc(8)).is_none());
    let m = t.try_lex("x let", loc(2)).unwrap();
    assert_eq!(m.range.start.position, 2);
    assert_eq!(m.range.end.position, 5);
}

#[test]
fn empty_literal_matches_with_empty_span() {
    let t = exact(9, "Nothing", "");
    let m = t.try_lex("ab", loc(1)).unwrap();
    assert_eq!(m.range.start.position, 1);
    assert_eq!(m.range.end.position, 1);
}

#[test]
fn regex_capture_group_extent() {
    let t = regex(3, "Px", r"(\d+)px", 1);
    let m = t.try_lex("12px", loc(0)).unwrap();
    assert_eq!(m.range.start.position, 0);
    assert_eq!(m.range.end.position, 2);
}

#[test]
fn regex_is_anchored_at_location() {
    let t = regex(3, "Num", r"\d+", 0);
    assert!(t.try_lex("a1", loc(0)).is_none());
    let m = t.try_lex("a1", loc(1)).unwrap();
    assert_eq!(m.range.start.position, 1);
    assert_eq!(m.range.end.position, 2);
}

#[test]
fn end_of_input_matches_only_at_end() {
    let t = TokenType::of::<Eof>().unwrap();
    let m = t.try_lex("abcde", loc(5)).unwrap();
    assert_eq!(m.range.start.position, 5);
    assert_eq!(m.range.end.position, 5);
    assert!(t.try_lex("abcde", loc(4)).is_none());
}

#[test]
fn eof_kind_static_interface() {
    assert_eq!(Eof::token_id(), 0);
    assert_eq!(Eof::name(), "end-of-file");
    assert_eq!(Eof::display_name(), "end-of-file");
    let r = Eof::try_lex("ab", loc(2)).unwrap();
    assert_eq!(r.start.position, 2);
    assert_eq!(r.end.position, 2);
    assert!(Eof::try_lex("ab", loc(1)).is_none());
}

#[test]
fn eof_print_defaults() {
    let r = Eof::try_lex("ab", loc(2)).unwrap();
    assert_eq!(Eof::print_debug("ab", r), "end-of-file(\"\")");
    assert_eq!(Eof::print_display("ab", r), "end-of-file(\"\")");
}

#[test]
fn debug_and_display_formatting() {
    let t = exact(1, "Let", "let");
    let m = t.try_lex("let", loc(0)).unwrap();
    assert_eq!(t.print_debug("let", m.range), "Let(\"let\")");
    assert_eq!(t.print_display("let", m.range), "let");
}

#[test]
fn regex_debug_formatting() {
    let t = regex(3, "Num", r"\d+", 0);
    let m = t.try_lex("42x", loc(0)).unwrap();
    assert_eq!(t.print_debug("42x", m.range), "<Num \"42\">");
    assert_eq!(t.print_display("42x", m.range), "<Num \"42\">");
}

#[test]
fn matching_is_idempotent() {
    let t = exact(1, "Let", "let");
    let m1 = t.try_lex("let x", loc(0)).unwrap();
    let m2 = t.try_lex("let x", loc(0)).unwrap();
    assert!(m1 == m2);
    let r = regex(3, "Num", r"\d+", 0);
    let a = r.try_lex("42x", loc(0)).unwrap();
    let b = r.try_lex("42x", loc(0)).unwrap();
    assert!(a == b);
    assert!(r.try_lex("x", loc(0)).is_none());
    assert!(r.try_lex("x", loc(0)).is_none());
}

#[test]
fn malformed_pattern_rejected_at_definition() {
    let e = TokenType::define(
        4,
        "Bad",
        None,
        TokenPattern::Regex { pattern: "(".to_string(), group: 0 },
    );
    assert!(matches!(e, Err(PatternError::Malformed)));
}

#[test]
fn missing_capture_group_rejected_at_definition() {
    let g = TokenType::define(
        5,
        "Px",
        None,
        TokenPattern::Regex { pattern: r"(\d+)px".to_string(), group: 5 },
    );
    assert!(matches!(g, Err(PatternError::GroupOutOfRange)));
}

#[test]
fn names_and_display_names() {
    let t = TokenType::define(
        7,
        "Let",
        Some("keyword let"),
        TokenPattern::Exact { literal: "let".to_string() },
    )
    .unwrap();
    assert_eq!(t.name(), "Let");
    assert_eq!(t.display_name(), "keyword let");
    let d = exact(8, "Do", "do");
    assert_eq!(d.display_name(), "Do");
    let e = TokenType::of::<Eof>().unwrap();
    assert_eq!(e.name(), "end-of-file");
    assert_eq!(e.display_name(), "end-of-file");
}

#[test]
fn matched_token_carries_its_kind() {
    let t = exact(1, "Let", "let");
    let m = t.try_lex("let", loc(0)).unwrap();
    assert!(m.token_type == t);
    assert_eq!(m.token_type.name(), "Let");
    let copy = m.clone();
    assert!(copy == m);
}

#[test]
fn multibyte_text_is_matched_by_bytes() {
    let t = exact(10, "Arrow", "\u{2192}");
    let m = t.try_lex("\u{2192}x", loc(0)).unwrap();
    assert_eq!(m.range.start.position, 0);
    assert_eq!(m.range.end.position, 3);
    assert!(t.try_lex("x\u{2192}", loc(0)).is_none());
    let n = regex(11, "Num", r"\d+", 0);
    assert!(n.try_lex("\u{2192}1", loc(1)).is_none());
    let inside = n.try_lex("\u{2192}1", loc(3)).unwrap();
    assert_eq!(inside.range.start.position, 3);
    assert_eq!(inside.range.end.position, 4);
}
