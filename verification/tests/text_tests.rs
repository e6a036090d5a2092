use mcp_server::text::{dec_u64, lex_le};

#[test]
fn decimal_zero() {
    assert_eq!(dec_u64(0), "0");
}

#[test]
fn decimal_single_digit() {
    assert_eq!(dec_u64(7), "7");
}

#[test]
fn decimal_round_number() {
    assert_eq!(dec_u64(1000), "1000");
}

#[test]
fn decimal_large() {
    assert_eq!(dec_u64(1234567890), "1234567890");
}

#[test]
fn decimal_max() {
    assert_eq!(dec_u64(u64::MAX), "18446744073709551615");
}

#[test]
fn lex_order_basics() {
    assert!(lex_le("a", "b"));
    assert!(!lex_le("b", "a"));
    assert!(lex_le("a", "a"));
    assert!(lex_le("", "a"));
    assert!(!lex_le("a", ""));
    assert!(lex_le("ab", "b"));
    assert!(lex_le("a", "ab"));
    assert!(!lex_le("ab", "a"));
}

#[test]
fn lex_order_matches_std() {
    let pairs = [
        ("[DIR] b", "[FILE] a"),
        ("alpha", "beta"),
        ("x1", "x10"),
        ("A", "a"),
    ];
    for (a, b) in pairs {
        assert_eq!(lex_le(a, b), a <= b);
        assert_eq!(lex_le(b, a), b <= a);
    }
}

#[test]
fn sort_entries_orders_by_name() {
    let mut v = Vec::new();
    for (name, is_dir) in [("pear", false), ("apple", true), ("orange", false), ("apple", false)] {
        v.push(mcp_server::args::DirEntry { name: String::from(name), is_dir });
    }
    let sorted = mcp_server::handlers::sort_entries(v);
    let names: Vec<&str> = sorted.iter().map(|e| e.name.as_str()).collect();
    assert_eq!(names, vec!["apple", "apple", "orange", "pear"]);
}

#[test]
fn sort_entries_empty() {
    let v: Vec<mcp_server::args::DirEntry> = Vec::new();
    assert!(mcp_server::handlers::sort_entries(v).is_empty());
}
