use umobile_exporter::text::{
    clean, contains, parse_count, parse_decimal, remove_all, split_used, trim, used_amount,
    used_count, NormalizeError,
};

fn cv(s: &str) -> Vec<char> {
    s.chars().collect()
}

fn sv(v: &[char]) -> String {
    v.iter().collect()
}

#[test]
fn remove_all_strips_every_occurrence() {
    let r = remove_all(&cv("aGBbGBc"), &cv("GB"));
    assert_eq!(sv(&r), "abc");
}

#[test]
fn remove_all_left_to_right_non_overlapping() {
    let r = remove_all(&cv("aaa"), &cv("aa"));
    assert_eq!(sv(&r), "a");
    let r = remove_all(&cv("abab"), &cv("ab"));
    assert_eq!(sv(&r), "");
}

#[test]
fn remove_all_absent_pattern_is_identity() {
    let r = remove_all(&cv("3.5/10"), &cv("GB"));
    assert_eq!(sv(&r), "3.5/10");
}

#[test]
fn trim_strips_both_ends() {
    assert_eq!(sv(&trim(&cv("  10 \n\t"))), "10");
    assert_eq!(sv(&trim(&cv(""))), "");
    assert_eq!(sv(&trim(&cv("   "))), "");
    assert_eq!(sv(&trim(&cv("a b"))), "a b");
}

#[test]
fn split_used_keeps_second_component() {
    let r = split_used(&cv("3.5/10 ")).unwrap();
    assert_eq!(sv(&r), "10 ");
    let r = split_used(&cv("a/b/c")).unwrap();
    assert_eq!(sv(&r), "b/c");
    assert!(split_used(&cv("no marker")).is_none());
    assert!(split_used(&cv("")).is_none());
}

#[test]
fn parse_count_reads_signed_integers() {
    assert_eq!(parse_count(&cv("12345")), Some(12345));
    assert_eq!(parse_count(&cv("0")), Some(0));
    assert_eq!(parse_count(&cv("-5")), Some(-5));
    assert_eq!(parse_count(&cv("+7")), Some(7));
}

#[test]
fn parse_count_rejects_malformed_text() {
    assert_eq!(parse_count(&cv("")), None);
    assert_eq!(parse_count(&cv("-")), None);
    assert_eq!(parse_count(&cv("12a")), None);
    assert_eq!(parse_count(&cv("1 2")), None);
    assert_eq!(parse_count(&cv("1.5")), None);
}

#[test]
fn parse_count_handles_machine_bounds() {
    assert_eq!(
        parse_count(&cv("9223372036854775807")),
        Some(9223372036854775807isize)
    );
    assert_eq!(parse_count(&cv("9223372036854775808")), None);
    assert_eq!(
        parse_count(&cv("-9223372036854775808")),
        Some(isize::MIN)
    );
    assert_eq!(parse_count(&cv("-9223372036854775809")), None);
    assert_eq!(parse_count(&cv("99999999999999999999999999999999999999999")), None);
}

#[test]
fn parse_decimal_reads_whole_and_fraction() {
    let d = parse_decimal(&cv("3.5")).unwrap();
    assert_eq!(d.whole, 3);
    assert_eq!(d.frac, vec![5u8]);

    let d = parse_decimal(&cv("10")).unwrap();
    assert_eq!(d.whole, 10);
    assert!(d.frac.is_empty());
}

#[test]
fn parse_decimal_canonicalizes() {
    let d = parse_decimal(&cv("3.50")).unwrap();
    assert_eq!(d.whole, 3);
    assert_eq!(d.frac, vec![5u8]);

    let d = parse_decimal(&cv(".5")).unwrap();
    assert_eq!(d.whole, 0);
    assert_eq!(d.frac, vec![5u8]);

    let d = parse_decimal(&cv("5.")).unwrap();
    assert_eq!(d.whole, 5);
    assert!(d.frac.is_empty());
}

#[test]
fn parse_decimal_rejects_malformed_text() {
    assert!(parse_decimal(&cv("")).is_none());
    assert!(parse_decimal(&cv(".")).is_none());
    assert!(parse_decimal(&cv("1.2.3")).is_none());
    assert!(parse_decimal(&cv("-3.5")).is_none());
    assert!(parse_decimal(&cv("3a.5")).is_none());
    assert!(parse_decimal(&cv("18446744073709551616")).is_none());
}

#[test]
fn clean_removes_each_pattern_in_order() {
    let pats = vec![cv("\u{b0a8}\u{c74c}"), cv("\u{c0ac}\u{c6a9}"), cv("GB")];
    let r = clean(&cv("3.5GB/10GB \u{c0ac}\u{c6a9}"), &pats);
    assert_eq!(sv(&r), "3.5/10 ");
}

#[test]
fn contains_finds_substrings() {
    assert!(contains(&cv("abc \u{b370}\u{c774}\u{d130} xyz"), &cv("\u{b370}\u{c774}\u{d130}")));
    assert!(!contains(&cv("abc"), &cv("abcd")));
    assert!(contains(&cv("abc"), &cv("")));
}

#[test]
fn used_count_splits_then_parses() {
    assert_eq!(used_count(&cv("100/250 ")), Ok(250));
    assert_eq!(used_count(&cv("no marker")), Err(NormalizeError::FormatError));
    assert_eq!(used_count(&cv("1/x")), Err(NormalizeError::ParseError));
}

#[test]
fn used_amount_splits_then_parses() {
    let d = used_amount(&cv("3.5/10 ")).unwrap();
    assert_eq!(d.whole, 10);
    assert!(d.frac.is_empty());
    assert!(matches!(used_amount(&cv("3.5 GB")), Err(NormalizeError::FormatError)));
    assert!(matches!(used_amount(&cv("3.5/x")), Err(NormalizeError::ParseError)));
}
