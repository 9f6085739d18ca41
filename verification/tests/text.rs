use sol_slot_leader::text::{
    ascii_lower, chars_of, contains_ignore_ascii_case, eq_ignore_ascii_case_at, trim_bounds,
    white_space,
};

#[test]
fn chars_of_keeps_order() {
    assert_eq!(chars_of("aé中"), vec!['a', 'é', '中']);
    assert!(chars_of("").is_empty());
}

#[test]
fn lower_only_ascii_letters() {
    assert_eq!(ascii_lower('A'), 'a');
    assert_eq!(ascii_lower('Z'), 'z');
    assert_eq!(ascii_lower('a'), 'a');
    assert_eq!(ascii_lower('@'), '@');
    assert_eq!(ascii_lower('['), '[');
    assert_eq!(ascii_lower('É'), 'É');
}

#[test]
fn white_space_matches_std() {
    for c in ['\t', '\n', '\u{b}', '\u{c}', '\r', ' ', '\u{85}', '\u{a0}', '\u{1680}', '\u{2000}', '\u{200a}', '\u{2028}', '\u{2029}', '\u{202f}', '\u{205f}', '\u{3000}', 'a', '\u{200b}', '\u{feff}', '_'] {
        assert_eq!(white_space(c), c.is_whitespace(), "{:?}", c);
    }
}

#[test]
fn trim_bounds_match_str_trim() {
    for s in ["", "   ", "  a b  ", "x", "\u{3000}中\u{a0}", "\n\tz"] {
        let v = chars_of(s);
        let (lo, hi) = trim_bounds(&v);
        let got: String = v[lo..hi].iter().collect();
        assert_eq!(got, s.trim(), "{:?}", s);
    }
}

#[test]
fn eq_ignore_case_at() {
    let v = chars_of("  AgAvE ");
    assert!(eq_ignore_ascii_case_at(&v, 2, 7, "agave"));
    assert!(!eq_ignore_ascii_case_at(&v, 2, 6, "agave"));
    assert!(!eq_ignore_ascii_case_at(&v, 2, 7, "agava"));
}

#[test]
fn contains_ignoring_case() {
    assert!(contains_ignore_ascii_case("Harmonic-SG", "harmonic"));
    assert!(contains_ignore_ascii_case("xHARMONIC", "harmonic"));
    assert!(contains_ignore_ascii_case("abc", ""));
    assert!(!contains_ignore_ascii_case("harmoni", "harmonic"));
    assert!(!contains_ignore_ascii_case("", "h"));
}
