use splice_alt::sanitize::sanitize_filename;

#[test]
fn replaces_separators_with_hyphen() {
    assert_eq!(sanitize_filename("My Pack/2024"), "My Pack-2024");
    assert_eq!(sanitize_filename("a\\b"), "a-b");
    assert_eq!(sanitize_filename("a:b"), "a-b");
    assert_eq!(sanitize_filename("<a>|b"), "-a--b");
}

#[test]
fn drops_star_question_and_nul() {
    assert_eq!(sanitize_filename("a*b?c"), "abc");
    assert_eq!(sanitize_filename("a\0b"), "ab");
    assert_eq!(sanitize_filename("*?"), "");
}

#[test]
fn quote_becomes_apostrophe() {
    assert_eq!(sanitize_filename("\"quoted\""), "'quoted'");
}

#[test]
fn control_characters_become_underscore() {
    assert_eq!(sanitize_filename("a\u{1}b\u{7f}c"), "a_b_c");
}

#[test]
fn trims_surrounding_whitespace() {
    assert_eq!(sanitize_filename("  pack name  "), "pack name");
    // rewriting runs before trimming: a tab is a control character and
    // becomes an underscore, which trimming then keeps
    assert_eq!(sanitize_filename("\t x \n"), "_ x _");
    // non-ASCII whitespace is trimmed like ASCII spaces
    assert_eq!(sanitize_filename("\u{a0}x\u{3000}"), "x");
    assert_eq!(sanitize_filename("   "), "");
    assert_eq!(sanitize_filename(""), "");
}

#[test]
fn sanitize_is_idempotent_on_samples() {
    let samples = [
        "My Pack/2024",
        "  a*b?c  ",
        "\"q\" <x>|y:z\\w",
        "plain name",
        "\u{1}\u{2}\u{3}",
        "*?",
        "  ",
        "trailing space after star * ",
    ];
    for s in samples {
        let once = sanitize_filename(s);
        let twice = sanitize_filename(&once);
        assert_eq!(twice, once);
    }
}

#[test]
fn sanitized_output_has_no_unsafe_characters() {
    let samples = ["My Pack/2024", "a*b?c\"<>|:\\", "\u{0}\u{1f}\u{7f}", "x/y/z"];
    for s in samples {
        let out = sanitize_filename(s);
        for c in out.chars() {
            assert!(!"/\\:*?\"<>|".contains(c), "unsafe char {:?} in {:?}", c, out);
            assert!(!c.is_control(), "control char in {:?}", out);
        }
    }
}
