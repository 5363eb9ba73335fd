use proxy_checker::sanitizer::sanitize;

fn allowed(c: char) -> bool {
    c.is_ascii_alphanumeric() || c.is_whitespace() || ".,-_()".contains(c)
}

fn clean(s: &str) -> bool {
    s.chars().all(allowed) && s.trim() == s
}

#[test]
fn sanitize_strips_disallowed_characters() {
    assert_eq!(sanitize("Brazil!! #1 (São)"), "Brazil 1 (So)");
}

#[test]
fn sanitize_result_is_clean() {
    let out = sanitize("Brazil!! #1 (São)");
    assert!(out.chars().all(allowed));
    assert!(!out.starts_with(char::is_whitespace));
    assert!(!out.ends_with(char::is_whitespace));
}

#[test]
fn sanitize_is_idempotent() {
    let samples = [
        "",
        " ",
        "Brazil!! #1 (São)",
        "  United States \t\n",
        "!!a!!",
        "! a !",
        "\u{a0}x\u{3000}",
        "N/A",
        "a\nb",
        "Cloudflare, Inc.",
        "<script>alert(1)</script>",
        "\t#\t",
    ];
    for s in samples {
        let once = sanitize(s);
        assert_eq!(sanitize(&once), once, "input {:?}", s);
        assert!(clean(&once), "input {:?}", s);
    }
}

#[test]
fn sanitize_trims_both_ends() {
    assert_eq!(sanitize("  United States \t\n"), "United States");
}

#[test]
fn sanitize_trims_after_removing() {
    assert_eq!(sanitize("! a !"), "a");
    assert_eq!(sanitize("#  Telekom  #"), "Telekom");
}

#[test]
fn sanitize_keeps_the_allowed_punctuation() {
    assert_eq!(sanitize("AS-1 (Net_Co., Ltd.)"), "AS-1 (Net_Co., Ltd.)");
}

#[test]
fn sanitize_keeps_letters_and_digits() {
    assert_eq!(
        sanitize("abcxyzABCXYZ0123456789"),
        "abcxyzABCXYZ0123456789"
    );
}

#[test]
fn sanitize_removes_other_punctuation() {
    assert_eq!(sanitize("a/b\\c|d:e;f'g\"h<i>j?k!l@m#n$o%p^q&r*s+t=u[v]w{x}y~z`"), "abcdefghijklmnopqrstuvwxyz");
}

#[test]
fn sanitize_removes_control_characters() {
    assert_eq!(sanitize("a\u{0}b\u{1b}c\u{7f}d"), "abcd");
}

#[test]
fn sanitize_removes_letters_beyond_ascii() {
    assert_eq!(sanitize("Côte d'Ivoire"), "Cte dIvoire");
    assert_eq!(sanitize("日本"), "");
    assert_eq!(sanitize("Ünïcödé"), "ncd");
}

#[test]
fn sanitize_keeps_inner_whitespace() {
    assert_eq!(sanitize("a \t b"), "a \t b");
    assert_eq!(sanitize("a\nb"), "a\nb");
    assert_eq!(sanitize("a\u{a0}b"), "a\u{a0}b");
}

#[test]
fn sanitize_trims_unicode_whitespace() {
    assert_eq!(sanitize("\u{a0}x\u{3000}"), "x");
    assert_eq!(sanitize("\u{2003}\u{85}y z\u{2028}\u{1680}"), "y z");
}

#[test]
fn sanitize_of_empty_and_blank() {
    assert_eq!(sanitize(""), "");
    assert_eq!(sanitize("   "), "");
    assert_eq!(sanitize("!!!"), "");
    assert_eq!(sanitize(" ! "), "");
}

#[test]
fn sanitize_of_the_placeholder() {
    assert_eq!(sanitize("N/A"), "NA");
}

#[test]
fn sanitize_leaves_a_clean_string_alone() {
    assert_eq!(sanitize("Deutsche Telekom AG"), "Deutsche Telekom AG");
}
