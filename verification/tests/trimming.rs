use tess::trimming::trim_whitespace;

#[test]
fn trims_surrounding_whitespace() {
    assert_eq!(trim_whitespace("  7654321 \n"), "7654321");
}

#[test]
fn trims_line_terminator_alone() {
    assert_eq!(trim_whitespace("1234\n"), "1234");
    assert_eq!(trim_whitespace("1234\r\n"), "1234");
}

#[test]
fn trims_tabs() {
    assert_eq!(trim_whitespace("\t42\t"), "42");
}

#[test]
fn leaves_a_clean_line_alone() {
    assert_eq!(trim_whitespace("1234"), "1234");
}

#[test]
fn keeps_inner_whitespace() {
    assert_eq!(trim_whitespace(" 12 34 "), "12 34");
}

#[test]
fn whitespace_only_becomes_empty() {
    assert_eq!(trim_whitespace(" \t\r\n"), "");
    assert_eq!(trim_whitespace(""), "");
}

#[test]
fn trims_unicode_whitespace() {
    assert_eq!(trim_whitespace("\u{00A0}7"), "7");
    assert_eq!(trim_whitespace("\u{2003}42\u{3000}"), "42");
    assert_eq!(trim_whitespace("\u{0085}\u{2028}pin\u{202F}"), "pin");
}

#[test]
fn trims_the_rest_of_ascii_whitespace() {
    assert_eq!(trim_whitespace("\u{000B}9\u{000C}"), "9");
}

#[test]
fn trims_exactly_as_str_trim_does() {
    let lines = ["  7654321 \n", "\u{00A0}7", "\u{1680}x\u{200A}", "a\u{00A0}b", "", " \u{2029} "];
    for line in lines {
        assert_eq!(trim_whitespace(line), line.trim());
    }
}

#[test]
fn trimming_twice_changes_nothing() {
    let once = trim_whitespace("  pin  ");
    let twice = trim_whitespace(once.as_str());
    assert_eq!(once, twice);
}
