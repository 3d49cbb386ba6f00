use syosetu_epub::text::{break_lines, zero_padded};

#[test]
fn break_lines_replaces_one_tag() {
    assert_eq!(break_lines("a<br>b"), "a\nb");
}

#[test]
fn break_lines_replaces_every_tag() {
    assert_eq!(break_lines("<br>one<br><br>two<br>"), "\none\n\ntwo\n");
}

#[test]
fn break_lines_keeps_text_without_tags() {
    assert_eq!(break_lines(""), "");
    assert_eq!(break_lines("plain text"), "plain text");
    assert_eq!(break_lines("<p>x</p>"), "<p>x</p>");
}

#[test]
fn break_lines_keeps_unfinished_tags() {
    assert_eq!(break_lines("<"), "<");
    assert_eq!(break_lines("<b"), "<b");
    assert_eq!(break_lines("<br"), "<br");
    assert_eq!(break_lines("x<br"), "x<br");
    assert_eq!(break_lines("<bbr>"), "<bbr>");
    assert_eq!(break_lines("<b>r>"), "<b>r>");
    assert_eq!(break_lines("<br/>"), "<br/>");
    assert_eq!(break_lines("<BR>"), "<BR>");
}

#[test]
fn break_lines_restarts_at_an_opening_bracket() {
    assert_eq!(break_lines("<<br>"), "<\n");
    assert_eq!(break_lines("<b<br>"), "<b\n");
    assert_eq!(break_lines("<br<br>"), "<br\n");
    assert_eq!(break_lines("<<<"), "<<<");
}

#[test]
fn break_lines_leaves_other_characters_alone() {
    assert_eq!(break_lines("一行目<br>二行目"), "一行目\n二行目");
    assert_eq!(break_lines("a\nb<br>"), "a\nb\n");
}

#[test]
fn break_lines_agrees_with_str_replace() {
    let samples = [
        "",
        "<br>",
        "<br><br><br>",
        "a<br>b<brr><br",
        "<<br>><b<br>r>",
        "text with < and > and br",
        "日本語<br>テキスト<b<br",
    ];
    for sample in samples {
        assert_eq!(break_lines(sample), sample.replace("<br>", "\n"));
    }
}

#[test]
fn zero_padded_fills_to_four_digits() {
    assert_eq!(zero_padded(0, 4), "0000");
    assert_eq!(zero_padded(7, 4), "0007");
    assert_eq!(zero_padded(10, 4), "0010");
    assert_eq!(zero_padded(123, 4), "0123");
    assert_eq!(zero_padded(9999, 4), "9999");
}

#[test]
fn zero_padded_never_cuts_a_numeral() {
    assert_eq!(zero_padded(10000, 4), "10000");
    assert_eq!(zero_padded(123456, 4), "123456");
    assert_eq!(zero_padded(usize::MAX, 4), usize::MAX.to_string());
}

#[test]
fn zero_padded_with_other_widths() {
    assert_eq!(zero_padded(5, 0), "5");
    assert_eq!(zero_padded(5, 1), "5");
    assert_eq!(zero_padded(5, 2), "05");
    assert_eq!(zero_padded(0, 0), "0");
    assert_eq!(zero_padded(42, 6), "000042");
}

#[test]
fn zero_padded_agrees_with_format() {
    for n in [0usize, 1, 9, 10, 99, 100, 999, 1000, 9999, 10000, 65535] {
        assert_eq!(zero_padded(n, 4), format!("{:04}", n));
    }
}
