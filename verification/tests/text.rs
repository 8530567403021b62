use helper_install::text::{copy_texts, join, prefixed, split_lines};

fn owned(parts: &[&str]) -> Vec<String> {
    parts.iter().map(|part| part.to_string()).collect()
}

fn std_lines(text: &str) -> Vec<String> {
    text.lines().map(|line| line.to_string()).collect()
}

#[test]
fn join_of_nothing_is_empty() {
    assert_eq!(join(&owned(&[]), ", "), "");
}

#[test]
fn join_of_one_part_has_no_separator() {
    assert_eq!(join(&owned(&["alone"]), ", "), "alone");
}

#[test]
fn join_puts_separator_between_neighbours() {
    assert_eq!(join(&owned(&["a", "b", "c"]), ", "), "a, b, c");
    assert_eq!(join(&owned(&["bootout", "system", "/x.plist"]), " "), "bootout system /x.plist");
}

#[test]
fn join_keeps_empty_parts() {
    assert_eq!(join(&owned(&["", "b", ""]), "-"), "-b-");
}

#[test]
fn prefixed_glues_prefix_and_text() {
    assert_eq!(prefixed("system/", "io.example.helper"), "system/io.example.helper");
    assert_eq!(prefixed("", "x"), "x");
    assert_eq!(prefixed("x", ""), "x");
}

#[test]
fn copy_texts_copies_in_order() {
    let parts = owned(&["stop", "io.example.helper", ""]);
    assert_eq!(copy_texts(&parts), parts);
    assert_eq!(copy_texts(&owned(&[])), owned(&[]));
}

#[test]
fn split_lines_of_empty_text_is_empty() {
    assert_eq!(split_lines(""), owned(&[]));
}

#[test]
fn split_lines_without_line_feed_is_one_line() {
    assert_eq!(split_lines("only"), owned(&["only"]));
}

#[test]
fn split_lines_final_line_feed_opens_no_line() {
    assert_eq!(split_lines("a\n"), owned(&["a"]));
    assert_eq!(split_lines("a\nb\n"), owned(&["a", "b"]));
}

#[test]
fn split_lines_keeps_empty_lines() {
    assert_eq!(split_lines("\n"), owned(&[""]));
    assert_eq!(split_lines("\n\n"), owned(&["", ""]));
    assert_eq!(split_lines("a\n\nb"), owned(&["a", "", "b"]));
}

#[test]
fn split_lines_drops_carriage_return_before_line_feed() {
    assert_eq!(split_lines("a\r\nb\r\n"), owned(&["a", "b"]));
    assert_eq!(split_lines("\r\n"), owned(&[""]));
}

#[test]
fn split_lines_drops_only_one_carriage_return() {
    assert_eq!(split_lines("a\r\r\nb"), owned(&["a\r", "b"]));
}

#[test]
fn split_lines_keeps_carriage_return_inside_and_at_the_end() {
    assert_eq!(split_lines("a\rb\n"), owned(&["a\rb"]));
    assert_eq!(split_lines("a\nb\r"), owned(&["a", "b\r"]));
    assert_eq!(split_lines("\r"), owned(&["\r"]));
}

#[test]
fn split_lines_handles_text_beyond_ascii() {
    assert_eq!(split_lines("héllo\n│ wörld\r\n✓"), owned(&["héllo", "│ wörld", "✓"]));
}

#[test]
fn split_lines_agrees_with_std() {
    let samples = [
        "",
        "a",
        "a\n",
        "\n",
        "\r",
        "\r\n",
        "\n\r",
        "a\r\nb\r",
        "a\r\r\n\r\nb\n\n",
        "one\ntwo\r\nthree",
        "tab\tand space \n trailing \r\n",
        "\u{fffd}\n\u{fffd}",
    ];
    for sample in samples {
        assert_eq!(split_lines(sample), std_lines(sample), "on {:?}", sample);
    }
}
