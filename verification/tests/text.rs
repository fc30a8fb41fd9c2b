use chat_relay::text::format_broadcast_line;
use chat_relay::text::format_chat_text;
use chat_relay::text::trim;

#[test]
fn broadcast_line_has_name_separator_message_and_newline() {
    assert_eq!(format_broadcast_line("alice", "hi"), "alice: hi\n");
}

#[test]
fn broadcast_line_of_empty_parts_is_the_separator_and_newline() {
    assert_eq!(format_broadcast_line("", ""), ": \n");
}

#[test]
fn broadcast_line_keeps_the_message_as_it_is() {
    assert_eq!(format_broadcast_line("bob", "  a: b  "), "bob:   a: b  \n");
}

#[test]
fn chat_text_has_no_line_end() {
    assert_eq!(format_chat_text("alice", "hi"), "alice: hi");
}

#[test]
fn trim_drops_blanks_on_both_sides() {
    assert_eq!(trim("  hi \n"), "hi");
}

#[test]
fn trim_keeps_blanks_inside() {
    assert_eq!(trim("\thello  world\r\n"), "hello  world");
}

#[test]
fn trim_of_blanks_is_empty() {
    assert_eq!(trim(" \t\r\n "), "");
}

#[test]
fn trim_of_nothing_is_empty() {
    assert_eq!(trim(""), "");
}

#[test]
fn trim_leaves_a_trimmed_text_alone() {
    assert_eq!(trim("q"), "q");
}

#[test]
fn trim_knows_white_space_beyond_ascii() {
    assert_eq!(trim("\u{3000}\u{a0}gr\u{fc}n\u{2003}\u{85}"), "gr\u{fc}n");
}

#[test]
fn trim_agrees_with_the_standard_library() {
    let samples = [
        "",
        " ",
        "a",
        " a",
        "a ",
        " a b ",
        "\n\n",
        "\u{feff}x",
        "\u{200b}x\u{200b}",
        "  \u{1f600} ",
        "\u{1680}y\u{2028}\u{2029}",
    ];
    for sample in samples {
        assert_eq!(trim(sample), sample.trim());
    }
}
