use texttable::Alignment;
use texttable::width;

#[test]
fn escape_sequences_are_invisible_to_width() {
    assert_eq!(width("\x1b[31mAB\x1b[0m"), width("AB"));
    assert_eq!(width("AB"), 2);
}

#[test]
fn width_of_empty_text_is_zero() {
    assert_eq!(width(""), 0);
}

#[test]
fn wide_and_combining_characters_measure_visually() {
    assert_eq!(width("你好"), 4);
    assert_eq!(width("e\u{301}"), 1);
}

#[test]
fn format_left_pads_after_text() {
    assert_eq!(texttable::render::format("hi", 0, Alignment::Left), "hi      ");
}

#[test]
fn format_right_pads_before_text() {
    assert_eq!(texttable::render::format("hi", 10, Alignment::Right), "        hi");
}

#[test]
fn format_center_puts_smaller_half_first() {
    // Target 11, text width 2: nine spaces split four before, five after.
    assert_eq!(texttable::render::format("hi", 11, Alignment::Center), "    hi     ");
}

#[test]
fn format_leaves_wide_text_unpadded() {
    assert_eq!(texttable::render::format("abcdefghij", 3, Alignment::Left), "abcdefghij");
}

#[test]
fn format_measures_colored_text_without_escapes() {
    assert_eq!(
        texttable::render::format("\x1b[31mAB\x1b[0m", 0, Alignment::Left),
        "\x1b[31mAB\x1b[0m      "
    );
}

#[test]
fn format_floors_target_at_eight() {
    assert_eq!(texttable::render::format("abc", 5, Alignment::Left), "abc     ");
    assert_eq!(texttable::render::format("abc", 8, Alignment::Left), "abc     ");
    assert_eq!(texttable::render::format("abc", 9, Alignment::Left), "abc      ");
}
