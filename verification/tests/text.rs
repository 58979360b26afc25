use wintrap::text::{cut_message, from_wide, is_whitespace, to_wide};

fn chars_of(text: &str) -> Vec<char> {
    text.chars().collect()
}

#[test]
fn wide_string_of_plain_text_is_its_letters_and_a_zero() {
    assert_eq!(to_wide("RUST"), vec![0x52, 0x55, 0x53, 0x54, 0]);
}

#[test]
fn wide_string_of_no_text_is_the_zero_alone() {
    assert_eq!(to_wide(""), vec![0]);
}

#[test]
fn wide_string_holds_a_surrogate_pair_for_a_character_beyond_the_basic_plane() {
    assert_eq!(to_wide("a\u{1F600}"), vec![0x61, 0xD83D, 0xDE00, 0]);
    assert_eq!(to_wide("\u{10000}"), vec![0xD800, 0xDC00, 0]);
    assert_eq!(to_wide("\u{10FFFF}"), vec![0xDBFF, 0xDFFF, 0]);
}

#[test]
fn wide_string_keeps_the_last_character_of_the_basic_plane_in_one_unit() {
    assert_eq!(to_wide("\u{FFFF}\u{D7FF}\u{E000}"), vec![0xFFFF, 0xD7FF, 0xE000, 0]);
}

#[test]
fn wide_string_agrees_with_the_standard_encoder() {
    let text = "Grüße, 世界! \u{1F980} end";
    let mut expected: Vec<u16> = text.encode_utf16().collect();
    expected.push(0);
    assert_eq!(to_wide(text), expected);
}

#[test]
fn from_wide_reads_a_surrogate_pair_as_one_character() {
    assert_eq!(from_wide(&[0x61, 0xD83D, 0xDE00]), Some(vec!['a', '\u{1F600}']));
}

#[test]
fn from_wide_reads_no_units_as_no_text() {
    assert_eq!(from_wide(&[]), Some(vec![]));
}

#[test]
fn from_wide_refuses_a_lone_surrogate() {
    assert_eq!(from_wide(&[0x61, 0xD83D]), None);
    assert_eq!(from_wide(&[0xDE00, 0x61]), None);
    assert_eq!(from_wide(&[0xD83D, 0x61]), None);
    assert_eq!(from_wide(&[0xD83D, 0xD83D, 0xDE00]), None);
}

#[test]
fn from_wide_undoes_to_wide() {
    let text = "Grüße, 世界! \u{1F980}\u{10000}\u{10FFFF}\u{FFFF} end";
    let mut wide = to_wide(text);
    assert_eq!(wide.pop(), Some(0));
    assert_eq!(from_wide(&wide), Some(chars_of(text)));
}

#[test]
fn from_wide_agrees_with_the_standard_decoder() {
    let samples: [&[u16]; 5] = [
        &[0x48, 0x69],
        &[0xD800, 0xDC00, 0x21],
        &[0xDBFF, 0xDFFF],
        &[0xDC00],
        &[0x48, 0xDBFF],
    ];
    for units in samples {
        let expected = String::from_utf16(units).ok().map(|text| chars_of(&text));
        assert_eq!(from_wide(units), expected);
    }
}

#[test]
fn whitespace_is_what_the_standard_library_calls_whitespace() {
    let mut code: u32 = 0;
    while code <= 0x10FFFF {
        if let Some(c) = char::from_u32(code) {
            assert_eq!(is_whitespace(c), c.is_whitespace());
        }
        code += 1;
    }
}

#[test]
fn cut_message_strips_the_line_break_at_the_end() {
    assert_eq!(cut_message(&chars_of("Access is denied.\r\n")), "Access is denied.");
}

#[test]
fn cut_message_keeps_a_text_without_surrounding_space_whole() {
    assert_eq!(cut_message(&chars_of("The handle is invalid.")), "The handle is invalid.");
}

#[test]
fn cut_message_keeps_space_inside_the_text() {
    assert_eq!(cut_message(&chars_of("two  words \t\r\n")), "two  words");
}

#[test]
fn cut_message_of_nothing_but_space_is_empty() {
    assert_eq!(cut_message(&chars_of(" \r\n\t")), "");
    assert_eq!(cut_message(&chars_of("")), "");
}

#[test]
fn cut_message_counts_bytes_from_the_front_when_the_text_begins_with_space() {
    // Trimmed, the text is the two bytes of "ab": two bytes from the front are " a".
    assert_eq!(cut_message(&chars_of(" ab\r\n")), " a");
}

#[test]
fn cut_message_never_cuts_inside_a_character() {
    // Trimmed, the text is the two bytes of "é"; from the front, the space fits and "é" does not.
    assert_eq!(cut_message(&chars_of(" é")), " ");
    // Here the three bytes of " é" fit into the three bytes of "éa".
    assert_eq!(cut_message(&chars_of(" éa")), " é");
}

#[test]
fn cut_message_gives_what_truncating_to_the_trimmed_length_gives() {
    let samples = ["ok\r\n", "  lead", "trail  ", "\u{3000}wide space\u{2003}", "数据无效。\r\n", "x"];
    for sample in samples {
        let mut expected = String::from(sample);
        let length = expected.trim().len();
        if expected.is_char_boundary(length) {
            expected.truncate(length);
            assert_eq!(cut_message(&chars_of(sample)), expected);
        }
    }
}
