use jj_watch::decode::{join_chunks, text_from_ansi_bytes, text_or_unstyled};
use jj_watch::text::{StyledLine, StyledSpan, StyledText, TextStyle};
use ratatui::style::Color;

fn plain_lines(text: &StyledText) -> Vec<String> {
    text.lines.iter().map(|line| line.plain_text()).collect()
}

#[test]
fn decode_keeps_line_breaks() {
    let text = text_from_ansi_bytes(b"a\nb\nc\n");
    assert_eq!(plain_lines(&text), vec!["a", "b", "c"]);
}

#[test]
fn decode_of_nothing_is_one_empty_line() {
    let text = text_from_ansi_bytes(b"");
    assert_eq!(text.line_count(), 1);
    assert_eq!(text.lines[0].spans.len(), 0);
}

#[test]
fn decode_round_trips_plain_text() {
    let source = "first line\nsecond \u{e9}t\u{e9}\n\nlast";
    let text = text_from_ansi_bytes(source.as_bytes());
    assert_eq!(plain_lines(&text).join("\n"), source);
    for line in &text.lines {
        for span in &line.spans {
            assert_eq!(span.style, TextStyle::plain());
        }
    }
}

#[test]
fn decode_drops_invalid_bytes() {
    let text = text_from_ansi_bytes(b"ab\xffcd\xe2\x82\nef\xc3");
    assert_eq!(plain_lines(&text), vec!["abcd", "ef"]);
}

#[test]
fn decode_reads_colours_and_attributes() {
    let text = text_from_ansi_bytes(b"\x1b[31mred\x1b[0m plain \x1b[1;38;5;7mbold\x1b[m");
    assert_eq!(text.line_count(), 1);
    let spans = &text.lines[0].spans;
    assert_eq!(spans.len(), 3);
    assert_eq!(spans[0].content, "red");
    assert_eq!(spans[0].style.fg, Some(Color::Red));
    assert_eq!(spans[1].content, " plain ");
    assert_eq!(spans[1].style.fg, Some(Color::Reset));
    assert_eq!(spans[2].content, "bold");
    assert_eq!(spans[2].style.fg, Some(Color::Indexed(7)));
    assert_eq!(spans[2].style.add_modifier & 1, 1);
}

#[test]
fn decode_ignores_unknown_sequences() {
    let text = text_from_ansi_bytes(b"one\x1b[2Ktwo\x1b]0;title\x07three");
    assert_eq!(plain_lines(&text), vec!["onetwothree"]);
}

#[test]
fn join_chunks_concatenates_in_order() {
    let chunks = vec![String::from("ab"), String::new(), String::from("c"), String::from("de")];
    assert_eq!(join_chunks(&chunks), "abcde");
    assert_eq!(join_chunks(&Vec::new()), "");
}

#[test]
fn a_parse_is_taken_as_it_is() {
    let parsed = StyledText {
        lines: vec![StyledLine { spans: vec![StyledSpan::raw("kept")] }],
    };
    let text = text_or_unstyled(Some(parsed.clone()), "ignored\ntext");
    assert_eq!(text, parsed);
}

#[test]
fn without_a_parse_the_text_is_shown_unstyled() {
    let text = text_or_unstyled(None, "a\n\nb\n");
    assert_eq!(plain_lines(&text), vec!["a", "", "b"]);
    assert_eq!(text.lines[0], StyledLine::raw("a"));
    assert_eq!(text.lines[1].spans.len(), 0);
}

#[test]
fn unstyled_splits_at_line_feeds() {
    assert_eq!(plain_lines(&StyledText::unstyled("")), vec![""]);
    assert_eq!(plain_lines(&StyledText::unstyled("\n")), vec![""]);
    assert_eq!(plain_lines(&StyledText::unstyled("a")), vec!["a"]);
    assert_eq!(plain_lines(&StyledText::unstyled("a\n")), vec!["a"]);
    assert_eq!(plain_lines(&StyledText::unstyled("a\nb")), vec!["a", "b"]);
    assert_eq!(plain_lines(&StyledText::unstyled("a\n\n")), vec!["a", ""]);
    assert_eq!(plain_lines(&StyledText::unstyled("\u{e9}\n\u{4e16}\u{754c}")), vec!["\u{e9}", "\u{4e16}\u{754c}"]);
}

#[test]
fn decode_returns_for_every_byte_sequence_tried() {
    for first in 0..=255u8 {
        let _ = text_from_ansi_bytes(&[first]);
        for second in [0u8, 0x0a, 0x0d, 0x1b, 0x5b, 0x6d, 0x80, 0xc3, 0xe2, 0xf0, 0xff] {
            let text = text_from_ansi_bytes(&[first, second, b'x', second, first]);
            assert!(text.line_count() >= 1);
        }
    }
    let mut state: u32 = 12345;
    let mut bytes = Vec::new();
    for _ in 0..4096 {
        state = state.wrapping_mul(1664525).wrapping_add(1013904223);
        bytes.push((state >> 24) as u8);
    }
    assert!(text_from_ansi_bytes(&bytes).line_count() >= 1);
}

#[test]
fn decode_keeps_carriage_return_line_breaks() {
    let text = text_from_ansi_bytes(b"a\r\nb\rc");
    assert_eq!(plain_lines(&text), vec!["a", "b", "c"]);
}

#[test]
fn a_style_lasts_until_it_is_reset() {
    let text = text_from_ansi_bytes(b"\x1b[32mgreen\nstill green\x1b[0m\n");
    assert_eq!(text.line_count(), 2);
    assert_eq!(text.lines[0].spans[0].style.fg, Some(Color::Green));
    assert_eq!(text.lines[1].spans[0].style.fg, Some(Color::Green));
    assert_eq!(text.lines[1].spans[0].content, "still green");
}

#[test]
fn text_without_escapes_decodes_to_its_unstyled_lines() {
    let alphabet = ['a', '\n', ' ', '\u{e9}', '\t', '[', 'm', '\u{0}', ';', '\u{4e16}'];
    let mut texts = vec![String::new()];
    let mut from = 0;
    for _ in 0..4 {
        let upto = texts.len();
        for index in from..upto {
            for letter in alphabet {
                let mut longer = texts[index].clone();
                longer.push(letter);
                texts.push(longer);
            }
        }
        from = upto;
    }
    assert_eq!(texts.len(), 11111);
    for text in &texts {
        assert_eq!(text_from_ansi_bytes(text.as_bytes()), StyledText::unstyled(text));
    }
    let long = "first\n\n  second line \u{e9}\u{e9}\n\tthird[0m;\n";
    assert_eq!(text_from_ansi_bytes(long.as_bytes()), StyledText::unstyled(long));
}

#[test]
fn plain_text_keeps_its_characters_in_order() {
    let source = "a\nbc\n\n d\t\u{e9}\n";
    let text = text_from_ansi_bytes(source.as_bytes());
    let mut characters = String::new();
    for line in &text.lines {
        for span in &line.spans {
            assert_eq!(span.style, TextStyle::plain());
            characters.push_str(&span.content);
        }
    }
    assert_eq!(characters, "abc d\t\u{e9}");
    assert_eq!(text.line_count(), 4);
}
