use jj_watch::text::{StyledLine, StyledSpan, StyledText, TextStyle};
use ratatui::style::Color;

fn red(content: &str) -> StyledSpan {
    StyledSpan {
        content: content.to_string(),
        style: TextStyle { fg: Some(Color::Red), ..TextStyle::plain() },
    }
}

#[test]
fn the_plain_style_sets_nothing() {
    let style = TextStyle::plain();
    assert_eq!(style.fg, None);
    assert_eq!(style.bg, None);
    assert_eq!(style.underline_color, None);
    assert_eq!(style.add_modifier, 0);
    assert_eq!(style.sub_modifier, 0);
}

#[test]
fn a_raw_span_is_plain() {
    let span = StyledSpan::raw("text");
    assert_eq!(span.content, "text");
    assert_eq!(span.style, TextStyle::plain());
}

#[test]
fn a_raw_line_has_one_span_unless_empty() {
    assert_eq!(StyledLine::raw("text").spans, vec![StyledSpan::raw("text")]);
    assert_eq!(StyledLine::raw("").spans.len(), 0);
}

#[test]
fn plain_text_joins_the_spans() {
    let line = StyledLine { spans: vec![red("ab"), StyledSpan::raw(""), StyledSpan::raw("cd")] };
    assert_eq!(line.plain_text(), "abcd");
    assert_eq!(StyledLine { spans: Vec::new() }.plain_text(), "");
}

#[test]
fn a_copy_of_a_text_equals_it() {
    let text = StyledText {
        lines: vec![
            StyledLine { spans: vec![red("ab"), StyledSpan::raw("cd")] },
            StyledLine { spans: Vec::new() },
            StyledLine::raw("ef"),
        ],
    };
    assert_eq!(text.clone(), text);
    assert_eq!(text.lines[0].clone(), text.lines[0]);
    assert_eq!(red("x").clone(), red("x"));
}

#[test]
fn a_window_holds_the_lines_asked_for() {
    let text = StyledText {
        lines: vec![StyledLine::raw("a"), StyledLine::raw("b"), StyledLine::raw("c")],
    };
    assert_eq!(text.window(1, 3).lines, vec![StyledLine::raw("b"), StyledLine::raw("c")]);
    assert_eq!(text.window(0, 1).lines, vec![StyledLine::raw("a")]);
    assert_eq!(text.window(2, 2).line_count(), 0);
    assert_eq!(text.window(0, 3), text);
}

#[test]
fn the_empty_text_has_no_line() {
    assert_eq!(StyledText::empty().line_count(), 0);
}

#[test]
fn unstyled_lines_joined_are_the_text_again() {
    for text in ["", "a", "a\nb", "a\n", "\n", "\n\n", "a\n\nb\n", "x\ny\nz", "\u{e9}\n\u{fc}\n"] {
        let lines: Vec<String> =
            StyledText::unstyled(text).lines.iter().map(|line| line.plain_text()).collect();
        let expected = text.strip_suffix('\n').unwrap_or(text);
        assert_eq!(lines.join("\n"), expected);
    }
}
