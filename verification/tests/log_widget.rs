use jj_watch::error::FatalError;
use jj_watch::layout::{Padding, Rect};
use jj_watch::log_widget::{compose, placeholder_text, Composition, JjLogWidget};
use jj_watch::poll::{CommandOutput, ExitStatus, PollResult};
use jj_watch::text::{StyledLine, StyledText};
use ratatui::buffer::Buffer;
use ratatui::widgets::Widget;

fn text_of(lines: &[&str]) -> StyledText {
    StyledText { lines: lines.iter().map(|line| StyledLine::raw(line)).collect() }
}

fn texts(text: &StyledText) -> Vec<String> {
    text.lines.iter().map(|line| line.plain_text()).collect()
}

fn parts(rect: Rect) -> (u16, u16, u16, u16) {
    (rect.x(), rect.y(), rect.width(), rect.height())
}

fn no_padding() -> Padding {
    Padding::uniform(0)
}

fn finished(code: i32, stdout: &str, stderr: &str) -> CommandOutput {
    CommandOutput {
        status: ExitStatus { code: Some(code) },
        stdout: stdout.as_bytes().to_vec(),
        stderr: stderr.as_bytes().to_vec(),
    }
}

/// Draws a composition on a screen of the given size and returns its rows,
/// trailing blanks removed.
fn drawn_rows(plan: &Composition, width: u16, height: u16) -> Vec<String> {
    let screen = ratatui::layout::Rect::new(0, 0, width, height);
    let mut buffer = Buffer::empty(screen);
    let text = ratatui::text::Text::from(
        plan.lines
            .lines
            .iter()
            .map(|line| ratatui::text::Line::from(line.plain_text()))
            .collect::<Vec<_>>(),
    );
    let area = ratatui::layout::Rect::new(
        plan.area.x(),
        plan.area.y(),
        plan.area.width(),
        plan.area.height(),
    );
    text.render(area, &mut buffer);
    (0..height)
        .map(|row| {
            let cells: String = (0..width).map(|column| buffer[(column, row)].symbol()).collect();
            cells.trim_end().to_string()
        })
        .collect()
}

#[test]
fn tall_content_shows_its_last_lines() {
    let plan = compose(&text_of(&["a", "b", "c"]), Rect::new(0, 0, 10, 2), no_padding(), true);
    assert_eq!(texts(&plan.lines), vec!["b", "c"]);
    assert_eq!(parts(plan.area), (0, 0, 10, 2));
}

#[test]
fn short_content_leaves_the_blank_rows_above() {
    let plan = compose(&text_of(&["a", "b"]), Rect::new(3, 4, 10, 5), no_padding(), true);
    assert_eq!(texts(&plan.lines), vec!["a", "b"]);
    assert_eq!(parts(plan.area), (3, 7, 10, 2));
    assert_eq!(drawn_rows(&plan, 13, 9), vec!["", "", "", "", "", "", "", "   a", "   b"]);
}

#[test]
fn content_that_fits_exactly_fills_the_pane() {
    let plan = compose(&text_of(&["a", "b", "c"]), Rect::new(0, 0, 4, 3), no_padding(), true);
    assert_eq!(texts(&plan.lines), vec!["a", "b", "c"]);
    assert_eq!(parts(plan.area), (0, 0, 4, 3));
}

#[test]
fn shown_lines_are_the_lesser_of_lines_and_rows() {
    for lines in 1usize..6 {
        for rows in 0u16..6 {
            let names: Vec<String> = (0..lines).map(|line| format!("line {}", line)).collect();
            let content =
                StyledText { lines: names.iter().map(|name| StyledLine::raw(name)).collect() };
            let area = Rect::new(1, 2, 9, rows);
            let plan = compose(&content, area, no_padding(), true);
            let shown = lines.min(rows as usize);
            assert_eq!(plan.lines.line_count(), shown);
            assert_eq!(plan.area.height() as usize, shown);
            assert_eq!(plan.area.bottom(), area.bottom());
            assert_eq!(texts(&plan.lines), names[lines - shown..].to_vec());
        }
    }
}

#[test]
fn padding_is_taken_off_before_the_lines_are_counted() {
    let plan =
        compose(&text_of(&["a", "b", "c", "d"]), Rect::new(0, 0, 10, 5), Padding::uniform(1), true);
    assert_eq!(texts(&plan.lines), vec!["b", "c", "d"]);
    assert_eq!(parts(plan.area), (1, 1, 8, 3));
    let plan = compose(&text_of(&["a"]), Rect::new(0, 0, 10, 5), Padding::uniform(1), true);
    assert_eq!(parts(plan.area), (1, 3, 8, 1));
    assert_eq!(drawn_rows(&plan, 10, 5), vec!["", "", "", " a", ""]);
}

#[test]
fn nothing_is_drawn_in_a_pane_without_rows() {
    let plan = compose(&text_of(&["a", "b"]), Rect::new(0, 0, 10, 0), no_padding(), true);
    assert_eq!(plan.lines.line_count(), 0);
    assert_eq!(plan.area.height(), 0);
    let plan = compose(&text_of(&["a", "b"]), Rect::new(0, 0, 10, 2), Padding::uniform(1), true);
    assert_eq!(plan.lines.line_count(), 0);
    assert_eq!(parts(plan.area), (1, 1, 8, 0));
}

#[test]
fn content_without_lines_gives_way_to_the_placeholder() {
    let plan = compose(&StyledText::empty(), Rect::new(0, 0, 20, 3), no_padding(), true);
    assert_eq!(texts(&plan.lines), vec!["No data yet"]);
    assert_eq!(plan.lines, placeholder_text());
    assert_eq!(parts(plan.area), (0, 2, 20, 1));
    let plan = compose(&StyledText::empty(), Rect::new(0, 0, 20, 0), no_padding(), true);
    assert_eq!(plan.lines.line_count(), 0);
}

#[test]
fn an_unanchored_pane_shows_the_first_lines_from_the_top() {
    let plan = compose(&text_of(&["a", "b", "c"]), Rect::new(0, 0, 10, 2), no_padding(), false);
    assert_eq!(texts(&plan.lines), vec!["a", "b"]);
    assert_eq!(parts(plan.area), (0, 0, 10, 2));
    let plan = compose(&text_of(&["a"]), Rect::new(0, 0, 10, 4), no_padding(), false);
    assert_eq!(texts(&plan.lines), vec!["a"]);
    assert_eq!(parts(plan.area), (0, 0, 10, 4));
}

#[test]
fn the_default_pane_is_anchored_and_padded() {
    let widget = JjLogWidget::default();
    assert!(widget.reverse_lines);
    assert_eq!(widget.padding, Padding::uniform(1));
    assert_eq!(widget.state.snapshot(), Ok(PollResult::Unpopulated));
}

#[test]
fn success_with_three_lines_in_two_rows_shows_the_last_two() {
    let widget = JjLogWidget::default();
    assert_eq!(widget.update(Some(&finished(0, "a\nb\nc\n", ""))), Ok(()));
    let plan = match widget.render(Rect::new(0, 0, 12, 4)) {
        Ok(plan) => plan,
        Err(error) => panic!("{:?}", error),
    };
    assert_eq!(texts(&plan.lines), vec!["b", "c"]);
    assert_eq!(parts(plan.area), (1, 1, 10, 2));
    assert_eq!(drawn_rows(&plan, 12, 4), vec!["", " b", " c", ""]);
}

#[test]
fn failure_shows_the_error_output() {
    let widget = JjLogWidget::default();
    assert_eq!(widget.update(Some(&finished(1, "ignored\n", "boom\n"))), Ok(()));
    assert!(matches!(widget.state.snapshot(), Ok(PollResult::Failure { .. })));
    let plan = match widget.render(Rect::new(0, 0, 12, 5)) {
        Ok(plan) => plan,
        Err(error) => panic!("{:?}", error),
    };
    assert_eq!(texts(&plan.lines), vec!["boom"]);
    assert_eq!(drawn_rows(&plan, 12, 5), vec!["", "", "", " boom", ""]);
}

#[test]
fn placeholder_is_shown_before_the_first_poll() {
    let widget = JjLogWidget::default();
    assert_eq!(widget.state.snapshot(), Ok(PollResult::Unpopulated));
    let plan = match widget.render(Rect::new(0, 0, 20, 6)) {
        Ok(plan) => plan,
        Err(error) => panic!("{:?}", error),
    };
    assert_eq!(texts(&plan.lines), vec!["No data yet"]);
    assert_eq!(drawn_rows(&plan, 20, 6), vec!["", "", "", "", " No data yet", ""]);
}

#[test]
fn a_copy_of_the_pane_reads_the_same_cell() {
    let widget = JjLogWidget::default();
    let poller_side = widget.clone();
    assert_eq!(poller_side.update(Some(&finished(0, "fresh\n", ""))), Ok(()));
    let shown = widget.render_result(
        &match widget.state.snapshot() {
            Ok(result) => result,
            Err(error) => panic!("{:?}", error),
        },
        Rect::new(0, 0, 10, 3),
    );
    assert_eq!(texts(&shown.lines), vec!["fresh"]);
}

#[test]
fn later_outcomes_replace_earlier_ones() {
    let widget = JjLogWidget::default();
    assert_eq!(widget.update(Some(&finished(0, "one\n", ""))), Ok(()));
    assert_eq!(widget.update(Some(&finished(2, "", "two\n"))), Ok(()));
    assert_eq!(widget.update(Some(&finished(0, "three\n", ""))), Ok(()));
    assert_eq!(
        widget.state.snapshot(),
        Ok(PollResult::from_output(&finished(0, "three\n", "")))
    );
}

#[test]
fn a_run_that_could_not_start_is_fatal() {
    let widget = JjLogWidget::default();
    assert_eq!(widget.update(None), Err(FatalError::LaunchFailed));
    assert_eq!(widget.state.snapshot(), Ok(PollResult::Unpopulated));
}

#[test]
fn a_run_that_exits_with_an_error_is_not_fatal() {
    let widget = JjLogWidget::default();
    assert_eq!(widget.update(Some(&finished(1, "", "boom\n"))), Ok(()));
    assert_eq!(widget.update(Some(&finished(0, "fine\n", ""))), Ok(()));
}
