//! The log pane: which lines of the latest outcome are visible in a given
//! area, and where in that area they go.
//!
//! Content hugs the bottom edge. Of a text that is taller than the pane only
//! the last lines show; above a text that is shorter the pane stays blank.

use vstd::prelude::*;
use crate::cell::SharedResultCell;
use crate::error::FatalError;
use crate::layout::{bottom_rows, inset, least, Padding, Rect, RectView};
use crate::poll::{primary_content, CommandOutput, PollResult, PollResultView};
use crate::text::{raw_line, SpanView, StyledLine, StyledText};

verus! {

/// What to draw, and where: `lines` go into the rows of `area`, the first
/// line into its top row.
#[derive(Debug, PartialEq, Eq)]
pub struct Composition {
    pub area: Rect,
    pub lines: StyledText,
}

/// The line shown while there is nothing else to show.
pub open spec fn placeholder() -> Seq<Seq<SpanView>> {
    seq![raw_line("No data yet"@)]
}

/// The lines that `content` puts up for display: its own, or the
/// placeholder where it has none.
pub open spec fn shown(content: Seq<Seq<SpanView>>) -> Seq<Seq<SpanView>> {
    if content.len() == 0 {
        placeholder()
    } else {
        content
    }
}

/// How many of `lines` lines are visible in `height` rows.
pub open spec fn visible_count(lines: int, height: int) -> int {
    least(lines, height)
}

/// The visible lines of `content` in `height` rows: the last ones where the
/// pane is anchored at the bottom, the first ones where it is not.
pub open spec fn visible_lines(content: Seq<Seq<SpanView>>, height: int, bottom: bool) -> Seq<
    Seq<SpanView>,
> {
    let all = shown(content);
    let count = visible_count(all.len() as int, height);
    if bottom {
        all.subrange(all.len() - count, all.len() as int)
    } else {
        all.take(count)
    }
}

/// Where the visible lines of `content` go in `area` once `padding` is taken
/// off: into as many rows at its bottom as there are visible lines where the
/// pane is anchored at the bottom, else into the padded area from its top.
pub open spec fn drawable(
    content: Seq<Seq<SpanView>>,
    area: RectView,
    padding: Padding,
    bottom: bool,
) -> RectView {
    let inner = inset(area, padding);
    if bottom {
        bottom_rows(inner, visible_count(shown(content).len() as int, inner.height))
    } else {
        inner
    }
}

/// The rows of a pane of `height` rows, top to bottom, anchored at the
/// bottom: `None` for a blank row, else the line in it.
pub open spec fn pane_rows(content: Seq<Seq<SpanView>>, height: int) -> Seq<
    Option<Seq<SpanView>>,
> {
    let all = shown(content);
    let blank = height - visible_count(all.len() as int, height);
    Seq::new(
        height as nat,
        |row: int|
            if row < blank {
                None
            } else {
                Some(all[all.len() - height + row])
            },
    )
}

/// How many of `rows` hold a line.
pub open spec fn filled(rows: Seq<Option<Seq<SpanView>>>) -> nat
    decreases rows.len(),
{
    if rows.len() == 0 {
        0
    } else if rows.last() is Some {
        filled(rows.drop_last()) + 1
    } else {
        filled(rows.drop_last())
    }
}

/// Rows of which the first `blank` are blank and all others hold a line
/// have `rows.len() - blank` lines.
proof fn lemma_filled_below(rows: Seq<Option<Seq<SpanView>>>, blank: int)
    requires
        0 <= blank <= rows.len(),
        forall|row: int| 0 <= row < rows.len() ==> (rows[row] is None <==> row < blank),
    ensures
        filled(rows) == rows.len() - blank,
    decreases rows.len(),
{
    if rows.len() > 0 {
        let front = rows.drop_last();
        if rows.len() > blank {
            lemma_filled_below(front, blank);
        } else {
            lemma_filled_below(front, blank - 1);
        }
    }
}

/// A pane that is anchored at the bottom shows exactly as many lines as
/// fit, the lesser of what `content` puts up and of `height`; its blank
/// rows are all above them, none below or between; and the lines are the
/// last ones of the content, in their order.
pub proof fn lemma_blank_rows_are_on_top(content: Seq<Seq<SpanView>>, height: int)
    requires
        0 <= height,
    ensures
        pane_rows(content, height).len() == height,
        filled(pane_rows(content, height)) == visible_count(shown(content).len() as int, height),
        content.len() > 0 ==> filled(pane_rows(content, height)) == least(
            content.len() as int,
            height,
        ),
        forall|row: int|
            0 <= row < height ==> (#[trigger] pane_rows(content, height)[row] is None <==> row
                < height - visible_count(shown(content).len() as int, height)),
        forall|line: int|
            0 <= line < visible_lines(content, height, true).len() ==> pane_rows(
                content,
                height,
            )[height - visible_lines(content, height, true).len() + line] == Some(
                #[trigger] visible_lines(content, height, true)[line],
            ),
{
    let rows = pane_rows(content, height);
    let count = visible_count(shown(content).len() as int, height);
    lemma_filled_below(rows, height - count);
}

/// What `compose` draws is the pane's rows: the drawable area starts right
/// below the blank rows and ends with the padded area, and its lines are
/// the rows that hold one.
pub proof fn lemma_composition_fills_the_bottom(
    content: Seq<Seq<SpanView>>,
    area: RectView,
    padding: Padding,
)
    requires
        area.fits(),
    ensures
        drawable(content, area, padding, true).bottom() == inset(area, padding).bottom(),
        drawable(content, area, padding, true).height == filled(
            pane_rows(content, inset(area, padding).height),
        ),
        drawable(content, area, padding, true).x == inset(area, padding).x,
        drawable(content, area, padding, true).width == inset(area, padding).width,
        visible_lines(content, inset(area, padding).height, true).len() == drawable(
            content,
            area,
            padding,
            true,
        ).height,
{
    lemma_blank_rows_are_on_top(content, inset(area, padding).height);
}

/// The placeholder as a text.
pub fn placeholder_text() -> (text: StyledText)
    ensures
        text@ == placeholder(),
{
    let mut lines: Vec<StyledLine> = Vec::new();
    lines.push(StyledLine::raw("No data yet"));
    let text = StyledText { lines };
    assert(text@ =~= placeholder());
    text
}

/// Places `content` in `area`: takes `padding` off the area, keeps the
/// lines that fit, and anchors them at the bottom of what is left if
/// `bottom` says so. A content without lines gives way to the placeholder.
pub fn compose(content: &StyledText, area: Rect, padding: Padding, bottom: bool) -> (plan:
    Composition)
    ensures
        plan.area@ == drawable(content@, area@, padding, bottom),
        plan.lines@ == visible_lines(content@, inset(area@, padding).height, bottom),
{
    if content.line_count() == 0 {
        fit(&placeholder_text(), area.inner(padding), bottom)
    } else {
        fit(content, area.inner(padding), bottom)
    }
}

/// Keeps the lines of `all` that fit in `inner`, and anchors them at its
/// bottom if `bottom` says so.
fn fit(all: &StyledText, inner: Rect, bottom: bool) -> (plan: Composition)
    ensures
        plan.area@ == (if bottom {
            bottom_rows(inner@, visible_count(all@.len() as int, inner@.height))
        } else {
            inner@
        }),
        plan.lines@ == (if bottom {
            all@.subrange(
                all@.len() - visible_count(all@.len() as int, inner@.height),
                all@.len() as int,
            )
        } else {
            all@.take(visible_count(all@.len() as int, inner@.height))
        }),
{
    let total = all.line_count();
    let count: u16 = if total < inner.height() as usize {
        total as u16
    } else {
        inner.height()
    };
    if bottom {
        Composition {
            area: inner.bottom_rows(count),
            lines: all.window(total - count as usize, total),
        }
    } else {
        Composition { area: inner, lines: all.window(0, count as usize) }
    }
}

/// The log pane. It shares the cell that the poller writes to.
#[derive(Debug)]
pub struct JjLogWidget {
    /// The cell that the poller writes to and the pane reads.
    pub state: SharedResultCell,
    /// Anchor the content at the bottom of the pane.
    pub reverse_lines: bool,
    /// Blank cells around the content.
    pub padding: Padding,
}

impl Default for JjLogWidget {
    fn default() -> (widget: JjLogWidget)
        ensures
            widget.reverse_lines,
            widget.padding == (Padding { left: 1, right: 1, top: 1, bottom: 1 }),
    {
        JjLogWidget {
            state: SharedResultCell::new(),
            reverse_lines: true,
            padding: Padding::uniform(1),
        }
    }
}

impl Clone for JjLogWidget {
    fn clone(&self) -> (handle: JjLogWidget)
        ensures
            handle.reverse_lines == self.reverse_lines,
            handle.padding == self.padding,
    {
        JjLogWidget {
            state: self.state.clone(),
            reverse_lines: self.reverse_lines,
            padding: self.padding,
        }
    }
}

impl JjLogWidget {
    /// `plan` is what the pane draws in `area` for `result`: the visible
    /// lines of the outcome's content, in the place that they have there.
    pub open spec fn draws(self, plan: Composition, result: PollResultView, area: RectView) -> bool {
        &&& plan.area@ == drawable(primary_content(result), area, self.padding, self.reverse_lines)
        &&& plan.lines@ == visible_lines(
            primary_content(result),
            inset(area, self.padding).height,
            self.reverse_lines,
        )
    }

    /// Takes in a run of the log command: `None` where the command could
    /// not be started, else what it left behind. A run that could not be
    /// started is fatal. Every other run, failed or not, is decoded and
    /// left in the cell as the latest outcome.
    pub fn update(&self, run: Option<&CommandOutput>) -> (done: Result<(), FatalError>)
        ensures
            run is None ==> done == Err::<(), FatalError>(FatalError::LaunchFailed),
            run is Some ==> done is Ok || done == Err::<(), FatalError>(FatalError::CellPoisoned),
    {
        match run {
            None => Err(FatalError::LaunchFailed),
            Some(output) => self.state.replace(PollResult::from_output(output)),
        }
    }

    /// What the pane draws in `area` for `result`: the output of a success,
    /// the error output of a failure, the placeholder before the first run.
    pub fn render_result(&self, result: &PollResult, area: Rect) -> (plan: Composition)
        ensures
            self.draws(plan, result@, area@),
    {
        match result {
            PollResult::Unpopulated => compose(
                &StyledText::empty(),
                area,
                self.padding,
                self.reverse_lines,
            ),
            PollResult::Success { stdout } => compose(
                stdout,
                area,
                self.padding,
                self.reverse_lines,
            ),
            PollResult::Failure { stderr, .. } => compose(
                stderr,
                area,
                self.padding,
                self.reverse_lines,
            ),
        }
    }

    /// What the pane draws in `area` for the outcome that the cell holds
    /// now. Which outcome that is rests with the poller.
    pub fn render(&self, area: Rect) -> (plan: Result<Composition, FatalError>)
        ensures
            plan is Ok ==> exists|result: PollResultView|
                #[trigger] self.draws(plan->Ok_0, result, area@),
            plan is Err ==> plan->Err_0 == FatalError::CellPoisoned,
    {
        match self.state.snapshot() {
            Ok(result) => {
                let plan: Result<Composition, FatalError> = Ok(self.render_result(&result, area));
                assert(self.draws(plan->Ok_0, result@, area@));
                plan
            },
            Err(error) => Err(error),
        }
    }
}

} // verus!
