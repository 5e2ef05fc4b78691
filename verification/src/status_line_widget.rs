//! The status line: a hint on how to quit at the left, the program's name
//! in the middle.

use vstd::prelude::*;
use vstd::string::StringExecFns;
use crate::layout::{inset, solve_layout, Constraint, Direction, Padding, Rect};

verus! {

/// The static line at the bottom of the screen.
#[derive(Clone, Copy, Debug, Default)]
pub struct StatusLineWidget;

/// What the status line draws, and where.
#[derive(Debug)]
pub struct StatusLinePlan {
    /// The whole line, which gets the background.
    pub area: Rect,
    /// Where the hint goes.
    pub hint_area: Rect,
    /// Where the title goes, centred.
    pub title_area: Rect,
    pub hint: String,
    pub title: String,
}

/// The width of the hint in cells.
pub const HINT_WIDTH: u16 = 22;

impl StatusLineWidget {
    /// The columns that the line asks for: the hint's width at either end,
    /// and the rest in the middle.
    pub open spec fn columns() -> Seq<Constraint> {
        seq![Constraint::Length(HINT_WIDTH), Constraint::Fill(1), Constraint::Length(HINT_WIDTH)]
    }

    /// The columns that the line asks the layout solver for.
    pub fn column_constraints() -> (constraints: Vec<Constraint>)
        ensures
            constraints@ == StatusLineWidget::columns(),
    {
        let mut constraints: Vec<Constraint> = Vec::new();
        constraints.push(Constraint::Length(HINT_WIDTH));
        constraints.push(Constraint::Fill(1));
        constraints.push(Constraint::Length(HINT_WIDTH));
        assert(constraints@ =~= StatusLineWidget::columns());
        constraints
    }

    /// The plan for a line in `area` whose columns are `columns`: the hint
    /// in the first, the title in the second.
    pub fn plan(self, area: Rect, columns: &Vec<Rect>) -> (plan: StatusLinePlan)
        requires
            columns@.len() == 3,
        ensures
            plan.area == area,
            plan.hint_area == columns@[0],
            plan.title_area == columns@[1],
            plan.hint@ == "`q` or `<esc>` to quit"@,
            plan.hint@.len() == HINT_WIDTH,
            plan.title@ == "jj-watch"@,
    {
        proof {
            reveal_strlit("`q` or `<esc>` to quit");
        }
        StatusLinePlan {
            area,
            hint_area: columns[0],
            title_area: columns[1],
            hint: String::from_str("`q` or `<esc>` to quit"),
            title: String::from_str("jj-watch"),
        }
    }

    /// What the line draws in `area`. The line keeps one blank cell at
    /// either end. The rest is split into columns side by side, each as
    /// high as the line; how wide each column is rests with the layout
    /// solver.
    pub fn render(self, area: Rect) -> (plan: StatusLinePlan)
        ensures
            plan.area == area,
            plan.hint@ == "`q` or `<esc>` to quit"@,
            plan.hint@.len() == HINT_WIDTH,
            plan.title@ == "jj-watch"@,
            plan.hint_area@.y == inset(area@, (Padding { left: 1, right: 1, top: 0, bottom: 0 })).y,
            plan.hint_area@.height == inset(
                area@,
                (Padding { left: 1, right: 1, top: 0, bottom: 0 }),
            ).height,
            plan.title_area@.y == inset(area@, (Padding { left: 1, right: 1, top: 0, bottom: 0 })).y,
            plan.title_area@.height == inset(
                area@,
                (Padding { left: 1, right: 1, top: 0, bottom: 0 }),
            ).height,
    {
        let constraints = StatusLineWidget::column_constraints();
        let columns = solve_layout(
            Direction::Horizontal,
            &constraints,
            area.inner(Padding::horizontal(1)),
        );
        self.plan(area, &columns)
    }
}

} // verus!
