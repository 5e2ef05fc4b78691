//! The frame loop's decisions: what each event does to the loop, and what
//! a frame holds.
//!
//! The loop itself waits on a timer and on the terminal, which this library
//! does not do. It hands each event to [`App::step`] and does what the
//! answer says.

use vstd::prelude::*;
use crossterm::event::Event;
use crossterm::event::KeyCode;
use crate::config::{Config, Period};
use crate::error::FatalError;
use crate::layout::{inset, solve_layout, Constraint, Direction, Padding, Rect};
use crate::log_widget::{Composition, JjLogWidget};
use crate::poll::PollResultView;
use crate::status_line_widget::{StatusLinePlan, StatusLineWidget};

verus! {

/// An input event of the terminal, as `crossterm` reports it.
#[verifier::external_type_specification]
#[verifier::external_body]
pub struct ExEvent(Event);

/// A key, as far as the loop tells keys apart.
#[derive(Clone, Copy, Debug, PartialEq, Eq)]
pub enum Key {
    Char(char),
    Esc,
    Other,
}

/// The state of the frame loop. `Stopped` is final.
#[derive(Clone, Copy, Debug, PartialEq, Eq)]
pub enum LoopState {
    Running,
    Stopped { failure: Option<FatalError> },
}

/// What can happen to the frame loop.
#[derive(Clone, Copy, Debug, PartialEq, Eq)]
pub enum LoopEvent {
    /// The redraw timer fired.
    Tick,
    /// The terminal reported an input event: a key press with its key, or
    /// `None` for any other event.
    Input(Option<Key>),
    /// Something failed for good.
    Failed(FatalError),
}

/// What the frame loop does next.
#[derive(Clone, Copy, Debug, PartialEq, Eq)]
pub enum LoopAction {
    /// Draw a frame, then wait for the next event.
    Draw,
    /// Wait for the next event.
    Wait,
    /// Leave the loop.
    Exit,
}

/// The key asks to quit: the letter `q`, or escape.
pub open spec fn is_quit_key(key: Option<Key>) -> bool {
    key == Some(Key::Char('q')) || key == Some(Key::Esc)
}

/// The state that `event` leads to from `state`.
pub open spec fn next_state(state: LoopState, event: LoopEvent) -> LoopState {
    match state {
        LoopState::Stopped { .. } => state,
        LoopState::Running => match event {
            LoopEvent::Tick => LoopState::Running,
            LoopEvent::Input(key) => if is_quit_key(key) {
                LoopState::Stopped { failure: None }
            } else {
                LoopState::Running
            },
            LoopEvent::Failed(error) => LoopState::Stopped { failure: Some(error) },
        },
    }
}

/// What the loop does on `event` in `state`.
pub open spec fn action_for(state: LoopState, event: LoopEvent) -> LoopAction {
    match next_state(state, event) {
        LoopState::Stopped { .. } => LoopAction::Exit,
        LoopState::Running => match event {
            LoopEvent::Tick => LoopAction::Draw,
            _ => LoopAction::Wait,
        },
    }
}

/// The state of a loop that has taken in `events`, one after the other,
/// since it started.
pub open spec fn state_after(events: Seq<LoopEvent>) -> LoopState
    decreases events.len(),
{
    if events.len() == 0 {
        LoopState::Running
    } else {
        next_state(state_after(events.drop_last()), events.last())
    }
}

/// The exit code of a process whose loop ended in `state`: zero after a
/// quit, one after a failure.
pub open spec fn exit_code_of(state: LoopState) -> int {
    match state {
        LoopState::Stopped { failure: Some(_) } => 1,
        _ => 0,
    }
}

/// A loop that has stopped stays as it is, whatever comes.
pub proof fn lemma_stopped_is_final(events: Seq<LoopEvent>, upto: int)
    requires
        0 <= upto <= events.len(),
        state_after(events.take(upto)) is Stopped,
    ensures
        state_after(events) == state_after(events.take(upto)),
    decreases events.len() - upto,
{
    if upto == events.len() {
        assert(events.take(upto) =~= events);
    } else {
        assert(events.take(upto + 1).drop_last() =~= events.take(upto));
        lemma_stopped_is_final(events, upto + 1);
    }
}

/// A press of `q` or of escape stops the loop, at whatever point it comes:
/// right after it the loop is stopped, and it stays so. Where nothing
/// failed before, the process then exits with code zero.
pub proof fn lemma_quit_key_stops(events: Seq<LoopEvent>, at: int)
    requires
        0 <= at < events.len(),
        events[at] matches LoopEvent::Input(key) && is_quit_key(key),
    ensures
        state_after(events.take(at + 1)) is Stopped,
        state_after(events) is Stopped,
        state_after(events.take(at)) is Running ==> exit_code_of(state_after(events)) == 0,
        action_for(state_after(events.take(at)), events[at]) == LoopAction::Exit,
{
    assert(events.take(at + 1).drop_last() =~= events.take(at));
    assert(events.take(at + 1).last() == events[at]);
    lemma_stopped_is_final(events, at + 1);
}

/// Once something has failed for good the loop draws no frame any more,
/// and the process exits with a code other than zero.
pub proof fn lemma_failure_ends_with_error(events: Seq<LoopEvent>, at: int)
    requires
        0 <= at < events.len(),
        events[at] is Failed,
        state_after(events.take(at)) is Running,
    ensures
        state_after(events) is Stopped,
        exit_code_of(state_after(events)) != 0,
        forall|later: int|
            at <= later < events.len() ==> #[trigger] action_for(
                state_after(events.take(later)),
                events[later],
            ) == LoopAction::Exit,
{
    assert(events.take(at + 1).drop_last() =~= events.take(at));
    assert(events.take(at + 1).last() == events[at]);
    lemma_stopped_is_final(events, at + 1);
    assert forall|later: int| at <= later < events.len() implies #[trigger] action_for(
        state_after(events.take(later)),
        events[later],
    ) == LoopAction::Exit by {
        if later > at {
            assert(events.take(later).take(at + 1) =~= events.take(at + 1));
            lemma_stopped_is_final(events.take(later), at + 1);
        }
    }
}

/// The key that `event` is a press of, as `Event::as_key_press_event` of
/// `crossterm` tells it, or `None` where the event is no key press.
pub uninterp spec fn key_pressed(event: Event) -> Option<Key>;

/// Calls `Event::as_key_press_event` and tells the key of a press apart as
/// far as [`Key`] does. `None` stands for an event that is no key press.
/// The contract only names the result.
#[verifier::external_body]
fn pressed_key(event: &Event) -> (key: Option<Key>)
    ensures
        key == key_pressed(*event),
{
    event.as_key_press_event().map(|press| match press.code {
        KeyCode::Char(letter) => Key::Char(letter),
        KeyCode::Esc => Key::Esc,
        _ => Key::Other,
    })
}

/// What one frame holds: the log pane above, the status line in the last
/// row.
#[derive(Debug)]
pub struct FramePlan {
    /// The part of the screen that the log pane was given.
    pub log_area: Rect,
    /// What the log pane draws in its part.
    pub log: Composition,
    /// What the status line draws in the other part.
    pub status: StatusLinePlan,
}

/// The application: the frame loop's state, the log pane and the
/// configuration.
#[derive(Debug)]
pub struct App {
    state: LoopState,
    log_widget: JjLogWidget,
    config: Config,
}

impl View for App {
    type V = LoopState;

    closed spec fn view(&self) -> LoopState {
        self.state
    }
}

impl App {
    /// How often the screen is redrawn in a second.
    pub const FRAMES_PER_SECOND: u32 = 60;

    /// The time between two redraws: a second split evenly among the
    /// frames, cut to whole nanoseconds.
    pub fn redraw_period() -> (period: Period)
        ensures
            period.secs == 0,
            period.nanos() == 1_000_000_000int / (App::FRAMES_PER_SECOND as int),
    {
        Period { secs: 0, subsec_nanos: 1_000_000_000 / App::FRAMES_PER_SECOND }
    }

    /// The rows that a frame asks the layout solver for: one for the
    /// status line, the rest for the log pane.
    pub open spec fn rows() -> Seq<Constraint> {
        seq![Constraint::Fill(1), Constraint::Length(1)]
    }

    /// The log pane.
    pub closed spec fn pane(&self) -> JjLogWidget {
        self.log_widget
    }

    /// The configuration.
    pub closed spec fn settings(&self) -> Config {
        self.config
    }

    /// An application that runs, with a pane of its own: anchored at the
    /// bottom, one blank cell on each side.
    pub fn new(config: Config) -> (app: App)
        ensures
            app@ == LoopState::Running,
            app.settings() == config,
            app.pane().reverse_lines,
            app.pane().padding == (Padding { left: 1, right: 1, top: 1, bottom: 1 }),
    {
        App { state: LoopState::Running, log_widget: Default::default(), config }
    }

    /// The state of the loop.
    pub fn state(&self) -> (state: LoopState)
        ensures
            state == self@,
    {
        self.state
    }

    /// Whether the loop has stopped.
    pub fn should_quit(&self) -> (stopped: bool)
        ensures
            stopped == (self@ is Stopped),
    {
        match self.state {
            LoopState::Running => false,
            LoopState::Stopped { .. } => true,
        }
    }

    /// The exit code of the process, should it end in this state.
    pub fn exit_code(&self) -> (code: i32)
        ensures
            code == exit_code_of(self@),
    {
        match self.state {
            LoopState::Stopped { failure: Some(_) } => 1,
            _ => 0,
        }
    }

    /// The log pane, for the poller to write to.
    pub fn log_widget(&self) -> (widget: &JjLogWidget)
        ensures
            *widget == self.pane(),
    {
        &self.log_widget
    }

    /// The configuration.
    pub fn config(&self) -> (config: &Config)
        ensures
            *config == self.settings(),
    {
        &self.config
    }

    /// Whether `key` asks to quit.
    pub fn quits(key: Option<Key>) -> (yes: bool)
        ensures
            yes == is_quit_key(key),
    {
        match key {
            Some(Key::Char(letter)) => letter == 'q',
            Some(Key::Esc) => true,
            _ => false,
        }
    }

    /// Takes in one event and says what the loop does next.
    pub fn step(&mut self, event: LoopEvent) -> (action: LoopAction)
        ensures
            final(self)@ == next_state(old(self)@, event),
            action == action_for(old(self)@, event),
            final(self).pane() == old(self).pane(),
            final(self).settings() == old(self).settings(),
    {
        match self.state {
            LoopState::Stopped { .. } => LoopAction::Exit,
            LoopState::Running => match event {
                LoopEvent::Tick => LoopAction::Draw,
                LoopEvent::Input(key) => {
                    if App::quits(key) {
                        self.state = LoopState::Stopped { failure: None };
                        LoopAction::Exit
                    } else {
                        LoopAction::Wait
                    }
                },
                LoopEvent::Failed(error) => {
                    self.state = LoopState::Stopped { failure: Some(error) };
                    LoopAction::Exit
                },
            },
        }
    }

    /// Takes in an input event of the terminal. A press of a quit key
    /// stops the loop; every other event leaves it as it is.
    pub fn handle_event(&mut self, event: &Event)
        ensures
            final(self)@ == next_state(old(self)@, LoopEvent::Input(key_pressed(*event))),
            final(self).pane() == old(self).pane(),
            final(self).settings() == old(self).settings(),
    {
        let key = pressed_key(event);
        self.step(LoopEvent::Input(key));
    }

    /// The rows that a frame asks the layout solver for.
    pub fn row_constraints() -> (constraints: Vec<Constraint>)
        ensures
            constraints@ == App::rows(),
    {
        let mut constraints: Vec<Constraint> = Vec::new();
        constraints.push(Constraint::Fill(1));
        constraints.push(Constraint::Length(1));
        assert(constraints@ =~= App::rows());
        constraints
    }

    /// What a frame holds once the screen is split into `parts`: the log
    /// pane draws in the first part the outcome that the cell holds at
    /// this moment, the status line draws in the second.
    pub fn frame_in(&self, parts: &Vec<Rect>) -> (frame: Result<FramePlan, FatalError>)
        requires
            parts@.len() == 2,
        ensures
            frame is Ok ==> frame->Ok_0.log_area == parts@[0] && frame->Ok_0.status.area
                == parts@[1] && exists|result: PollResultView|
                #[trigger] self.pane().draws(frame->Ok_0.log, result, parts@[0]@),
            frame is Ok ==> frame->Ok_0.status.hint_area@.y == inset(
                parts@[1]@,
                (Padding { left: 1, right: 1, top: 0, bottom: 0 }),
            ).y && frame->Ok_0.status.hint_area@.height == inset(
                parts@[1]@,
                (Padding { left: 1, right: 1, top: 0, bottom: 0 }),
            ).height,
            frame is Ok ==> frame->Ok_0.status.title_area@.y == inset(
                parts@[1]@,
                (Padding { left: 1, right: 1, top: 0, bottom: 0 }),
            ).y && frame->Ok_0.status.title_area@.height == inset(
                parts@[1]@,
                (Padding { left: 1, right: 1, top: 0, bottom: 0 }),
            ).height,
            frame is Err ==> frame->Err_0 == FatalError::CellPoisoned,
    {
        let log_area = parts[0];
        match self.log_widget.render(log_area) {
            Ok(log) => {
                let status = StatusLineWidget.render(parts[1]);
                let frame: Result<FramePlan, FatalError> = Ok(FramePlan { log_area, log, status });
                proof {
                    let result = choose|result: PollResultView|
                        #[trigger] self.log_widget.draws(log, result, log_area@);
                    assert(self.pane().draws(frame->Ok_0.log, result, parts@[0]@));
                }
                frame
            },
            Err(error) => Err(error),
        }
    }

    /// What a frame holds on a screen of `area`. The layout solver splits
    /// the screen into two parts, one below the other, each as wide as the
    /// screen; the log pane gets the first, the status line the second.
    /// The log pane draws the outcome that the cell holds at this moment.
    pub fn render(&self, area: Rect) -> (frame: Result<FramePlan, FatalError>)
        ensures
            frame is Ok ==> exists|result: PollResultView|
                #[trigger] self.pane().draws(frame->Ok_0.log, result, frame->Ok_0.log_area@),
            frame is Ok ==> frame->Ok_0.log_area@.x == area@.x && frame->Ok_0.log_area@.width
                == area@.width,
            frame is Ok ==> frame->Ok_0.status.area@.x == area@.x
                && frame->Ok_0.status.area@.width == area@.width,
            frame is Ok ==> frame->Ok_0.status.hint_area@.y == inset(
                frame->Ok_0.status.area@,
                (Padding { left: 1, right: 1, top: 0, bottom: 0 }),
            ).y && frame->Ok_0.status.hint_area@.height == inset(
                frame->Ok_0.status.area@,
                (Padding { left: 1, right: 1, top: 0, bottom: 0 }),
            ).height,
            frame is Ok ==> frame->Ok_0.status.title_area@.y == inset(
                frame->Ok_0.status.area@,
                (Padding { left: 1, right: 1, top: 0, bottom: 0 }),
            ).y && frame->Ok_0.status.title_area@.height == inset(
                frame->Ok_0.status.area@,
                (Padding { left: 1, right: 1, top: 0, bottom: 0 }),
            ).height,
            frame is Err ==> frame->Err_0 == FatalError::CellPoisoned,
    {
        let constraints = App::row_constraints();
        let page_splits = solve_layout(Direction::Vertical, &constraints, area);
        let frame = self.frame_in(&page_splits);
        proof {
            if frame is Ok {
                let result = choose|result: PollResultView|
                    #[trigger] self.pane().draws(frame->Ok_0.log, result, page_splits@[0]@);
                assert(self.pane().draws(frame->Ok_0.log, result, frame->Ok_0.log_area@));
            }
        }
        frame
    }
}

} // verus!
