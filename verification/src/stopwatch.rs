//! The stopwatch: what one tick of its loop decides.
//!
//! The caller runs the loop. Once per tick it reads its clocks, takes at most
//! one pending key and calls `tick`; it then runs the terminal commands,
//! stores the history text if there is any, and stops if told to.

use crate::clock::is_time_of_day;
use crate::clock::time_of_day;
use crate::history::History;
use crate::history::HistoryModel;
use crate::history::RESERVED_ROWS;
use crate::line::duration_hms;
use crate::line::Line;
use crate::terminal::push_command;
use crate::terminal::push_commands;
use crate::terminal::Color;
use crate::terminal::TermCommand;
use crate::terminal::TermOp;
use crate::timer::Timer;
use crate::timer::TimerModel;
use crate::timer::TimerState;
use vstd::prelude::*;
use vstd::string::StringExecFns;

verus! {

/// The terminal row of the line that shows when the stopwatch started.
pub const START_TIME_ROW: u16 = 3;

/// The time from one tick to the next, in milliseconds.
pub const REFRESH_MS: u64 = 128;

/// What a key asks for.
#[derive(Clone, Copy, Debug, PartialEq, Eq)]
pub enum Command {
    Quit,
    Toggle,
    Ignore,
}

/// `q` quits, `p` and the space bar pause and resume, no other key does
/// anything.
pub open spec fn command_of(key: char) -> Command {
    if key == 'q' {
        Command::Quit
    } else if key == 'p' || key == ' ' {
        Command::Toggle
    } else {
        Command::Ignore
    }
}

pub fn recognize(key: char) -> (command: Command)
    ensures
        command == command_of(key),
{
    if key == 'q' {
        Command::Quit
    } else if key == 'p' || key == ' ' {
        Command::Toggle
    } else {
        Command::Ignore
    }
}

/// What opening the screen does: hide the cursor, clear the screen, write
/// the title and the help line, and the start time in cyan.
pub open spec fn opening_ops(started: (u8, u8, u8)) -> Seq<TermOp> {
    seq![
        TermOp::HideCursor,
        TermOp::ClearAll,
        TermOp::MoveTo { column: 0, row: 0 },
        TermOp::Print { text: "DATIMER"@, bold: true, italic: false },
        TermOp::MoveTo { column: 0, row: 1 },
        TermOp::Print { text: "Press 'p' to pause, 'q' to quit"@, bold: false, italic: false },
    ] + Line::plain("Start time:", started).with_color(Color::Cyan).drawn_at(START_TIME_ROW)
}

/// The commands that open the screen of a stopwatch started at the time of
/// day `started`.
pub fn opening(started: (u8, u8, u8)) -> (commands: Vec<TermCommand>)
    ensures
        commands.deep_view() == opening_ops(started),
{
    let mut commands: Vec<TermCommand> = Vec::new();
    assert(commands.deep_view() =~= Seq::<TermOp>::empty());
    push_command(&mut commands, TermCommand::HideCursor);
    push_command(&mut commands, TermCommand::ClearAll);
    push_command(&mut commands, TermCommand::MoveTo { column: 0, row: 0 });
    push_command(
        &mut commands,
        TermCommand::Print { text: String::from_str("DATIMER"), bold: true, italic: false },
    );
    push_command(&mut commands, TermCommand::MoveTo { column: 0, row: 1 });
    push_command(
        &mut commands,
        TermCommand::Print {
            text: String::from_str("Press 'p' to pause, 'q' to quit"),
            bold: false,
            italic: false,
        },
    );
    let start = Line::new("Start time:", started).color(Color::Cyan);
    push_commands(&mut commands, start.print(START_TIME_ROW));
    assert(commands.deep_view() =~= opening_ops(started));
    commands
}

/// The stopwatch as mathematics.
pub struct StopwatchModel {
    pub timer: TimerModel,
    pub history: HistoryModel,
}

/// A tick as mathematics: the stopwatch as it is so far, and what the tick
/// has asked of the caller so far.
pub struct TickModel {
    pub state: StopwatchModel,
    /// The terminal commands, in order.
    pub ops: Seq<TermOp>,
    /// The text of the last store of the history in this tick, if any; an
    /// earlier one it has overwritten.
    pub saved: Option<Seq<char>>,
    pub quit: bool,
}

/// The live line: the time to display, in bold.
pub open spec fn live_line(elapsed: nat) -> Line {
    Line::plain("Elapsed:", duration_hms(elapsed)).with_color(Color::Reset).with_bold()
}

/// The line that records a pause, in red.
pub open spec fn paused_line(wall: (u8, u8, u8)) -> Line {
    Line::plain("Paused at:", wall).with_color(Color::Red)
}

/// The line that shows the committed total after a pause, in italics.
pub open spec fn total_line(total: nat) -> Line {
    Line::plain("Elapsed:", duration_hms(total)).with_color(Color::Reset).with_italic()
}

/// The line that records a resume, in green.
pub open spec fn resumed_line(wall: (u8, u8, u8)) -> Line {
    Line::plain("Resumed at:", wall).with_color(Color::Green)
}

impl TickModel {
    /// A tick that has done nothing yet.
    pub open spec fn begin(state: StopwatchModel) -> TickModel {
        TickModel { state, ops: Seq::empty(), saved: None, quit: false }
    }

    /// The tick after one more write to the history.
    pub open spec fn write(self, line: Line, advance: bool, now: nat) -> TickModel {
        TickModel {
            state: StopwatchModel {
                history: self.state.history.written(line, advance, now),
                ..self.state
            },
            ops: self.ops + self.state.history.drawn(line, advance),
            saved: match self.state.history.saved(line, advance, now) {
                Some(text) => Some(text),
                None => self.saved,
            },
            ..self
        }
    }

    /// While the timer runs, the live line is written over the newest row.
    pub open spec fn refresh(self, now: nat) -> TickModel {
        match self.state.timer.state {
            TimerState::Running => self.write(
                live_line(self.state.timer.elapsed(now)),
                false,
                now,
            ),
            TimerState::Paused => self,
        }
    }

    /// A pause/resume command: the timer changes state, and two entries are
    /// appended: when it happened, and the committed total.
    pub open spec fn toggle(self, now: nat, wall: (u8, u8, u8)) -> TickModel {
        let timer = self.state.timer.toggled(now);
        let turned = TickModel { state: StopwatchModel { timer, ..self.state }, ..self };
        match self.state.timer.state {
            TimerState::Running => turned.write(paused_line(wall), true, now).write(
                total_line(timer.running_total),
                true,
                now,
            ),
            TimerState::Paused => turned.write(resumed_line(wall), true, now).write(
                live_line(timer.running_total),
                true,
                now,
            ),
        }
    }

    /// The quit command: the colour is reset, the cursor goes two rows below
    /// the first free row and shows again, and the loop is told to stop.
    pub open spec fn quit(self) -> TickModel {
        TickModel {
            ops: self.ops + seq![
                TermOp::SetForeground { color: Color::Reset },
                TermOp::MoveTo { column: 0, row: (self.state.history.active_line() + 2) as u16 },
                TermOp::ShowCursor,
            ],
            quit: true,
            ..self
        }
    }
}

impl StopwatchModel {
    /// A stopwatch started at `now` on a terminal of `terminal_rows` rows.
    pub open spec fn started(terminal_rows: nat, now: nat) -> StopwatchModel {
        StopwatchModel {
            timer: TimerModel::started(now),
            history: HistoryModel::empty(terminal_rows, now),
        }
    }

    /// One tick at `now`, with the wall clock at `wall` and the pending key,
    /// if there is one: first the live line, then the key's command.
    pub open spec fn step(self, now: nat, wall: (u8, u8, u8), key: Option<char>) -> TickModel {
        let shown = TickModel::begin(self).refresh(now);
        match key {
            Some(c) => match command_of(c) {
                Command::Quit => shown.quit(),
                Command::Toggle => shown.toggle(now, wall),
                Command::Ignore => shown,
            },
            None => shown,
        }
    }
}

/// What a tick asks of the caller.
pub struct TickOutcome {
    /// The terminal commands to run, in order.
    pub commands: Vec<TermCommand>,
    /// The new content of the history file, where it is to be stored: the
    /// file is emptied and this text written in its place.
    pub saved: Option<String>,
    /// Whether the loop ends with this tick.
    pub quit: bool,
}

impl TickOutcome {
    pub open spec fn saved_text(self) -> Option<Seq<char>> {
        match self.saved {
            Some(text) => Some(text@),
            None => None,
        }
    }
}

/// The stopwatch: a timer and the history of its events.
pub struct Stopwatch {
    timer: Timer,
    history: History,
}

impl View for Stopwatch {
    type V = StopwatchModel;

    closed spec fn view(&self) -> StopwatchModel {
        StopwatchModel { timer: self.timer@, history: self.history@ }
    }
}

/// A stopwatch and the outcome of its tick so far, as a tick of the model.
pub open spec fn tick_of(state: StopwatchModel, outcome: TickOutcome) -> TickModel {
    TickModel {
        state,
        ops: outcome.commands.deep_view(),
        saved: outcome.saved_text(),
        quit: outcome.quit,
    }
}

impl Stopwatch {
    /// A stopwatch started at `now` on a terminal of `terminal_rows` rows.
    pub fn new(terminal_rows: u16, now: u128) -> (stopwatch: Stopwatch)
        requires
            terminal_rows >= RESERVED_ROWS,
        ensures
            stopwatch@ == StopwatchModel::started(terminal_rows as nat, now as nat),
            stopwatch@.history.wf(),
    {
        Stopwatch { timer: Timer::new(now), history: History::new(terminal_rows, now) }
    }

    pub fn timer(&self) -> (timer: &Timer)
        ensures
            timer@ == self@.timer,
    {
        &self.timer
    }

    pub fn history(&self) -> (history: &History)
        ensures
            history@ == self@.history,
    {
        &self.history
    }

    fn write(&mut self, outcome: &mut TickOutcome, line: Line, advance: bool, now: u128)
        ensures
            tick_of(final(self)@, *final(outcome)) == tick_of(old(self)@, *old(outcome)).write(
                line,
                advance,
                now as nat,
            ),
            final(self)@.history.wf(),
    {
        let written = self.history.write_line(line, advance, now);
        push_commands(&mut outcome.commands, written.commands);
        match written.saved {
            Some(text) => {
                outcome.saved = Some(text);
            },
            None => {},
        }
    }

    /// One tick at `now`, with the wall clock showing the time of day `wall`
    /// and `key` the pending key, if there is one.
    ///
    /// While the timer runs, the live line is written over the newest row.
    /// Then `q` ends the loop, `p` or the space bar pauses or resumes and
    /// appends two entries, and any other key does nothing.
    pub fn step(&mut self, now: u128, wall: (u8, u8, u8), key: Option<char>) -> (outcome:
        TickOutcome)
        requires
            old(self)@.timer.elapsed(now as nat) <= u128::MAX,
        ensures
            tick_of(final(self)@, outcome) == old(self)@.step(now as nat, wall, key),
            final(self)@.history.wf(),
            final(self)@.timer.running_total >= old(self)@.timer.running_total,
            final(self)@.timer.running_total != old(self)@.timer.running_total
                ==> pauses(old(self)@, key),
    {
        proof {
            use_type_invariant(&self.history);
            step_adds_to_total_on_pause_only(self@, now as nat, wall, key);
        }
        let ghost shown = TickModel::begin(self@).refresh(now as nat);
        let mut outcome = TickOutcome { commands: Vec::new(), saved: None, quit: false };
        assert(outcome.commands.deep_view() =~= Seq::<TermOp>::empty());
        let state = self.timer.state();
        match state {
            TimerState::Running => {
                let elapsed = self.timer.elapsed(now);
                let live = Line::from_duration("Elapsed:", elapsed).color(Color::Reset).bold();
                self.write(&mut outcome, live, false, now);
            },
            TimerState::Paused => {},
        }
        assert(tick_of(self@, outcome) == shown);
        let command = match key {
            Some(c) => recognize(c),
            None => Command::Ignore,
        };
        match command {
            Command::Quit => {
                push_command(
                    &mut outcome.commands,
                    TermCommand::SetForeground { color: Color::Reset },
                );
                push_command(
                    &mut outcome.commands,
                    TermCommand::MoveTo { column: 0, row: self.history.active_line() + 2 },
                );
                push_command(&mut outcome.commands, TermCommand::ShowCursor);
                outcome.quit = true;
                assert(outcome.commands.deep_view() =~= shown.quit().ops);
            },
            Command::Toggle => {
                self.timer.toggle(now);
                let total = self.timer.running_total();
                match state {
                    TimerState::Running => {
                        let paused = Line::new("Paused at:", wall).color(Color::Red);
                        self.write(&mut outcome, paused, true, now);
                        let committed = Line::from_duration("Elapsed:", total);
                        self.write(&mut outcome, committed.color(Color::Reset).italic(), true, now);
                    },
                    TimerState::Paused => {
                        let resumed = Line::new("Resumed at:", wall).color(Color::Green);
                        self.write(&mut outcome, resumed, true, now);
                        let committed = Line::from_duration("Elapsed:", total);
                        self.write(&mut outcome, committed.color(Color::Reset).bold(), true, now);
                    },
                }
            },
            Command::Ignore => {},
        }
        outcome
    }

    /// One tick at `now`, with the wall clock at `wall`: `step` with the time
    /// of day that `wall` shows. Which time of day that is rests with chrono.
    pub fn tick(&mut self, now: u128, wall: &chrono::NaiveDateTime, key: Option<char>) -> (outcome:
        TickOutcome)
        requires
            old(self)@.timer.elapsed(now as nat) <= u128::MAX,
        ensures
            exists|hms: (u8, u8, u8)|
                is_time_of_day(hms) && tick_of(final(self)@, outcome)
                    == #[trigger] old(self)@.step(now as nat, hms, key),
            final(self)@.history.wf(),
            final(self)@.timer.running_total >= old(self)@.timer.running_total,
            final(self)@.timer.running_total != old(self)@.timer.running_total
                ==> pauses(old(self)@, key),
    {
        let hms = time_of_day(wall);
        self.step(now, hms, key)
    }
}

/// Whether `key` is a pause/resume command.
pub open spec fn toggles(key: Option<char>) -> bool {
    key matches Some(c) && command_of(c) == Command::Toggle
}

/// Whether `key` pauses the stopwatch: a pause/resume command that meets a
/// running timer.
pub open spec fn pauses(stopwatch: StopwatchModel, key: Option<char>) -> bool {
    toggles(key) && stopwatch.timer.state == TimerState::Running
}

/// A tick never takes time off the committed total, and it changes the total
/// only where it pauses a running timer.
pub proof fn step_adds_to_total_on_pause_only(
    stopwatch: StopwatchModel,
    now: nat,
    wall: (u8, u8, u8),
    key: Option<char>,
)
    ensures
        stopwatch.step(now, wall, key).state.timer.running_total >= stopwatch.timer.running_total,
        stopwatch.step(now, wall, key).state.timer.running_total != stopwatch.timer.running_total
            ==> pauses(stopwatch, key),
        !toggles(key) ==> stopwatch.step(now, wall, key).state.timer == stopwatch.timer,
{
}

/// A tick keeps the history within its capacity.
pub proof fn step_keeps_history_bounded(
    stopwatch: StopwatchModel,
    now: nat,
    wall: (u8, u8, u8),
    key: Option<char>,
)
    requires
        stopwatch.history.wf(),
    ensures
        stopwatch.step(now, wall, key).state.history.wf(),
        stopwatch.step(now, wall, key).state.history.capacity == stopwatch.history.capacity,
{
}

/// A tick without a pause/resume command leaves the number of entries as it
/// is: the live line alone never adds a row to the history.
pub proof fn step_without_toggle_keeps_count(
    stopwatch: StopwatchModel,
    now: nat,
    wall: (u8, u8, u8),
    key: Option<char>,
)
    requires
        !toggles(key),
    ensures
        stopwatch.step(now, wall, key).state.history.entries.len()
            == stopwatch.history.entries.len(),
{
}

/// A pause/resume command appends two entries where the history has room
/// for them: when it happened, and the committed total.
pub proof fn toggle_appends_two_entries(
    stopwatch: StopwatchModel,
    now: nat,
    wall: (u8, u8, u8),
    key: Option<char>,
)
    requires
        toggles(key),
        stopwatch.history.entries.len() + 2 <= stopwatch.history.capacity,
    ensures
        stopwatch.step(now, wall, key).state.history.entries.len()
            == stopwatch.history.entries.len() + 2,
        stopwatch.timer.state == TimerState::Running ==> stopwatch.step(
            now,
            wall,
            key,
        ).state.history.entries.skip(stopwatch.history.entries.len() as int) == seq![
            paused_line(wall),
            total_line(stopwatch.timer.elapsed(now)),
        ],
        stopwatch.timer.state == TimerState::Paused ==> stopwatch.step(
            now,
            wall,
            key,
        ).state.history.entries == stopwatch.history.entries + seq![
            resumed_line(wall),
            live_line(stopwatch.timer.running_total),
        ],
{
    let after = stopwatch.step(now, wall, key).state.history.entries;
    let count = stopwatch.history.entries.len() as int;
    match stopwatch.timer.state {
        TimerState::Running => {
            assert(after.skip(count) =~= seq![
                paused_line(wall),
                total_line(stopwatch.timer.elapsed(now)),
            ]);
        },
        TimerState::Paused => {
            assert(after =~= stopwatch.history.entries + seq![
                resumed_line(wall),
                live_line(stopwatch.timer.running_total),
            ]);
        },
    }
}

} // verus!
