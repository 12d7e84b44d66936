//! The bounded, scrolling history of the stopwatch's entries.

use crate::line::Line;
use crate::log::file_text;
use crate::terminal::push_command;
use crate::terminal::push_commands;
use crate::terminal::TermCommand;
use crate::terminal::TermOp;
use std::collections::VecDeque;
use vstd::prelude::*;
use vstd::string::StringExecFns;

verus! {

/// The first terminal row of the history.
pub const START_ROW: u16 = 4;

/// The terminal rows that the history leaves to the rest of the screen.
pub const RESERVED_ROWS: u16 = 6;

/// The history is stored again once this many nanoseconds have passed since
/// it was last stored.
pub const SAVE_INTERVAL: u128 = 20_000_000_000;

/// The history as mathematics.
pub struct HistoryModel {
    /// The entries, oldest first.
    pub entries: Seq<Line>,
    /// The most entries the history holds.
    pub capacity: nat,
    /// The terminal row of the oldest entry.
    pub start_row: nat,
    /// When the history was last stored.
    pub last_save: nat,
}

/// What drawing `entries` on consecutive rows from `start_row` does.
pub open spec fn rows_drawn(entries: Seq<Line>, start_row: nat) -> Seq<TermOp>
    decreases entries.len(),
{
    if entries.len() == 0 {
        Seq::empty()
    } else {
        rows_drawn(entries.drop_last(), start_row) + entries.last().drawn_at(
            (start_row + entries.len() - 1) as u16,
        )
    }
}

impl HistoryModel {
    /// An empty history for a terminal of `terminal_rows` rows, made at `now`.
    pub open spec fn empty(terminal_rows: nat, now: nat) -> HistoryModel {
        HistoryModel {
            entries: Seq::empty(),
            capacity: (terminal_rows - RESERVED_ROWS) as nat,
            start_row: START_ROW as nat,
            last_save: now,
        }
    }

    /// The history holds no more than its capacity, and every row it draws on
    /// or points below is a row number.
    pub open spec fn wf(self) -> bool {
        &&& self.entries.len() <= self.capacity
        &&& self.start_row + self.capacity + 2 <= u16::MAX
    }

    /// The first row below the entries.
    pub open spec fn active_line(self) -> nat {
        self.start_row + self.entries.len()
    }

    /// The row of the newest entry, or the first row while there is none.
    pub open spec fn newest_row(self) -> nat {
        if self.entries.len() == 0 {
            self.start_row
        } else {
            (self.active_line() - 1) as nat
        }
    }

    /// The entries after a replacing write: the newest entry gives way to
    /// `line`; an empty history stays empty.
    pub open spec fn replaced(self, line: Line) -> Seq<Line> {
        if self.entries.len() == 0 {
            self.entries
        } else {
            self.entries.drop_last().push(line)
        }
    }

    /// The entries after an appending write: `line` comes last, and where
    /// that would exceed the capacity the oldest entry leaves.
    pub open spec fn appended(self, line: Line) -> Seq<Line> {
        if self.entries.len() < self.capacity {
            self.entries.push(line)
        } else {
            self.entries.push(line).skip(1)
        }
    }

    /// The entries after a write of either kind.
    pub open spec fn entries_after(self, line: Line, advance: bool) -> Seq<Line> {
        if advance {
            self.appended(line)
        } else {
            self.replaced(line)
        }
    }

    /// Whether a write at `now` stores the history: every appending write
    /// does, and any write once the interval has passed.
    pub open spec fn save_due(self, advance: bool, now: nat) -> bool {
        advance || now >= self.last_save + SAVE_INTERVAL
    }

    /// The history after a write.
    pub open spec fn written(self, line: Line, advance: bool, now: nat) -> HistoryModel {
        HistoryModel {
            entries: self.entries_after(line, advance),
            last_save: if self.save_due(advance, now) {
                now
            } else {
                self.last_save
            },
            ..self
        }
    }

    /// What a write does to the terminal. A replacing write draws over the
    /// newest row. An appending write draws on the first free row, or, in a
    /// full history, clears all rows and draws every entry again.
    pub open spec fn drawn(self, line: Line, advance: bool) -> Seq<TermOp> {
        if !advance {
            line.drawn_at(self.newest_row() as u16)
        } else if self.entries.len() < self.capacity {
            line.drawn_at(self.active_line() as u16)
        } else {
            seq![TermOp::MoveToRow { row: self.start_row as u16 }, TermOp::ClearBelow] + rows_drawn(
                self.appended(line),
                self.start_row,
            )
        }
    }

    /// What a write at `now` stores: the text of all entries as they are
    /// after the write, or nothing where no store is due.
    pub open spec fn saved(self, line: Line, advance: bool, now: nat) -> Option<Seq<char>> {
        if self.save_due(advance, now) {
            Some(file_text(self.entries_after(line, advance)))
        } else {
            None
        }
    }
}

/// What a write asks of the caller.
pub struct WriteOutcome {
    /// The terminal commands to run, in order.
    pub commands: Vec<TermCommand>,
    /// The new content of the history file, where it is to be stored: the
    /// file is emptied and this text written in its place.
    pub saved: Option<String>,
}

impl WriteOutcome {
    pub open spec fn saved_text(self) -> Option<Seq<char>> {
        match self.saved {
            Some(text) => Some(text@),
            None => None,
        }
    }
}

/// The history of the stopwatch.
pub struct History {
    lines: VecDeque<Line>,
    start_row: u16,
    max_rows: u16,
    last_save: u128,
}

impl View for History {
    type V = HistoryModel;

    closed spec fn view(&self) -> HistoryModel {
        HistoryModel {
            entries: self.lines@,
            capacity: self.max_rows as nat,
            start_row: self.start_row as nat,
            last_save: self.last_save as nat,
        }
    }
}

impl History {
    #[verifier::type_invariant]
    pub open spec fn well_formed(self) -> bool {
        self@.wf()
    }

    /// An empty history for a terminal of `terminal_rows` rows, made at `now`.
    pub fn new(terminal_rows: u16, now: u128) -> (history: History)
        requires
            terminal_rows >= RESERVED_ROWS,
        ensures
            history@ == HistoryModel::empty(terminal_rows as nat, now as nat),
            history@.wf(),
    {
        History {
            lines: VecDeque::new(),
            start_row: START_ROW,
            max_rows: terminal_rows - RESERVED_ROWS,
            last_save: now,
        }
    }

    pub fn len(&self) -> (len: u16)
        ensures
            len == self@.entries.len(),
            len <= self@.capacity,
    {
        proof {
            use_type_invariant(self);
        }
        self.lines.len() as u16
    }

    pub fn capacity(&self) -> (capacity: u16)
        ensures
            capacity == self@.capacity,
    {
        self.max_rows
    }

    /// The first terminal row below the entries.
    pub fn active_line(&self) -> (row: u16)
        ensures
            row == self@.active_line(),
            row + 2 <= u16::MAX,
    {
        proof {
            use_type_invariant(self);
        }
        self.len() + self.start_row
    }

    /// The entries, oldest first.
    pub fn entries(&self) -> (entries: Vec<Line>)
        ensures
            entries@ == self@.entries,
    {
        let mut entries: Vec<Line> = Vec::new();
        let n: usize = self.lines.len();
        let mut i: usize = 0;
        while i < n
            invariant
                n == self.lines@.len(),
                i <= n,
                entries@ == self.lines@.take(i as int),
            decreases n - i,
        {
            entries.push(self.lines[i]);
            assert(entries@ =~= self.lines@.take(i + 1));
            i += 1;
        }
        assert(self.lines@.take(n as int) =~= self.lines@);
        entries
    }

    /// The text to store in the history file: every entry as one line,
    /// oldest first. It replaces whatever the file held.
    pub fn update_history(&self) -> (text: String)
        ensures
            text@ == file_text(self@.entries),
    {
        let mut text = String::new();
        let n: usize = self.lines.len();
        let mut i: usize = 0;
        while i < n
            invariant
                n == self.lines@.len(),
                i <= n,
                text@ == file_text(self.lines@.take(i as int)),
            decreases n - i,
        {
            let ghost before = text@;
            let line: Line = self.lines[i];
            let stamp = line.timestamp();
            text.append(line.message);
            text.append(" ");
            text.append(stamp.as_str());
            text.append("\n");
            proof {
                reveal_strlit(" ");
                reveal_strlit("\n");
                let upto = self.lines@.take(i + 1);
                assert(upto.drop_last() =~= self.lines@.take(i as int));
                assert(upto.last() == line);
                assert(text@ =~= before + line.stored_text());
            }
            i += 1;
        }
        assert(self.lines@.take(n as int) =~= self.lines@);
        text
    }

    /// The commands that clear the history's rows and draw every entry again.
    fn redraw(&self) -> (commands: Vec<TermCommand>)
        ensures
            commands.deep_view() == seq![
                TermOp::MoveToRow { row: self@.start_row as u16 },
                TermOp::ClearBelow,
            ] + rows_drawn(self@.entries, self@.start_row),
    {
        proof {
            use_type_invariant(self);
        }
        let ghost head = seq![
            TermOp::MoveToRow { row: self@.start_row as u16 },
            TermOp::ClearBelow,
        ];
        let mut commands: Vec<TermCommand> = Vec::new();
        assert(commands.deep_view() =~= Seq::<TermOp>::empty());
        push_command(&mut commands, TermCommand::MoveToRow { row: self.start_row });
        push_command(&mut commands, TermCommand::ClearBelow);
        assert(commands.deep_view() =~= head + rows_drawn(self.lines@.take(0), self@.start_row));
        let n: usize = self.lines.len();
        let mut i: usize = 0;
        while i < n
            invariant
                n == self.lines@.len(),
                i <= n,
                self@.wf(),
                commands.deep_view() == head + rows_drawn(
                    self.lines@.take(i as int),
                    self@.start_row,
                ),
            decreases n - i,
        {
            let ghost before = commands.deep_view();
            let line: Line = self.lines[i];
            let row: u16 = self.start_row + i as u16;
            push_commands(&mut commands, line.print(row));
            proof {
                let upto = self.lines@.take(i + 1);
                assert(upto.drop_last() =~= self.lines@.take(i as int));
                assert(upto.last() == line);
                assert(commands.deep_view() =~= head + rows_drawn(upto, self@.start_row));
            }
            i += 1;
        }
        assert(self.lines@.take(n as int) =~= self.lines@);
        commands
    }

    /// Writes `line` to the history at `now`.
    ///
    /// A replacing write (`advance` false) puts `line` in the place of the
    /// newest entry, on its row; in an empty history it is drawn on the first
    /// row and not kept. An appending write (`advance` true) adds `line` as
    /// the newest entry; in a full history the oldest entry leaves and all
    /// rows are drawn again. The history is stored on every appending write,
    /// and on any write once `SAVE_INTERVAL` has passed since the last store.
    pub fn write_line(&mut self, line: Line, advance: bool, now: u128) -> (out: WriteOutcome)
        ensures
            final(self)@ == old(self)@.written(line, advance, now as nat),
            out.commands.deep_view() == old(self)@.drawn(line, advance),
            out.saved_text() == old(self)@.saved(line, advance, now as nat),
            final(self)@.wf(),
            !advance ==> final(self)@.entries.len() == old(self)@.entries.len(),
            advance && old(self)@.entries.len() < old(self)@.capacity
                ==> final(self)@.entries == old(self)@.entries.push(line),
            advance && old(self)@.entries.len() == old(self)@.capacity
                ==> final(self)@.entries.len() == old(self)@.capacity,
            advance && 0 < old(self)@.entries.len() == old(self)@.capacity
                ==> final(self)@.entries == old(self)@.entries.skip(1).push(line),
    {
        proof {
            use_type_invariant(&*self);
        }
        let ghost before = self@;
        let count: usize = self.lines.len();
        let full: bool = count >= self.max_rows as usize;
        let row: u16 = if advance || count == 0 {
            self.active_line()
        } else {
            self.active_line() - 1
        };
        // The entries are taken out while they change, so that the history
        // is within its capacity at every step.
        let mut lines: VecDeque<Line> = VecDeque::new();
        core::mem::swap(&mut self.lines, &mut lines);
        if !advance {
            if count > 0 {
                lines.pop_back();
                lines.push_back(line);
            }
        } else {
            if full {
                lines.pop_front();
            }
            if self.max_rows > 0 {
                lines.push_back(line);
            }
        }
        assert(lines@ =~= before.entries_after(line, advance));
        assert(advance && before.entries.len() > 0 && full
            ==> lines@ =~= before.entries.skip(1).push(line));
        self.lines = lines;
        let commands: Vec<TermCommand> = if advance && full {
            self.redraw()
        } else {
            line.print(row)
        };
        let saved: Option<String>;
        if advance || (now >= self.last_save && now - self.last_save >= SAVE_INTERVAL) {
            self.last_save = now;
            saved = Some(self.update_history());
        } else {
            saved = None;
        }
        WriteOutcome { commands, saved }
    }
}

} // verus!
