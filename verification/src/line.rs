//! A history entry: a label, a time and a style.

use crate::clock::is_time_of_day;
use crate::clock::time_of_day;
use crate::terminal::push_command;
use crate::terminal::Color;
use crate::terminal::TermCommand;
use crate::terminal::TermOp;
use vstd::prelude::*;
use vstd::string::StringExecFns;

verus! {

/// The character of a decimal digit.
pub open spec fn digit(d: int) -> char {
    (d + 48) as char
}

/// A number in decimal, with a leading zero where it has one digit only.
pub open spec fn padded(v: u8) -> Seq<char> {
    if v < 100 {
        seq![digit(v as int / 10), digit(v as int % 10)]
    } else {
        seq![digit(v as int / 100), digit(v as int / 10 % 10), digit(v as int % 10)]
    }
}

/// Hours, minutes and seconds, separated by colons.
pub open spec fn timestamp_text(hms: (u8, u8, u8)) -> Seq<char> {
    padded(hms.0) + seq![':'] + padded(hms.1) + seq![':'] + padded(hms.2)
}

fn digit_str(d: u8) -> (s: &'static str)
    requires
        d < 10,
    ensures
        s@ == seq![digit(d as int)],
{
    proof {
        reveal_strlit("0");
        reveal_strlit("1");
        reveal_strlit("2");
        reveal_strlit("3");
        reveal_strlit("4");
        reveal_strlit("5");
        reveal_strlit("6");
        reveal_strlit("7");
        reveal_strlit("8");
        reveal_strlit("9");
    }
    let s = match d {
        0 => "0",
        1 => "1",
        2 => "2",
        3 => "3",
        4 => "4",
        5 => "5",
        6 => "6",
        7 => "7",
        8 => "8",
        _ => "9",
    };
    assert(s@ =~= seq![digit(d as int)]);
    s
}

fn push_padded(out: &mut String, v: u8)
    ensures
        final(out)@ == old(out)@ + padded(v),
{
    let ghost before = out@;
    if v >= 100 {
        out.append(digit_str(v / 100));
    }
    out.append(digit_str(v / 10 % 10));
    out.append(digit_str(v % 10));
    assert(out@ =~= before + padded(v));
}

/// The text of a time: `HH:MM:SS`.
pub fn timestamp(hms: (u8, u8, u8)) -> (text: String)
    ensures
        text@ == timestamp_text(hms),
{
    proof {
        reveal_strlit(":");
    }
    let mut text = String::new();
    push_padded(&mut text, hms.0);
    text.append(":");
    push_padded(&mut text, hms.1);
    text.append(":");
    push_padded(&mut text, hms.2);
    assert(text@ =~= timestamp_text(hms));
    text
}

/// The column at which every entry's time starts.
pub const TIME_X: u16 = 14;

pub const NANOS_PER_SECOND: u128 = 1_000_000_000;

/// A duration in nanoseconds as hours, minutes and seconds. The hours are not
/// wrapped to a day; they are kept to what a byte holds.
pub open spec fn duration_hms(nanos: nat) -> (u8, u8, u8) {
    let secs = nanos / (NANOS_PER_SECOND as nat);
    ((secs / 3600 % 256) as u8, (secs % 3600 / 60) as u8, (secs % 60) as u8)
}

/// One entry of the history: a label, a time and how to draw them.
#[derive(Clone, Copy, Debug, PartialEq, Eq)]
pub struct Line {
    pub message: &'static str,
    pub hms: (u8, u8, u8),
    pub color: Color,
    pub bold: bool,
    pub italic: bool,
}

impl Line {
    /// The plain entry with this label and time: default colour, no emphasis.
    pub open spec fn plain(message: &'static str, hms: (u8, u8, u8)) -> Line {
        Line { message, hms, color: Color::Reset, bold: false, italic: false }
    }

    pub open spec fn with_color(self, color: Color) -> Line {
        Line { color, ..self }
    }

    pub open spec fn with_bold(self) -> Line {
        Line { bold: true, ..self }
    }

    pub open spec fn with_italic(self) -> Line {
        Line { italic: true, ..self }
    }

    /// What drawing the entry on a row does: set the colour, write the label
    /// from the first column, write the time from column `TIME_X`.
    pub open spec fn drawn_at(self, row: u16) -> Seq<TermOp> {
        seq![
            TermOp::SetForeground { color: self.color },
            TermOp::MoveTo { column: 0, row },
            TermOp::Print { text: self.message@, bold: self.bold, italic: self.italic },
            TermOp::MoveTo { column: TIME_X, row },
            TermOp::Print { text: timestamp_text(self.hms), bold: self.bold, italic: self.italic },
        ]
    }

    /// The entry as one line of the history file.
    pub open spec fn stored_text(self) -> Seq<char> {
        self.message@ + seq![' '] + timestamp_text(self.hms) + seq!['\n']
    }

    pub fn new(message: &'static str, hms: (u8, u8, u8)) -> (line: Line)
        ensures
            line == Line::plain(message, hms),
    {
        Line { message, hms, color: Color::Reset, bold: false, italic: false }
    }

    /// An entry that shows a duration, given in nanoseconds.
    pub fn from_duration(message: &'static str, nanos: u128) -> (line: Line)
        ensures
            line == Line::plain(message, duration_hms(nanos as nat)),
    {
        let secs: u128 = nanos / NANOS_PER_SECOND;
        let hours: u128 = secs / 3600 % 256;
        let minutes: u128 = secs % 3600 / 60;
        let seconds: u128 = secs % 60;
        Line::new(message, (hours as u8, minutes as u8, seconds as u8))
    }

    /// An entry that shows the time of day of a date and time. Which time
    /// that is rests with chrono; it is a time of day.
    pub fn from_datetime(message: &'static str, d: chrono::NaiveDateTime) -> (line: Line)
        ensures
            is_time_of_day(line.hms),
            line == Line::plain(message, line.hms),
    {
        Line::new(message, time_of_day(&d))
    }

    pub fn color(self, color: Color) -> (line: Line)
        ensures
            line == self.with_color(color),
    {
        Line { color, ..self }
    }

    pub fn bold(self) -> (line: Line)
        ensures
            line == self.with_bold(),
    {
        Line { bold: true, ..self }
    }

    pub fn italic(self) -> (line: Line)
        ensures
            line == self.with_italic(),
    {
        Line { italic: true, ..self }
    }

    /// The text of the entry's time.
    pub fn timestamp(&self) -> (text: String)
        ensures
            text@ == timestamp_text(self.hms),
    {
        timestamp(self.hms)
    }

    /// The commands that draw the entry on row `line` of the terminal.
    pub fn print(&self, line: u16) -> (commands: Vec<TermCommand>)
        ensures
            commands.deep_view() == self.drawn_at(line),
    {
        let mut commands: Vec<TermCommand> = Vec::new();
        assert(commands.deep_view() =~= Seq::<TermOp>::empty());
        push_command(&mut commands, TermCommand::SetForeground { color: self.color });
        push_command(&mut commands, TermCommand::MoveTo { column: 0, row: line });
        push_command(
            &mut commands,
            TermCommand::Print {
                text: String::from_str(self.message),
                bold: self.bold,
                italic: self.italic,
            },
        );
        push_command(&mut commands, TermCommand::MoveTo { column: TIME_X, row: line });
        push_command(
            &mut commands,
            TermCommand::Print { text: self.timestamp(), bold: self.bold, italic: self.italic },
        );
        assert(commands.deep_view() =~= self.drawn_at(line));
        commands
    }
}

} // verus!
