//! The terminal, seen as a list of commands to run in order.

use vstd::prelude::*;

verus! {

/// Foreground colours the stopwatch draws with.
#[derive(Clone, Copy, Debug, PartialEq, Eq)]
pub enum Color {
    Reset,
    Cyan,
    Green,
    Red,
}

/// One instruction for the terminal.
#[derive(Clone, Debug, PartialEq, Eq)]
pub enum TermCommand {
    HideCursor,
    ShowCursor,
    /// Erase the whole screen.
    ClearAll,
    /// Erase from the cursor's row to the bottom of the screen.
    ClearBelow,
    MoveTo { column: u16, row: u16 },
    /// Move to a row and keep the column.
    MoveToRow { row: u16 },
    SetForeground { color: Color },
    Print { text: String, bold: bool, italic: bool },
}

/// What a `TermCommand` says, with its text as a sequence of characters.
pub enum TermOp {
    HideCursor,
    ShowCursor,
    ClearAll,
    ClearBelow,
    MoveTo { column: u16, row: u16 },
    MoveToRow { row: u16 },
    SetForeground { color: Color },
    Print { text: Seq<char>, bold: bool, italic: bool },
}

impl DeepView for TermCommand {
    type V = TermOp;

    open spec fn deep_view(&self) -> TermOp {
        match *self {
            TermCommand::HideCursor => TermOp::HideCursor,
            TermCommand::ShowCursor => TermOp::ShowCursor,
            TermCommand::ClearAll => TermOp::ClearAll,
            TermCommand::ClearBelow => TermOp::ClearBelow,
            TermCommand::MoveTo { column, row } => TermOp::MoveTo { column, row },
            TermCommand::MoveToRow { row } => TermOp::MoveToRow { row },
            TermCommand::SetForeground { color } => TermOp::SetForeground { color },
            TermCommand::Print { text, bold, italic } => TermOp::Print { text: text@, bold, italic },
        }
    }
}

/// Appends one command; the list's meaning grows by that command's meaning.
pub fn push_command(commands: &mut Vec<TermCommand>, command: TermCommand)
    ensures
        final(commands).deep_view() == old(commands).deep_view().push(command.deep_view()),
{
    let ghost before = commands.deep_view();
    let ghost op = command.deep_view();
    commands.push(command);
    assert(commands.deep_view() =~= before.push(op));
}

/// Appends a whole list of commands, in order.
pub fn push_commands(commands: &mut Vec<TermCommand>, more: Vec<TermCommand>)
    ensures
        final(commands).deep_view() == old(commands).deep_view() + more.deep_view(),
{
    let ghost before = commands.deep_view();
    let ghost added = more.deep_view();
    let mut more = more;
    commands.append(&mut more);
    assert(commands.deep_view() =~= before + added);
}

} // verus!
