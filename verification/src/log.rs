//! The history file: one line of text for each entry, oldest first.
//!
//! `file_text` says what is written. `parse_file` says how the text is read
//! back, and `file_reads_back` proves that reading gives what was written.

use crate::line::digit;
use crate::line::padded;
use crate::line::timestamp_text;
use crate::line::Line;
use vstd::prelude::*;

verus! {

/// The text of the history file for these entries: each entry's label, a
/// space, its time and a line feed, in the order of the entries.
pub open spec fn file_text(entries: Seq<Line>) -> Seq<char>
    decreases entries.len(),
{
    if entries.len() == 0 {
        Seq::empty()
    } else {
        file_text(entries.drop_last()) + entries.last().stored_text()
    }
}

/// What a line of the history file tells of an entry: its label and its
/// time. The style is not stored.
pub struct Record {
    pub label: Seq<char>,
    pub hms: (nat, nat, nat),
}

/// What the history file tells of `line`.
pub open spec fn record_of(line: Line) -> Record {
    Record { label: line.message@, hms: (line.hms.0 as nat, line.hms.1 as nat, line.hms.2 as nat) }
}

/// How many characters of `text` come before the first `c`; all of them
/// where there is none.
pub open spec fn length_before(text: Seq<char>, c: char) -> nat
    decreases text.len(),
{
    if text.len() == 0 || text[0] == c {
        0
    } else {
        1 + length_before(text.skip(1), c)
    }
}

/// How many characters of `text` come after the last `c`; all of them where
/// there is none.
pub open spec fn length_after(text: Seq<char>, c: char) -> nat
    decreases text.len(),
{
    if text.len() == 0 || text.last() == c {
        0
    } else {
        1 + length_after(text.drop_last(), c)
    }
}

/// The value of a decimal digit; 0 for any other character.
pub open spec fn digit_value(c: char) -> nat {
    if '0' <= c <= '9' {
        (c as int - 48) as nat
    } else {
        0
    }
}

/// The number that a run of decimal digits writes.
pub open spec fn number(digits: Seq<char>) -> nat
    decreases digits.len(),
{
    if digits.len() == 0 {
        0
    } else {
        number(digits.drop_last()) * 10 + digit_value(digits.last())
    }
}

/// Reads a time: three numbers with a colon after the first and the second.
pub open spec fn parse_time(text: Seq<char>) -> (nat, nat, nat) {
    let hours = length_before(text, ':');
    let rest = text.skip(hours as int + 1);
    let minutes = length_before(rest, ':');
    (number(text.take(hours as int)), number(rest.take(minutes as int)), number(rest.skip(minutes as int + 1)))
}

/// Reads one line, without its line feed: the time is what follows the last
/// space, the label what comes before that space.
pub open spec fn parse_line(line: Seq<char>) -> Record {
    let time = length_after(line, ' ');
    Record {
        label: line.take(line.len() - time - 1),
        hms: parse_time(line.skip(line.len() - time)),
    }
}

/// Reads the history file: one record for each line, in order.
pub open spec fn parse_file(text: Seq<char>) -> Seq<Record>
    decreases text.len(),
{
    if text.len() == 0 {
        Seq::empty()
    } else {
        let first = length_before(text, '\n');
        if first >= text.len() {
            seq![parse_line(text)]
        } else {
            seq![parse_line(text.take(first as int))] + parse_file(text.skip(first as int + 1))
        }
    }
}

/// No character of `text` is `c`.
pub open spec fn free_of(text: Seq<char>, c: char) -> bool {
    forall|i: int| 0 <= i < text.len() ==> text[i] != c
}

proof fn length_before_first(head: Seq<char>, c: char, tail: Seq<char>)
    requires
        free_of(head, c),
    ensures
        length_before(head + seq![c] + tail, c) == head.len(),
    decreases head.len(),
{
    let text = head + seq![c] + tail;
    if head.len() == 0 {
        assert(text[0] == c);
    } else {
        assert(text[0] == head[0]);
        assert(text.skip(1) =~= head.skip(1) + seq![c] + tail);
        assert forall|i: int| 0 <= i < head.skip(1).len() implies head.skip(1)[i] != c by {
            assert(head.skip(1)[i] == head[i + 1]);
        }
        length_before_first(head.skip(1), c, tail);
    }
}

proof fn length_after_last(head: Seq<char>, c: char, tail: Seq<char>)
    requires
        free_of(tail, c),
    ensures
        length_after(head + seq![c] + tail, c) == tail.len(),
    decreases tail.len(),
{
    let text = head + seq![c] + tail;
    if tail.len() == 0 {
        assert(text.last() == c);
    } else {
        assert(text.last() == tail.last());
        assert(text.drop_last() =~= head + seq![c] + tail.drop_last());
        assert forall|i: int| 0 <= i < tail.drop_last().len() implies tail.drop_last()[i]
            != c by {
            assert(tail.drop_last()[i] == tail[i]);
        }
        length_after_last(head, c, tail.drop_last());
    }
}

/// A padded number is made of digits, and reads back as the number.
proof fn padded_reads_back(v: u8)
    ensures
        number(padded(v)) == v,
        2 <= padded(v).len() <= 3,
        forall|i: int| 0 <= i < padded(v).len() ==> '0' <= #[trigger] padded(v)[i] <= '9',
{
    let text = padded(v);
    reveal_with_fuel(number, 4);
    if v < 100 {
        assert(text.drop_last() =~= seq![digit(v as int / 10)]);
        assert(text.drop_last().drop_last() =~= Seq::<char>::empty());
    } else {
        assert(text.drop_last() =~= seq![digit(v as int / 100), digit(v as int / 10 % 10)]);
        assert(text.drop_last().drop_last() =~= seq![digit(v as int / 100)]);
        assert(text.drop_last().drop_last().drop_last() =~= Seq::<char>::empty());
    }
}

/// A time's text is free of spaces and line feeds, and reads back as the
/// time.
proof fn time_reads_back(hms: (u8, u8, u8))
    ensures
        parse_time(timestamp_text(hms)) == (hms.0 as nat, hms.1 as nat, hms.2 as nat),
        free_of(timestamp_text(hms), ' '),
        free_of(timestamp_text(hms), '\n'),
{
    let (h, m, s) = (padded(hms.0), padded(hms.1), padded(hms.2));
    let text = timestamp_text(hms);
    padded_reads_back(hms.0);
    padded_reads_back(hms.1);
    padded_reads_back(hms.2);
    assert(free_of(h, ':'));
    assert(free_of(m, ':'));
    assert forall|i: int| 0 <= i < text.len() implies text[i] != ' ' && text[i] != '\n' by {
        if i < h.len() {
            assert(text[i] == h[i]);
        } else if i == h.len() {
        } else if i < h.len() + 1 + m.len() {
            assert(text[i] == m[i - h.len() - 1]);
        } else if i == h.len() + 1 + m.len() {
        } else {
            assert(text[i] == s[i - h.len() - m.len() - 2]);
        }
    }
    let after_hours = m + seq![':'] + s;
    assert(text =~= h + seq![':'] + after_hours);
    length_before_first(h, ':', after_hours);
    assert(text.take(h.len() as int) =~= h);
    assert(text.skip(h.len() as int + 1) =~= after_hours);
    length_before_first(m, ':', s);
    assert(after_hours.take(m.len() as int) =~= m);
    assert(after_hours.skip(m.len() as int + 1) =~= s);
}

/// An entry's line, without its line feed, reads back as the entry's record.
proof fn line_reads_back(line: Line)
    ensures
        parse_line(line.message@ + seq![' '] + timestamp_text(line.hms)) == record_of(line),
{
    let time = timestamp_text(line.hms);
    let text = line.message@ + seq![' '] + time;
    time_reads_back(line.hms);
    length_after_last(line.message@, ' ', time);
    assert(text.take(text.len() - time.len() - 1) =~= line.message@);
    assert(text.skip(text.len() - time.len()) =~= time);
}

/// The text of a list of entries is the text of its parts, one after the
/// other.
pub proof fn file_text_of_parts(first: Seq<Line>, second: Seq<Line>)
    ensures
        file_text(first + second) == file_text(first) + file_text(second),
    decreases second.len(),
{
    if second.len() == 0 {
        assert(first + second =~= first);
        assert(file_text(first) + file_text(second) =~= file_text(first));
    } else {
        let all = first + second;
        assert(all.drop_last() =~= first + second.drop_last());
        assert(all.last() == second.last());
        file_text_of_parts(first, second.drop_last());
        assert(file_text(all) =~= file_text(first) + file_text(second));
    }
}

/// Reading the history file gives what was written: the records of the
/// entries, in their order. It holds of entries whose labels hold no line
/// feed, which would end the line early.
pub proof fn file_reads_back(entries: Seq<Line>)
    requires
        forall|i: int| 0 <= i < entries.len() ==> free_of(#[trigger] entries[i].message@, '\n'),
    ensures
        parse_file(file_text(entries)) == entries.map_values(|line: Line| record_of(line)),
    decreases entries.len(),
{
    let records = entries.map_values(|line: Line| record_of(line));
    if entries.len() == 0 {
        assert(parse_file(file_text(entries)) =~= records);
    } else {
        let line = entries[0];
        let rest = entries.skip(1);
        let time = timestamp_text(line.hms);
        let body = line.message@ + seq![' '] + time;
        assert(entries =~= seq![line] + rest);
        file_text_of_parts(seq![line], rest);
        assert(seq![line].drop_last() =~= Seq::<Line>::empty());
        assert(file_text(seq![line].drop_last()) =~= Seq::<char>::empty());
        assert(file_text(seq![line]) =~= line.stored_text());
        let text = file_text(entries);
        assert(text =~= body + seq!['\n'] + file_text(rest));
        time_reads_back(line.hms);
        assert(free_of(entries[0].message@, '\n'));
        assert forall|i: int| 0 <= i < body.len() implies body[i] != '\n' by {
            if i < line.message@.len() {
                assert(body[i] == line.message@[i]);
            } else if i == line.message@.len() {
            } else {
                assert(body[i] == time[i - line.message@.len() - 1]);
            }
        }
        length_before_first(body, '\n', file_text(rest));
        assert(text.take(body.len() as int) =~= body);
        assert(text.skip(body.len() as int + 1) =~= file_text(rest));
        line_reads_back(line);
        assert forall|i: int| 0 <= i < rest.len() implies free_of(
            #[trigger] rest[i].message@,
            '\n',
        ) by {
            assert(rest[i] == entries[i + 1]);
        }
        file_reads_back(rest);
        assert(parse_file(text) =~= records);
    }
}

} // verus!
