use datimer::history::History;
use datimer::history::SAVE_INTERVAL;
use datimer::line::Line;
use datimer::terminal::Color;
use datimer::terminal::TermCommand;

fn entry(label: &'static str, second: u8) -> Line {
    Line::new(label, (0, 0, second))
}

/// A history of the given capacity.
fn history_of(capacity: u16) -> History {
    History::new(capacity + 6, 0)
}

fn text(s: &str) -> TermCommand {
    TermCommand::Print { text: s.to_string(), bold: false, italic: false }
}

fn drawn(label: &str, time: &str, row: u16) -> Vec<TermCommand> {
    vec![
        TermCommand::SetForeground { color: Color::Reset },
        TermCommand::MoveTo { column: 0, row },
        text(label),
        TermCommand::MoveTo { column: 14, row },
        text(time),
    ]
}

#[test]
fn a_new_history_is_empty_and_leaves_six_rows() {
    let history = History::new(30, 0);
    assert_eq!(history.len(), 0);
    assert_eq!(history.capacity(), 24);
    assert_eq!(history.active_line(), 4);
    assert_eq!(history.entries(), vec![]);
    assert_eq!(history.update_history(), "");
    assert_eq!(History::new(6, 0).capacity(), 0);
    assert_eq!(History::new(65535, 0).capacity(), 65529);
}

#[test]
fn replace_on_an_empty_history_draws_on_the_first_row_and_keeps_nothing() {
    let mut history = history_of(3);
    let out = history.write_line(entry("Elapsed:", 1), false, 5);
    assert_eq!(history.len(), 0);
    assert_eq!(history.active_line(), 4);
    assert_eq!(out.commands, drawn("Elapsed:", "00:00:01", 4));
    assert_eq!(out.saved, None);
}

#[test]
fn replace_puts_the_line_in_place_of_the_newest() {
    let mut history = history_of(5);
    history.write_line(entry("a", 1), true, 0);
    history.write_line(entry("b", 2), true, 0);
    let out = history.write_line(entry("c", 3), false, 1);
    assert_eq!(history.entries(), vec![entry("a", 1), entry("c", 3)]);
    assert_eq!(history.len(), 2);
    assert_eq!(out.commands, drawn("c", "00:00:03", 5));
    assert_eq!(out.saved, None);
}

#[test]
fn replace_never_changes_the_length() {
    for capacity in 0..4u16 {
        let mut history = history_of(capacity);
        for filled in 0..=capacity {
            let before = history.len();
            assert_eq!(before, filled);
            history.write_line(entry("r", 9), false, 1);
            history.write_line(entry("r", 8), false, 2);
            assert_eq!(history.len(), before);
            history.write_line(entry("a", filled as u8), true, 3);
        }
    }
}

#[test]
fn append_below_capacity_draws_on_the_next_free_row() {
    let mut history = history_of(3);
    let out = history.write_line(entry("a", 1), true, 0);
    assert_eq!(out.commands, drawn("a", "00:00:01", 4));
    assert_eq!(history.len(), 1);
    assert_eq!(history.active_line(), 5);
    let out = history.write_line(entry("b", 2), true, 0);
    assert_eq!(out.commands, drawn("b", "00:00:02", 5));
    assert_eq!(history.len(), 2);
    let out = history.write_line(entry("c", 3), true, 0);
    assert_eq!(out.commands, drawn("c", "00:00:03", 6));
    assert_eq!(history.len(), 3);
    assert_eq!(history.active_line(), 7);
    assert_eq!(history.entries(), vec![entry("a", 1), entry("b", 2), entry("c", 3)]);
}

#[test]
fn append_at_capacity_evicts_the_oldest_and_redraws_every_row() {
    let mut history = history_of(3);
    history.write_line(entry("a", 1), true, 0);
    history.write_line(entry("b", 2), true, 0);
    history.write_line(entry("c", 3), true, 0);
    let out = history.write_line(entry("d", 4), true, 0);
    assert_eq!(history.len(), 3);
    assert_eq!(history.entries(), vec![entry("b", 2), entry("c", 3), entry("d", 4)]);
    let mut expected = vec![TermCommand::MoveToRow { row: 4 }, TermCommand::ClearBelow];
    expected.extend(drawn("b", "00:00:02", 4));
    expected.extend(drawn("c", "00:00:03", 5));
    expected.extend(drawn("d", "00:00:04", 6));
    assert_eq!(out.commands, expected);
    assert_eq!(out.saved, Some("b 00:00:02\nc 00:00:03\nd 00:00:04\n".to_string()));
}

#[test]
fn the_history_never_exceeds_its_capacity() {
    for capacity in 0..5u16 {
        let mut history = history_of(capacity);
        for i in 0..20u8 {
            history.write_line(entry("x", i), i % 3 != 0, i as u128);
            assert!(history.len() <= capacity);
            assert_eq!(history.capacity(), capacity);
        }
        assert_eq!(history.len(), capacity);
    }
}

#[test]
fn entries_leave_in_the_order_they_came() {
    let mut history = history_of(2);
    for i in 0..10u8 {
        history.write_line(entry("n", i), true, 0);
        let kept = history.entries();
        if i >= 1 {
            assert_eq!(kept, vec![entry("n", i - 1), entry("n", i)]);
        }
    }
}

#[test]
fn a_history_without_rows_keeps_nothing() {
    let mut history = history_of(0);
    let out = history.write_line(entry("a", 1), true, 0);
    assert_eq!(history.len(), 0);
    assert_eq!(out.commands, vec![TermCommand::MoveToRow { row: 4 }, TermCommand::ClearBelow]);
    assert_eq!(out.saved, Some(String::new()));
    let out = history.write_line(entry("b", 2), false, 0);
    assert_eq!(history.len(), 0);
    assert_eq!(out.commands, drawn("b", "00:00:02", 4));
}

#[test]
fn every_append_stores_the_history_as_it_is_after_it() {
    let mut history = history_of(4);
    let out = history.write_line(Line::new("Paused at:", (10, 0, 5)), true, 1);
    assert_eq!(out.saved, Some("Paused at: 10:00:05\n".to_string()));
    let out = history.write_line(Line::new("Elapsed:", (0, 0, 5)).italic(), true, 1);
    assert_eq!(out.saved, Some("Paused at: 10:00:05\nElapsed: 00:00:05\n".to_string()));
}

#[test]
fn a_replace_stores_only_once_the_interval_has_passed() {
    let mut history = History::new(10, 100);
    history.write_line(entry("a", 1), true, 100);
    let out = history.write_line(entry("b", 2), false, 100 + SAVE_INTERVAL - 1);
    assert_eq!(out.saved, None);
    let out = history.write_line(entry("c", 3), false, 100 + SAVE_INTERVAL);
    assert_eq!(out.saved, Some("c 00:00:03\n".to_string()));
    // The interval starts again at the store.
    let out = history.write_line(entry("d", 4), false, 100 + 2 * SAVE_INTERVAL - 1);
    assert_eq!(out.saved, None);
    let out = history.write_line(entry("e", 5), false, 100 + 2 * SAVE_INTERVAL);
    assert_eq!(out.saved, Some("e 00:00:05\n".to_string()));
}

#[test]
fn the_interval_is_twenty_seconds() {
    assert_eq!(SAVE_INTERVAL, 20_000_000_000);
    assert_eq!(std::time::Duration::from_secs(20).as_nanos(), SAVE_INTERVAL);
}

#[test]
fn an_append_restarts_the_interval() {
    let mut history = History::new(10, 0);
    history.write_line(entry("a", 1), true, SAVE_INTERVAL - 1);
    let out = history.write_line(entry("b", 2), false, SAVE_INTERVAL);
    assert_eq!(out.saved, None);
    let out = history.write_line(entry("c", 3), false, 2 * SAVE_INTERVAL - 1);
    assert_eq!(out.saved, Some("c 00:00:03\n".to_string()));
}

#[test]
fn a_clock_that_went_back_stores_nothing_on_replace() {
    let mut history = History::new(10, 50 * SAVE_INTERVAL);
    let out = history.write_line(entry("a", 1), false, 0);
    assert_eq!(out.saved, None);
}

#[test]
fn a_replace_on_an_empty_history_stores_an_empty_file_when_due() {
    let mut history = History::new(10, 0);
    let out = history.write_line(entry("a", 1), false, SAVE_INTERVAL);
    assert_eq!(out.saved, Some(String::new()));
    assert_eq!(history.len(), 0);
}

#[test]
fn update_history_writes_one_line_for_each_entry() {
    let mut history = history_of(3);
    history.write_line(Line::new("Paused at:", (9, 5, 0)).color(Color::Red), true, 0);
    history.write_line(Line::new("Elapsed:", (0, 1, 2)).italic(), true, 0);
    history.write_line(Line::new("Resumed at:", (9, 6, 30)).color(Color::Green), true, 0);
    assert_eq!(
        history.update_history(),
        "Paused at: 09:05:00\nElapsed: 00:01:02\nResumed at: 09:06:30\n"
    );
}

#[test]
fn a_full_history_ends_three_rows_above_the_bottom() {
    let rows: u16 = 40;
    let mut history = History::new(rows, 0);
    for _ in 0..history.capacity() {
        history.write_line(entry("x", 0), true, 0);
    }
    assert_eq!(history.len(), 34);
    assert_eq!(history.active_line(), rows - 2);
    let out = history.write_line(entry("y", 1), false, 0);
    assert_eq!(out.commands, drawn("y", "00:00:01", rows - 3));
}
