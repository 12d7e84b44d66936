//! The pause/resume timer.
//!
//! Instants and durations are counted in nanoseconds; an instant is the time
//! since some fixed origin of a clock that does not run backwards.

use vstd::prelude::*;

verus! {

#[derive(Clone, Copy, Debug, PartialEq, Eq)]
pub enum TimerState {
    Running,
    Paused,
}

/// The timer as mathematics: unbounded numbers, no machine limits.
pub struct TimerModel {
    /// What earlier running intervals add up to; the current one is not in it.
    pub running_total: nat,
    /// When the current running interval began. Read only while running.
    pub anchor: nat,
    pub state: TimerState,
}

/// The time from `anchor` to `now`, and nothing where `now` is the earlier.
pub open spec fn since(anchor: nat, now: nat) -> nat {
    if now >= anchor {
        (now - anchor) as nat
    } else {
        0
    }
}

impl TimerModel {
    /// A timer that starts to run at `now` with nothing on it.
    pub open spec fn started(now: nat) -> TimerModel {
        TimerModel { running_total: 0, anchor: now, state: TimerState::Running }
    }

    /// The time to display at `now`.
    pub open spec fn elapsed(self, now: nat) -> nat {
        match self.state {
            TimerState::Running => self.running_total + since(self.anchor, now),
            TimerState::Paused => self.running_total,
        }
    }

    /// The timer after a pause/resume command at `now`. Pausing commits the
    /// current interval; resuming starts a new one.
    pub open spec fn toggled(self, now: nat) -> TimerModel {
        match self.state {
            TimerState::Running => TimerModel {
                running_total: self.running_total + since(self.anchor, now),
                anchor: self.anchor,
                state: TimerState::Paused,
            },
            TimerState::Paused => TimerModel {
                running_total: self.running_total,
                anchor: now,
                state: TimerState::Running,
            },
        }
    }

    /// The timer after a pause/resume command at each of `times`, in order.
    pub open spec fn toggled_at_each(self, times: Seq<nat>) -> TimerModel
        decreases times.len(),
    {
        if times.len() == 0 {
            self
        } else {
            self.toggled_at_each(times.drop_last()).toggled(times.last())
        }
    }
}

/// The timer of the stopwatch.
pub struct Timer {
    running_total: u128,
    anchor: u128,
    state: TimerState,
}

impl View for Timer {
    type V = TimerModel;

    closed spec fn view(&self) -> TimerModel {
        TimerModel {
            running_total: self.running_total as nat,
            anchor: self.anchor as nat,
            state: self.state,
        }
    }
}

impl Timer {
    /// A timer that starts to run at `now`.
    pub fn new(now: u128) -> (timer: Timer)
        ensures
            timer@ == TimerModel::started(now as nat),
    {
        Timer { running_total: 0, anchor: now, state: TimerState::Running }
    }

    pub fn state(&self) -> (state: TimerState)
        ensures
            state == self@.state,
    {
        self.state
    }

    pub fn running_total(&self) -> (total: u128)
        ensures
            total == self@.running_total,
    {
        self.running_total
    }

    pub fn anchor(&self) -> (anchor: u128)
        ensures
            anchor == self@.anchor,
    {
        self.anchor
    }

    /// Whether the time to display at `now` still fits the machine's numbers.
    /// `elapsed` and `toggle` ask for it.
    pub fn fits(&self, now: u128) -> (fits: bool)
        ensures
            fits == (self@.elapsed(now as nat) <= u128::MAX),
    {
        match self.state {
            TimerState::Running => {
                let interval: u128 = if now >= self.anchor {
                    now - self.anchor
                } else {
                    0
                };
                interval <= u128::MAX - self.running_total
            },
            TimerState::Paused => true,
        }
    }

    /// The time to display at `now`: while running, the committed total plus
    /// the current interval; while paused, the committed total alone.
    pub fn elapsed(&self, now: u128) -> (elapsed: u128)
        requires
            self@.elapsed(now as nat) <= u128::MAX,
        ensures
            elapsed == self@.elapsed(now as nat),
            self@.state == TimerState::Running && now >= self@.anchor ==> elapsed
                == self@.running_total + (now - self@.anchor),
            self@.state == TimerState::Paused ==> elapsed == self@.running_total,
    {
        match self.state {
            TimerState::Running => {
                let interval: u128 = if now >= self.anchor {
                    now - self.anchor
                } else {
                    0
                };
                self.running_total + interval
            },
            TimerState::Paused => self.running_total,
        }
    }

    /// Pause a running timer, or resume a paused one, at `now`.
    pub fn toggle(&mut self, now: u128)
        requires
            old(self)@.elapsed(now as nat) <= u128::MAX,
        ensures
            final(self)@ == old(self)@.toggled(now as nat),
            final(self)@.running_total >= old(self)@.running_total,
            old(self)@.state == TimerState::Paused ==> final(self)@.running_total == old(
                self,
            )@.running_total,
    {
        match self.state {
            TimerState::Running => {
                self.running_total = self.elapsed(now);
                self.state = TimerState::Paused;
            },
            TimerState::Paused => {
                self.anchor = now;
                self.state = TimerState::Running;
            },
        }
    }
}

/// A pause/resume command never takes time off the committed total, and a
/// command given to a paused timer leaves the total as it is.
pub proof fn toggle_keeps_total(timer: TimerModel, now: nat)
    ensures
        timer.toggled(now).running_total >= timer.running_total,
        timer.state == TimerState::Paused ==> timer.toggled(now).running_total
            == timer.running_total,
        timer.state == TimerState::Running ==> timer.toggled(now).running_total
            == timer.running_total + since(timer.anchor, now),
        timer.toggled(now).state != timer.state,
{
}

/// Over any sequence of pause/resume commands the committed total never
/// shrinks: it is at least what it was after any earlier part of the sequence.
pub proof fn total_never_shrinks(timer: TimerModel, times: Seq<nat>, earlier: int)
    requires
        0 <= earlier <= times.len(),
    ensures
        timer.toggled_at_each(times.take(earlier)).running_total <= timer.toggled_at_each(
            times,
        ).running_total,
    decreases times.len(),
{
    if earlier == times.len() {
        assert(times.take(earlier) =~= times);
    } else {
        let shorter = times.drop_last();
        assert(shorter.take(earlier) =~= times.take(earlier));
        total_never_shrinks(timer, shorter, earlier);
        toggle_keeps_total(timer.toggled_at_each(shorter), times.last());
    }
}

/// While the timer is running the displayed time is the committed total plus
/// the time since the anchor; while it is paused it is the committed total,
/// whatever the clock shows.
pub proof fn elapsed_is_total_plus_interval(timer: TimerModel, now: nat, later: nat)
    ensures
        timer.state == TimerState::Running && now >= timer.anchor ==> timer.elapsed(now)
            == timer.running_total + (now - timer.anchor),
        timer.state == TimerState::Paused ==> timer.elapsed(now) == timer.running_total
            && timer.elapsed(later) == timer.elapsed(now),
{
}

} // verus!
