//! The phase sequencer and its mathematical model.

use vstd::prelude::*;

verus! {

/// One phase of the timer.
#[derive(Debug, Clone, Copy, PartialEq, Eq, Structural)]
pub enum State {
    Stop,
    Pause,
    Work,
    LongBreak,
    ShortBreak,
}

/// Seconds that the timer waits in `Pause` before it resumes on its own.
pub const MAX_PAUSE_TIME: u64 = 3_600;

/// A long break replaces the short one after every this many work intervals.
pub const LONG_BREAK_AFTER: u64 = 4;

/// A long break lasts this many times the configured break.
pub const LONG_BREAK_RATIO: u64 = 4;

/// The abstract state of a [`Pomodoro`]: durations in seconds and the counter
/// as unbounded numbers.
pub struct PomodoroModel {
    pub work: nat,
    pub brk: nat,
    pub count: nat,
    pub prev: State,
    pub state: State,
}

/// The sequencer as it is right after construction: idle, nothing completed.
pub open spec fn fresh(work: nat, brk: nat) -> PomodoroModel {
    PomodoroModel { work, brk, count: 0, prev: State::Pause, state: State::Pause }
}

/// The phase that a production step moves to from `m`.
pub open spec fn successor(m: PomodoroModel) -> State {
    match m.state {
        State::Work => if m.count % (LONG_BREAK_AFTER as nat) != 0 {
            State::ShortBreak
        } else {
            State::LongBreak
        },
        State::ShortBreak => State::Work,
        State::LongBreak => State::Work,
        State::Pause => m.prev,
        State::Stop => State::Stop,
    }
}

/// `m` after a transition into `s`: the current phase becomes the previous
/// one, and entering `Work` completes one more work interval.
pub open spec fn enter(m: PomodoroModel, s: State) -> PomodoroModel {
    PomodoroModel {
        prev: m.state,
        state: s,
        count: if s == State::Work { m.count + 1 } else { m.count },
        ..m
    }
}

/// How long the timer waits once it has entered `s`, in seconds.
pub open spec fn wait_for(m: PomodoroModel, s: State) -> nat {
    match s {
        State::Work => m.work,
        State::ShortBreak => m.brk,
        State::LongBreak => m.brk * (LONG_BREAK_RATIO as nat),
        State::Pause => MAX_PAUSE_TIME as nat,
        State::Stop => 0,
    }
}

/// One production step: `None` once the successor is `Stop`.
pub open spec fn produce(m: PomodoroModel) -> Option<PomodoroModel> {
    if successor(m) == State::Stop {
        None
    } else {
        Some(enter(m, successor(m)))
    }
}

/// `n` production steps from `m`; `None` if the sequence ends on the way.
pub open spec fn run(m: PomodoroModel, n: nat) -> Option<PomodoroModel>
    decreases n,
{
    if n == 0 {
        Some(m)
    } else {
        match run(m, (n - 1) as nat) {
            Some(p) => produce(p),
            None => None,
        }
    }
}

/// The sequencer right after `start` on a fresh one.
pub open spec fn started(work: nat, brk: nat) -> PomodoroModel {
    enter(fresh(work, brk), State::Work)
}

/// The event of one transition: the phase left, the phase entered, and the
/// number of seconds to wait in the new phase.
#[derive(Debug, Clone, Copy, PartialEq, Eq, Structural)]
pub struct PhaseChange {
    pub from: State,
    pub to: State,
    pub wait_secs: u64,
}

/// Why a sequencer cannot be built from the given durations.
#[derive(Debug, Clone, Copy, PartialEq, Eq, Structural)]
pub enum ConfigError {
    /// The long break, `LONG_BREAK_RATIO` times the break, does not fit in `u64` seconds.
    BreakTooLong,
}

/// The phase sequencer: durations in seconds, the number of completed work
/// intervals, and the last two phases.
pub struct Pomodoro {
    dur: u64,
    brk: u64,
    pomodoros: u64,
    prev_state: State,
    state: State,
}

impl View for Pomodoro {
    type V = PomodoroModel;

    closed spec fn view(&self) -> PomodoroModel {
        PomodoroModel {
            work: self.dur as nat,
            brk: self.brk as nat,
            count: self.pomodoros as nat,
            prev: self.prev_state,
            state: self.state,
        }
    }
}

impl Pomodoro {
    /// The long break fits in `u64` seconds.
    pub open spec fn wf(&self) -> bool {
        self@.brk * (LONG_BREAK_RATIO as nat) <= u64::MAX as nat
    }

    /// A sequencer in `Pause` with nothing completed. Fails exactly when the
    /// long break would not fit in `u64` seconds.
    pub fn new(dur: u64, brk: u64) -> (r: Result<Pomodoro, ConfigError>)
        ensures
            r is Ok <==> brk as nat * (LONG_BREAK_RATIO as nat) <= u64::MAX as nat,
            r matches Ok(p) ==> p.wf() && p@ == fresh(dur as nat, brk as nat),
            r matches Err(e) ==> e == ConfigError::BreakTooLong,
    {
        if brk > u64::MAX / LONG_BREAK_RATIO {
            Err(ConfigError::BreakTooLong)
        } else {
            Ok(Pomodoro { dur, brk, pomodoros: 0, prev_state: State::Pause, state: State::Pause })
        }
    }

    /// Moves into `state` and reports the transition, with the wait that
    /// belongs to the new phase.
    fn change(&mut self, state: State) -> (r: PhaseChange)
        requires
            old(self).wf(),
            state == State::Work ==> old(self)@.count < u64::MAX,
        ensures
            final(self).wf(),
            final(self)@ == enter(old(self)@, state),
            r == (PhaseChange {
                from: old(self)@.state,
                to: state,
                wait_secs: wait_for(old(self)@, state) as u64,
            }),
            wait_for(old(self)@, state) <= u64::MAX,
    {
        self.prev_state = self.state;
        self.state = state;
        if state == State::Work {
            self.pomodoros = self.pomodoros + 1;
        }
        let wait_secs: u64 = match state {
            State::Work => self.dur,
            State::ShortBreak => self.brk,
            State::LongBreak => self.brk * LONG_BREAK_RATIO,
            State::Pause => MAX_PAUSE_TIME,
            State::Stop => 0,
        };
        PhaseChange { from: self.prev_state, to: state, wait_secs }
    }

    /// Begins the cycle: enters `Work` whatever the current phase.
    pub fn start(&mut self) -> (r: PhaseChange)
        requires
            old(self).wf(),
            old(self)@.count < u64::MAX,
        ensures
            final(self).wf(),
            final(self)@ == enter(old(self)@, State::Work),
            r == (PhaseChange {
                from: old(self)@.state,
                to: State::Work,
                wait_secs: old(self)@.work as u64,
            }),
    {
        self.change(State::Work)
    }

    /// Interrupts the current phase: enters `Pause`, remembering the phase it
    /// left, to which the next production step returns.
    pub fn pause(&mut self) -> (r: PhaseChange)
        requires
            old(self).wf(),
        ensures
            final(self).wf(),
            final(self)@ == enter(old(self)@, State::Pause),
            r == (PhaseChange { from: old(self)@.state, to: State::Pause, wait_secs: MAX_PAUSE_TIME }),
    {
        self.change(State::Pause)
    }

    /// Ends the cycle: enters `Stop`, after which production yields nothing.
    pub fn stop(&mut self) -> (r: PhaseChange)
        requires
            old(self).wf(),
        ensures
            final(self).wf(),
            final(self)@ == enter(old(self)@, State::Stop),
            r == (PhaseChange { from: old(self)@.state, to: State::Stop, wait_secs: 0 }),
    {
        self.change(State::Stop)
    }

    /// The phase that the next production step moves to; `Stop` when it
    /// yields nothing.
    pub fn upcoming(&self) -> (r: State)
        ensures
            r == successor(self@),
    {
        match self.state {
            State::Work => if self.pomodoros % LONG_BREAK_AFTER != 0 {
                State::ShortBreak
            } else {
                State::LongBreak
            },
            State::ShortBreak => State::Work,
            State::LongBreak => State::Work,
            State::Pause => self.prev_state,
            State::Stop => State::Stop,
        }
    }

    /// One production step: computes the successor of the current phase and
    /// moves into it, or yields `None` and changes nothing once that is `Stop`.
    pub fn next(&mut self) -> (r: Option<PhaseChange>)
        requires
            old(self).wf(),
            successor(old(self)@) == State::Work ==> old(self)@.count < u64::MAX,
        ensures
            final(self).wf(),
            match produce(old(self)@) {
                None => r is None && final(self)@ == old(self)@,
                Some(m) => final(self)@ == m && r == Some(
                    PhaseChange {
                        from: old(self)@.state,
                        to: m.state,
                        wait_secs: wait_for(old(self)@, m.state) as u64,
                    },
                ),
            },
            r matches Some(e) ==> e.wait_secs == wait_for(old(self)@, e.to),
    {
        let next = self.upcoming();
        match next {
            State::Stop => None,
            _ => Some(self.change(next)),
        }
    }

    /// The current phase.
    pub fn state(&self) -> (r: State)
        ensures
            r == self@.state,
    {
        self.state
    }

    /// The phase before the current one.
    pub fn prev_state(&self) -> (r: State)
        ensures
            r == self@.prev,
    {
        self.prev_state
    }

    /// The number of work intervals entered so far.
    pub fn pomodoros(&self) -> (r: u64)
        ensures
            r as nat == self@.count,
    {
        self.pomodoros
    }

    /// The configured work duration, in seconds.
    pub fn work_secs(&self) -> (r: u64)
        ensures
            r as nat == self@.work,
    {
        self.dur
    }

    /// The configured break duration, in seconds.
    pub fn break_secs(&self) -> (r: u64)
        ensures
            r as nat == self@.brk,
    {
        self.brk
    }
}

} // verus!
