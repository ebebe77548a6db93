//! Properties of whole runs of the phase sequencer, stated over its model.

use vstd::prelude::*;

use crate::domodoro::{enter, produce, run, started, successor, PomodoroModel, State};

verus! {

/// How many of the first `n` production steps from `m` entered `Work`.
pub open spec fn work_entries(m: PomodoroModel, n: nat) -> nat
    decreases n,
{
    if n == 0 {
        0
    } else {
        work_entries(m, (n - 1) as nat) + match run(m, n) {
            Some(p) => if p.state == State::Work { 1nat } else { 0nat },
            None => 0nat,
        }
    }
}

/// After `start`, production never ends and alternates strictly: every even
/// step is in `Work`, every odd one in a short or a long break. After `n`
/// steps, `n / 2 + 1` work intervals have been entered, and a break is long
/// exactly when the number of work intervals before it is a multiple of four.
pub proof fn lemma_cycle(work: nat, brk: nat, n: nat)
    ensures
        run(started(work, brk), n) is Some,
        run(started(work, brk), n)->0.count == n / 2 + 1,
        n % 2 == 0 ==> run(started(work, brk), n)->0.state == State::Work,
        n % 2 == 1 ==> run(started(work, brk), n)->0.state == State::ShortBreak
            || run(started(work, brk), n)->0.state == State::LongBreak,
        n % 2 == 1 ==> (run(started(work, brk), n)->0.state == State::LongBreak
            <==> run(started(work, brk), n)->0.count % 4 == 0),
    decreases n,
{
    if n > 0 {
        lemma_cycle(work, brk, (n - 1) as nat);
    }
}

/// Two consecutive phases after `start` are never both `Work` and never both
/// breaks.
pub proof fn lemma_alternation(work: nat, brk: nat, n: nat)
    ensures
        (run(started(work, brk), n)->0.state == State::Work)
            != (run(started(work, brk), n + 1)->0.state == State::Work),
{
    lemma_cycle(work, brk, n);
    lemma_cycle(work, brk, n + 1);
}

/// Over any run, the counter of work intervals grows by exactly the number of
/// steps that entered `Work`.
pub proof fn lemma_count_is_work_entries(m: PomodoroModel, n: nat)
    requires
        run(m, n) is Some,
    ensures
        run(m, n)->0.count == m.count + work_entries(m, n),
    decreases n,
{
    if n > 0 {
        lemma_count_is_work_entries(m, (n - 1) as nat);
    }
}

/// Over any run, the counter of work intervals never decreases.
pub proof fn lemma_count_monotone(m: PomodoroModel, i: nat, j: nat)
    requires
        i <= j,
        run(m, j) is Some,
    ensures
        run(m, i) is Some,
        run(m, i)->0.count <= run(m, j)->0.count,
    decreases j - i,
{
    if i < j {
        lemma_count_monotone(m, i, (j - 1) as nat);
        lemma_count_monotone(m, (j - 1) as nat, (j - 1) as nat);
    }
}

/// Pausing in any phase but `Stop` and then producing once returns to that
/// phase.
pub proof fn lemma_pause_resume(m: PomodoroModel)
    requires
        m.state != State::Stop,
    ensures
        produce(enter(m, State::Pause)) == Some(enter(enter(m, State::Pause), m.state)),
        produce(enter(m, State::Pause))->0.state == m.state,
{
    assert(successor(enter(m, State::Pause)) == m.state);
}

} // verus!
