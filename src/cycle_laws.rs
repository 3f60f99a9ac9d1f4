use vstd::prelude::*;
use crate::status::{
    SettingsModel, StatusModel, break_target, initial_model, remaining, step, target, within_phase,
};

verus! {

/// The state after ticks of the given lengths, in order.
pub open spec fn run(st: SettingsModel, s: StatusModel, ds: Seq<nat>) -> StatusModel
    decreases ds.len(),
{
    if ds.len() == 0 {
        s
    } else {
        step(st, run(st, s, ds.drop_last()), ds.last())
    }
}

/// How many ticks of a run moved from work to a break.
pub open spec fn breaks_started(st: SettingsModel, s: StatusModel, ds: Seq<nat>) -> nat
    decreases ds.len(),
{
    if ds.len() == 0 {
        0
    } else {
        let p = run(st, s, ds.drop_last());
        breaks_started(st, s, ds.drop_last()) + if !p.in_break && step(st, p, ds.last()).in_break {
            1nat
        } else {
            0nat
        }
    }
}

/// How many ticks of a run moved from a break back to work.
pub open spec fn breaks_ended(st: SettingsModel, s: StatusModel, ds: Seq<nat>) -> nat
    decreases ds.len(),
{
    if ds.len() == 0 {
        0
    } else {
        let p = run(st, s, ds.drop_last());
        breaks_ended(st, s, ds.drop_last()) + if p.in_break && !step(st, p, ds.last()).in_break {
            1nat
        } else {
            0nat
        }
    }
}

/// Over any run the completed cycles never decrease (the elapsed time, a
/// natural number, is never negative).
pub proof fn lemma_completed_non_decreasing(st: SettingsModel, s: StatusModel, ds: Seq<nat>)
    ensures
        run(st, s, ds).completed >= s.completed,
    decreases ds.len(),
{
    if ds.len() > 0 {
        lemma_completed_non_decreasing(st, s, ds.drop_last());
    }
}

/// One tick adds one completed cycle exactly when it ends a break, and none
/// otherwise.
pub proof fn lemma_step_completed(st: SettingsModel, s: StatusModel, d: nat)
    ensures
        step(st, s, d).completed == s.completed + if s.in_break && !step(st, s, d).in_break {
            1nat
        } else {
            0nat
        },
{
}

/// Over any run the completed cycles grow by the number of breaks that ended.
pub proof fn lemma_completed_counts_break_ends(st: SettingsModel, s: StatusModel, ds: Seq<nat>)
    ensures
        run(st, s, ds).completed == s.completed + breaks_ended(st, s, ds),
    decreases ds.len(),
{
    if ds.len() > 0 {
        lemma_completed_counts_break_ends(st, s, ds.drop_last());
        lemma_step_completed(st, run(st, s, ds.drop_last()), ds.last());
    }
}

/// Phases alternate: the breaks started and the breaks ended never differ by
/// more than the break in progress, so no phase is entered twice in a row.
pub proof fn lemma_phases_alternate(st: SettingsModel, s: StatusModel, ds: Seq<nat>)
    ensures
        breaks_started(st, s, ds) + (if s.in_break { 1nat } else { 0nat }) == breaks_ended(st, s, ds)
            + (if run(st, s, ds).in_break { 1nat } else { 0nat }),
    decreases ds.len(),
{
    if ds.len() > 0 {
        lemma_phases_alternate(st, s, ds.drop_last());
    }
}

/// Ticks keep the elapsed time within the length of the phase.
pub proof fn lemma_stays_within_phase(st: SettingsModel, s: StatusModel, ds: Seq<nat>)
    requires
        within_phase(st, s),
    ensures
        within_phase(st, run(st, s, ds)),
    decreases ds.len(),
{
    if ds.len() > 0 {
        lemma_stays_within_phase(st, s, ds.drop_last());
    }
}

/// When a tick starts a new phase, the remaining time shown is the length of
/// that phase plus one minute.
pub proof fn lemma_phase_start_remaining(st: SettingsModel, s: StatusModel, d: nat)
    requires
        step(st, s, d).in_break != s.in_break,
    ensures
        step(st, s, d).elapsed == 0,
        remaining(st, step(st, s, d)) == target(st, step(st, s, d)) + 60,
{
}

/// While paused, any number of ticks leaves the state as it was.
pub proof fn lemma_paused_run(st: SettingsModel, s: StatusModel, ds: Seq<nat>)
    requires
        s.paused,
    ensures
        run(st, s, ds) == s,
    decreases ds.len(),
{
    if ds.len() > 0 {
        lemma_paused_run(st, s, ds.drop_last());
    }
}

/// At the start of any phase, with nothing elapsed, the remaining time shown
/// is the length of the phase plus one minute.
pub proof fn lemma_remaining_at_phase_start(st: SettingsModel, s: StatusModel)
    requires
        s.elapsed == 0,
    ensures
        remaining(st, s) == target(st, s) + 60,
{
}

/// At startup the remaining time shown is the work length plus one minute.
pub proof fn lemma_initial_remaining(st: SettingsModel)
    ensures
        remaining(st, initial_model()) == st.work + 60,
{
}

/// Until a break ends, ticks of at least one second keep the break running
/// with the same cycle count, and add at least one second each.
proof fn lemma_break_progress(st: SettingsModel, s: StatusModel, ds: Seq<nat>)
    requires
        s.in_break,
        !s.paused,
        forall|i: int| 0 <= i < ds.len() ==> ds[i] >= 1,
    ensures
        breaks_ended(st, s, ds) == 0 ==> {
            let r = run(st, s, ds);
            r.in_break && !r.paused && r.completed == s.completed && r.elapsed >= s.elapsed
                + ds.len()
        },
    decreases ds.len(),
{
    if ds.len() > 0 {
        let ds0 = ds.drop_last();
        assert forall|i: int| 0 <= i < ds0.len() implies ds0[i] >= 1 by {
            assert(ds0[i] == ds[i]);
        }
        lemma_break_progress(st, s, ds0);
        assert(ds.last() == ds[ds.len() - 1]);
    }
}

/// A break in progress ends: once the ticks, each of at least one second,
/// outnumber the seconds of the break, the run has gone back to work.
pub proof fn lemma_break_eventually_ends(st: SettingsModel, s: StatusModel, ds: Seq<nat>)
    requires
        s.in_break,
        !s.paused,
        within_phase(st, s),
        forall|i: int| 0 <= i < ds.len() ==> ds[i] >= 1,
        ds.len() > break_target(st, s),
    ensures
        breaks_ended(st, s, ds) >= 1,
{
    lemma_break_progress(st, s, ds);
    lemma_stays_within_phase(st, s, ds);
}

/// Until a work phase ends, ticks of at least one second keep it running and
/// add at least one second each.
proof fn lemma_work_progress(st: SettingsModel, s: StatusModel, ds: Seq<nat>)
    requires
        !s.in_break,
        !s.paused,
        forall|i: int| 0 <= i < ds.len() ==> ds[i] >= 1,
    ensures
        breaks_started(st, s, ds) == 0 ==> {
            let r = run(st, s, ds);
            !r.in_break && !r.paused && r.elapsed >= s.elapsed + ds.len()
        },
    decreases ds.len(),
{
    if ds.len() > 0 {
        let ds0 = ds.drop_last();
        assert forall|i: int| 0 <= i < ds0.len() implies ds0[i] >= 1 by {
            assert(ds0[i] == ds[i]);
        }
        lemma_work_progress(st, s, ds0);
        assert(ds.last() == ds[ds.len() - 1]);
    }
}

/// A work phase in progress ends: once the ticks, each of at least one
/// second, outnumber the seconds of work, a break has started.
pub proof fn lemma_work_eventually_ends(st: SettingsModel, s: StatusModel, ds: Seq<nat>)
    requires
        !s.in_break,
        !s.paused,
        within_phase(st, s),
        forall|i: int| 0 <= i < ds.len() ==> ds[i] >= 1,
        ds.len() > st.work,
    ensures
        breaks_started(st, s, ds) >= 1,
{
    lemma_work_progress(st, s, ds);
    lemma_stays_within_phase(st, s, ds);
}

/// `n` ticks of one second each.
pub open spec fn one_second_ticks(n: nat) -> Seq<nat> {
    Seq::new(n, |i: int| 1nat)
}

/// Within a phase, one-second ticks that do not pass its length only add to
/// the elapsed time.
proof fn lemma_ticks_within_phase(st: SettingsModel, s: StatusModel, n: nat)
    requires
        !s.paused,
        s.elapsed + n <= target(st, s),
    ensures
        run(st, s, one_second_ticks(n)) == (StatusModel { elapsed: s.elapsed + n, ..s }),
    decreases n,
{
    if n > 0 {
        assert(one_second_ticks(n).drop_last() =~= one_second_ticks((n - 1) as nat));
        lemma_ticks_within_phase(st, s, (n - 1) as nat);
    }
}

/// A running phase with `e` seconds elapsed of its `t` ends after exactly
/// `t - e + 1` one-second ticks: fewer leave the phase as it is, and that
/// many move to the other phase with nothing elapsed.
pub proof fn lemma_phase_length(st: SettingsModel, s: StatusModel, n: nat)
    requires
        !s.paused,
        within_phase(st, s),
    ensures
        n <= target(st, s) - s.elapsed ==> run(st, s, one_second_ticks(n)).in_break == s.in_break,
        n == target(st, s) - s.elapsed + 1 ==> {
            let r = run(st, s, one_second_ticks(n));
            r.in_break == !s.in_break && r.elapsed == 0
        },
{
    if n <= target(st, s) - s.elapsed {
        lemma_ticks_within_phase(st, s, n);
    }
    if n == target(st, s) - s.elapsed + 1 {
        let m = (n - 1) as nat;
        assert(one_second_ticks(n).drop_last() =~= one_second_ticks(m));
        lemma_ticks_within_phase(st, s, m);
    }
}

} // verus!
