//! The delay calculator: given a task's nominal interval, the duration of
//! the last execution and the debt carried over from earlier iterations,
//! it decides how long the scheduling loop waits before the next firing
//! and what debt the next iteration inherits.
//!
//! Debt only grows when an execution overruns its interval, and only
//! shrinks by exactly the slack it consumes, so the fixed-rate loop keeps
//! a long-run average trigger rate of one firing per interval.

use vstd::prelude::*;

use crate::duration::Dur;
use crate::duration::dur_max_nanos;

verus! {

/// How long to wait before the next firing, in nanoseconds.
///
/// On overrun (`execution >= interval`) the loop fires again at once.
/// Otherwise the slack `interval - execution` remains, shortened by as
/// much of the debt as it can absorb.
pub open spec fn spec_next_wait(interval: int, execution: int, debt: int) -> int {
    if execution >= interval {
        0
    } else if debt < interval - execution {
        interval - execution - debt
    } else {
        0
    }
}

/// The debt the next iteration inherits, in nanoseconds.
///
/// Every unit of overrun is added to the ledger; slack repays the ledger
/// by exactly the amount it absorbs, never below zero.
pub open spec fn spec_updated_debt(interval: int, execution: int, debt: int) -> int {
    if execution >= interval {
        debt + execution - interval
    } else if debt < interval - execution {
        0
    } else {
        debt - (interval - execution)
    }
}

/// Computes the next wait and the updated debt for a fixed-rate loop
/// iteration that nominally fires every `interval`, whose callback just
/// ran for `execution`, with `debt` outstanding.
///
/// Only an overrun can enlarge the debt, so only there can the result
/// outgrow what a duration can hold; the caller rules that out, as the
/// host's duration arithmetic would panic on the same sum.
pub fn calculate_delay(interval: Dur, execution: Dur, debt: Dur) -> (r: (Dur, Dur))
    requires
        interval.wf(),
        execution.wf(),
        debt.wf(),
        execution@ >= interval@ ==> debt@ + execution@ - interval@ <= dur_max_nanos(),
    ensures
        r.0.wf(),
        r.1.wf(),
        r.0@ == spec_next_wait(interval@, execution@, debt@),
        r.1@ == spec_updated_debt(interval@, execution@, debt@),
{
    if interval.le(&execution) {
        let overrun = execution.minus(interval);
        (Dur::zero(), debt.plus(overrun))
    } else {
        let gap = interval.minus(execution);
        if debt.is_zero() {
            (gap, Dur::zero())
        } else if debt.lt(&gap) {
            (gap.minus(debt), Dur::zero())
        } else {
            (Dur::zero(), debt.minus(gap))
        }
    }
}

/// Computes the next wait for a fixed-interval loop iteration: the
/// constant gap after the callback returns, or zero when the callback
/// overran. This is the delay calculator with the debt pinned at zero
/// and never accumulated, so overruns are never made up.
pub fn fixed_interval_wait(interval: Dur, execution: Dur) -> (w: Dur)
    requires
        interval.wf(),
        execution.wf(),
    ensures
        w.wf(),
        w@ == spec_next_wait(interval@, execution@, 0),
{
    if interval.le(&execution) {
        Dur::zero()
    } else {
        interval.minus(execution)
    }
}

/// The delay calculator is a pure function of its three inputs: any two
/// results that satisfy its contract for the same inputs are the same
/// pair of values.
pub proof fn lemma_delay_deterministic(
    interval: Dur,
    execution: Dur,
    debt: Dur,
    r1: (Dur, Dur),
    r2: (Dur, Dur),
)
    requires
        r1.0.wf(),
        r1.1.wf(),
        r2.0.wf(),
        r2.1.wf(),
        r1.0@ == spec_next_wait(interval@, execution@, debt@),
        r1.1@ == spec_updated_debt(interval@, execution@, debt@),
        r2.0@ == spec_next_wait(interval@, execution@, debt@),
        r2.1@ == spec_updated_debt(interval@, execution@, debt@),
    ensures
        r1 == r2,
{
    crate::duration::lemma_view_injective(r1.0, r2.0);
    crate::duration::lemma_view_injective(r1.1, r2.1);
}

/// Overrun accumulates debt exactly: when the execution filled or
/// overran its slot, the loop fires again at once and every unit of
/// overrun is added to the ledger, whatever debt was already there.
pub proof fn lemma_overrun_accumulates(interval: int, execution: int, debt: int)
    requires
        0 <= interval,
        0 <= execution,
        0 <= debt,
        execution >= interval,
    ensures
        spec_next_wait(interval, execution, debt) == 0,
        spec_updated_debt(interval, execution, debt) == debt + execution - interval,
{
}

/// Debt never goes negative, whatever non-negative inputs arrive.
pub proof fn lemma_debt_nonnegative(interval: int, execution: int, debt: int)
    requires
        0 <= interval,
        0 <= execution,
        0 <= debt,
    ensures
        spec_updated_debt(interval, execution, debt) >= 0,
{
}

/// Slack consumption: when the execution left more slack than the
/// outstanding debt, the wait shrinks by exactly the debt and the ledger
/// is cleared.
pub proof fn lemma_slack_consumption(interval: int, execution: int, debt: int)
    requires
        0 <= interval,
        0 <= execution,
        0 <= debt,
        execution < interval,
        debt < interval - execution,
    ensures
        spec_next_wait(interval, execution, debt) == (interval - execution) - debt,
        spec_updated_debt(interval, execution, debt) == 0,
{
}

/// One iteration conserves time against the nominal schedule: the time
/// the iteration takes (execution plus wait) equals the interval, up to
/// the change in debt. This is the step form of the fixed-rate
/// guarantee that the long-run trigger rate is one firing per interval.
pub proof fn lemma_step_conservation(interval: int, execution: int, debt: int)
    requires
        0 <= interval,
        0 <= execution,
        0 <= debt,
    ensures
        execution + spec_next_wait(interval, execution, debt) + debt == interval
            + spec_updated_debt(interval, execution, debt),
{
}

/// All entries of a run of execution durations are non-negative.
pub open spec fn all_nonneg(execs: Seq<int>) -> bool {
    forall|k: int| 0 <= k < execs.len() ==> execs[k] >= 0
}

/// The debt outstanding after a fixed-rate loop has worked through the
/// executions `execs`, having started with `debt` on its ledger.
pub open spec fn rate_debt_after(interval: int, execs: Seq<int>, debt: int) -> int
    decreases execs.len(),
{
    if execs.len() == 0 {
        debt
    } else {
        rate_debt_after(
            interval,
            execs.drop_first(),
            spec_updated_debt(interval, execs.first(), debt),
        )
    }
}

/// The wall-clock time a fixed-rate loop spends working through
/// `execs` from `debt`: each iteration's execution plus the wait the
/// delay calculator prescribes for it.
pub open spec fn rate_elapsed(interval: int, execs: Seq<int>, debt: int) -> int
    decreases execs.len(),
{
    if execs.len() == 0 {
        0
    } else {
        execs.first() + spec_next_wait(interval, execs.first(), debt) + rate_elapsed(
            interval,
            execs.drop_first(),
            spec_updated_debt(interval, execs.first(), debt),
        )
    }
}

/// The long-run fixed-rate law: over any run, wall-clock time equals
/// the number of firings times the interval, adjusted by how the debt
/// ledger moved. Starting from zero debt this pins the firing count —
/// the elapsed time is the firings times the interval plus only the
/// debt still outstanding, so catch-up recovers every deficit a slow
/// execution caused.
pub proof fn lemma_rate_long_run(interval: int, execs: Seq<int>, debt: int)
    requires
        0 <= interval,
        0 <= debt,
        all_nonneg(execs),
    ensures
        rate_elapsed(interval, execs, debt) + debt == execs.len() * interval + rate_debt_after(
            interval,
            execs,
            debt,
        ),
    decreases execs.len(),
{
    if execs.len() > 0 {
        let e = execs.first();
        let rest = execs.drop_first();
        let carried = spec_updated_debt(interval, e, debt);
        assert(e == execs[0]);
        lemma_step_conservation(interval, e, debt);
        assert forall|k: int| 0 <= k < rest.len() implies rest[k] >= 0 by {
            assert(rest[k] == execs[k + 1]);
        }
        lemma_rate_long_run(interval, rest, carried);
        assert(execs.len() * interval == rest.len() * interval + interval) by (nonlinear_arith)
            requires execs.len() == rest.len() + 1;
    }
}

/// The wall-clock time a fixed-interval loop spends working through
/// `execs`: each iteration's execution plus the wait that the constant
/// gap, with no debt tracked, leaves it.
pub open spec fn interval_elapsed(interval: int, execs: Seq<int>) -> int
    decreases execs.len(),
{
    if execs.len() == 0 {
        0
    } else {
        execs.first() + spec_next_wait(interval, execs.first(), 0) + interval_elapsed(
            interval,
            execs.drop_first(),
        )
    }
}

/// The total time by which the executions of a run overran their slots.
pub open spec fn total_overrun(interval: int, execs: Seq<int>) -> int
    decreases execs.len(),
{
    if execs.len() == 0 {
        0
    } else {
        (if execs.first() >= interval {
            execs.first() - interval
        } else {
            0
        }) + total_overrun(interval, execs.drop_first())
    }
}

/// The fixed-interval no-catch-up law: the wall-clock time of a run is
/// the nominal schedule plus every overrun in full. A slow execution
/// permanently shifts all later firings; missed cycles are never made
/// up.
pub proof fn lemma_interval_no_catch_up(interval: int, execs: Seq<int>)
    requires
        0 <= interval,
        all_nonneg(execs),
    ensures
        interval_elapsed(interval, execs) == execs.len() * interval + total_overrun(
            interval,
            execs,
        ),
    decreases execs.len(),
{
    if execs.len() > 0 {
        let rest = execs.drop_first();
        assert(execs.first() == execs[0]);
        assert forall|k: int| 0 <= k < rest.len() implies rest[k] >= 0 by {
            assert(rest[k] == execs[k + 1]);
        }
        lemma_interval_no_catch_up(interval, rest);
        assert(execs.len() * interval == rest.len() * interval + interval) by (nonlinear_arith)
            requires execs.len() == rest.len() + 1;
    }
}

} // verus!
