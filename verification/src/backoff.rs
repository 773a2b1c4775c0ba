//! The backoff policy: how the spin interval of a contended mutex grows, and
//! how loudly a waiting thread reports that it is still waiting.
//!
//! Everything here is arithmetic on plain values. The interval is counted in
//! microseconds and doubles with every failed attempt, held at `usize::MAX`
//! once the product no longer fits. The severity of a wait notification is
//! read off the interval alone, so it rises with the time a thread has been
//! stuck without anybody keeping a clock for it.

use vstd::arithmetic::power2::{lemma2_to64, lemma_pow2_strictly_increases, lemma_pow2_unfold, pow2};
use vstd::prelude::*;

verus! {

/// Spin interval, in microseconds, of a mutex that is not contended.
pub const DEFAULT_SPIN: usize = 100;

/// Factor by which the spin interval grows after each failed attempt.
pub const SPIN_INCREASE: usize = 2;

/// Interval, in microseconds, from which a wait is reported at [`Severity::Trace`].
pub const TRACE_THRESHOLD: usize = 50_000;

/// Interval, in microseconds, from which a wait is reported at [`Severity::Info`].
pub const INFO_THRESHOLD: usize = 500_000;

/// Interval, in microseconds, from which a wait is reported at [`Severity::Warn`].
pub const WARN_THRESHOLD: usize = 3_000_000;

/// Interval, in microseconds, from which a wait is reported at [`Severity::Error`].
pub const ERROR_THRESHOLD: usize = 60_000_000;

/// How loudly a wait is reported, from the quietest to the loudest.
#[derive(Clone, Copy, Debug, PartialEq, Eq, Structural)]
pub enum Severity {
    Trace,
    Info,
    Warn,
    Error,
}

/// What a thread that found the mutex held does before it tries again.
#[derive(Clone, Copy, Debug, PartialEq, Eq, Structural)]
pub struct Wait {
    /// The interval that the failed attempt left in the mutex, which is also
    /// the time to sleep, in microseconds.
    pub spin_us: usize,
    /// The severity at which to report the wait; `None` for a silent wait.
    pub severity: Option<Severity>,
}

/// The interval that follows `spin` after one more failed attempt: `spin`
/// times [`SPIN_INCREASE`], held at `usize::MAX` where the product does not fit.
pub open spec fn spec_next_spin(spin: usize) -> usize {
    if spin * SPIN_INCREASE > usize::MAX {
        usize::MAX
    } else {
        (spin * SPIN_INCREASE) as usize
    }
}

/// The interval after `failures` failed attempts in a row on a mutex whose
/// interval was `start`.
pub open spec fn spin_after(start: usize, failures: nat) -> usize
    decreases failures,
{
    if failures == 0 {
        start
    } else {
        spec_next_spin(spin_after(start, (failures - 1) as nat))
    }
}

/// The severity at which a wait of `spin` microseconds is reported: the one
/// of the highest threshold that `spin` has reached, or `None` below the
/// first threshold.
pub open spec fn spec_severity(spin: usize) -> Option<Severity> {
    if spin < TRACE_THRESHOLD {
        None
    } else if spin < INFO_THRESHOLD {
        Some(Severity::Trace)
    } else if spin < WARN_THRESHOLD {
        Some(Severity::Info)
    } else if spin < ERROR_THRESHOLD {
        Some(Severity::Warn)
    } else {
        Some(Severity::Error)
    }
}

/// Position of a severity on the scale from silent (0) to `Error` (4).
pub open spec fn severity_rank(severity: Option<Severity>) -> nat {
    match severity {
        None => 0,
        Some(Severity::Trace) => 1,
        Some(Severity::Info) => 2,
        Some(Severity::Warn) => 3,
        Some(Severity::Error) => 4,
    }
}

/// The wait that follows a failed attempt which found the interval at `previous`.
pub open spec fn spec_wait(previous: usize) -> Wait {
    Wait {
        spin_us: spec_next_spin(previous),
        severity: spec_severity(spec_next_spin(previous)),
    }
}

/// Grows the spin interval after a failed attempt, saturating at `usize::MAX`.
pub fn next_spin(spin: usize) -> (next: usize)
    ensures
        next == spec_next_spin(spin),
        next >= spin,
{
    match spin.checked_mul(SPIN_INCREASE) {
        Some(grown) => grown,
        None => usize::MAX,
    }
}

/// Selects the severity at which a wait of `spin` microseconds is reported.
pub fn severity_for(spin: usize) -> (severity: Option<Severity>)
    ensures
        severity == spec_severity(spin),
{
    if spin < TRACE_THRESHOLD {
        None
    } else if spin < INFO_THRESHOLD {
        Some(Severity::Trace)
    } else if spin < WARN_THRESHOLD {
        Some(Severity::Info)
    } else if spin < ERROR_THRESHOLD {
        Some(Severity::Warn)
    } else {
        Some(Severity::Error)
    }
}

/// Plans the wait after a failed attempt which found the interval at
/// `previous`: the grown interval, and the severity that belongs to it.
pub fn wait_after(previous: usize) -> (wait: Wait)
    ensures
        wait == spec_wait(previous),
        wait.spin_us >= previous,
{
    let spin_us = next_spin(previous);
    Wait { spin_us, severity: severity_for(spin_us) }
}

/// However long the contention lasts, the interval never shrinks from one
/// failed attempt to a later one.
pub proof fn law_spin_never_shrinks(start: usize, earlier: nat, later: nat)
    requires
        earlier <= later,
    ensures
        spin_after(start, earlier) <= spin_after(start, later) <= usize::MAX,
    decreases later,
{
    if earlier < later {
        law_spin_never_shrinks(start, earlier, (later - 1) as nat);
    }
}

/// After `failures` failed attempts in a row the interval is `start` doubled
/// that many times, or `usize::MAX` where that no longer fits.
pub proof fn law_spin_after_is_saturated_doubling(start: usize, failures: nat)
    ensures
        spin_after(start, failures) == if start * pow2(failures) > usize::MAX {
            usize::MAX as int
        } else {
            start * pow2(failures)
        },
    decreases failures,
{
    if failures == 0 {
        lemma2_to64();
    } else {
        let fewer = (failures - 1) as nat;
        law_spin_after_is_saturated_doubling(start, fewer);
        lemma_pow2_unfold(failures);
        assert(start * pow2(failures) == 2 * (start * pow2(fewer))) by (nonlinear_arith)
            requires
                pow2(failures) == 2 * pow2(fewer),
        ;
    }
}

/// A longer interval is never reported more quietly than a shorter one.
pub proof fn law_severity_rises_with_interval(shorter: usize, longer: usize)
    requires
        shorter <= longer,
    ensures
        severity_rank(spec_severity(shorter)) <= severity_rank(spec_severity(longer)),
{
}

/// A wait is silent exactly while the interval is below the first threshold.
pub proof fn law_silent_below_first_threshold(spin: usize)
    ensures
        spec_severity(spin) is None <==> spin < TRACE_THRESHOLD,
{
}

/// The failed attempt whose doubling carries the interval across a threshold
/// is reported at the severity of that threshold, and one doubling never
/// skips a severity.
pub proof fn law_crossing_reports_threshold(spin: usize)
    ensures
        spin < TRACE_THRESHOLD <= spec_next_spin(spin) ==> spec_wait(spin).severity == Some(
            Severity::Trace,
        ),
        spin < INFO_THRESHOLD <= spec_next_spin(spin) ==> spec_wait(spin).severity == Some(
            Severity::Info,
        ),
        spin < WARN_THRESHOLD <= spec_next_spin(spin) ==> spec_wait(spin).severity == Some(
            Severity::Warn,
        ),
        spin < ERROR_THRESHOLD <= spec_next_spin(spin) ==> spec_wait(spin).severity == Some(
            Severity::Error,
        ),
        severity_rank(spec_wait(spin).severity) <= severity_rank(spec_severity(spin)) + 1,
{
}

/// Counted from an uncontended mutex, the severity of the `failures`-th
/// failed attempt in a row depends on the count alone: silent up to the
/// eighth, `Trace` from the ninth, `Info` from the thirteenth, `Warn` from the
/// fifteenth and `Error` from the twentieth.
pub proof fn law_severity_by_failures(failures: nat)
    ensures
        spec_severity(spin_after(DEFAULT_SPIN, failures)) == if failures < 9 {
            None
        } else if failures < 13 {
            Some(Severity::Trace)
        } else if failures < 15 {
            Some(Severity::Info)
        } else if failures < 20 {
            Some(Severity::Warn)
        } else {
            Some(Severity::Error)
        },
{
    lemma2_to64();
    if failures >= 20 {
        law_spin_after_is_saturated_doubling(DEFAULT_SPIN, 20);
        law_spin_never_shrinks(DEFAULT_SPIN, 20, failures);
    } else {
        let floor: nat = if failures < 9 {
            0
        } else if failures < 13 {
            9
        } else if failures < 15 {
            13
        } else {
            15
        };
        let ceiling: nat = if failures < 9 {
            8
        } else if failures < 13 {
            12
        } else if failures < 15 {
            14
        } else {
            19
        };
        if floor < failures {
            lemma_pow2_strictly_increases(floor, failures);
        }
        if failures < ceiling {
            lemma_pow2_strictly_increases(failures, ceiling);
        }
        law_spin_after_is_saturated_doubling(DEFAULT_SPIN, failures);
    }
}

} // verus!
