//! Wall-clock pacing arithmetic.
//!
//! A recording carries absolute capture times; replay realigns them by a
//! constant delta computed from the first record, so every record gets a
//! target replay time on the same schedule as the recording.

use vstd::prelude::*;

verus! {

/// Number of microseconds in one second.
pub const MICROS_PER_SEC: u32 = 1_000_000;

/// A point in time (or a span of time) as seconds plus sub-second
/// microseconds since some epoch.
#[derive(Clone, Copy, Debug, PartialEq, Eq, Structural)]
pub struct Timestamp {
    pub secs: u64,
    pub micros: u32,
}

impl Timestamp {
    /// A well-formed timestamp keeps its sub-second part below one second.
    pub open spec fn wf(self) -> bool {
        self.micros < MICROS_PER_SEC
    }

    /// The whole value in microseconds.
    pub open spec fn as_micros(self) -> int {
        self.secs * (MICROS_PER_SEC as int) + self.micros
    }

    /// The largest representable value, in microseconds.
    pub open spec fn max_micros() -> int {
        u64::MAX * (MICROS_PER_SEC as int) + (MICROS_PER_SEC - 1)
    }

    /// The zero timestamp.
    pub fn zero() -> (r: Timestamp)
        ensures
            r.wf(),
            r.as_micros() == 0,
    {
        Timestamp { secs: 0, micros: 0 }
    }

    /// Builds a timestamp from raw recorded parts, carrying surplus
    /// microseconds into the seconds and saturating at the largest
    /// representable value.
    pub fn from_parts(secs: u64, micros: u32) -> (r: Timestamp)
        ensures
            r.wf(),
            r.as_micros() == capture_micros(secs, micros),
    {
        proof {
            lemma_norm_equiv(secs, micros);
        }
        let carry: u32 = micros / MICROS_PER_SEC;
        let rest: u32 = micros % MICROS_PER_SEC;
        proof {
            assert(micros == carry * MICROS_PER_SEC + rest && rest < MICROS_PER_SEC) by (nonlinear_arith)
                requires
                    carry == micros / MICROS_PER_SEC,
                    rest == micros % MICROS_PER_SEC,
            ;
        }
        match secs.checked_add(carry as u64) {
            Some(s) => Timestamp { secs: s, micros: rest },
            None => Timestamp { secs: u64::MAX, micros: MICROS_PER_SEC - 1 },
        }
    }
}

/// The capture time a record's envelope denotes, normalized and
/// saturated to the representable range, in microseconds.
pub open spec fn capture_micros(secs: u64, micros: u32) -> int {
    let total = secs * (MICROS_PER_SEC as int) + micros;
    if total <= Timestamp::max_micros() {
        total
    } else {
        Timestamp::max_micros()
    }
}

/// The replay delta a first record yields: `now - capture`, saturating
/// to zero, in microseconds.
pub open spec fn spec_delta(cap: int, now: Timestamp) -> int {
    if now.as_micros() >= cap {
        now.as_micros() - cap
    } else {
        0
    }
}

/// The target replay time of a record, in microseconds: capture time
/// shifted by the delta, or `now` when the sum does not fit.
pub open spec fn spec_target(cap: int, delta: int, now: Timestamp) -> int {
    if cap + delta <= Timestamp::max_micros() {
        cap + delta
    } else {
        now.as_micros()
    }
}

/// Saturating at the largest representable timestamp is the same test
/// whether made on whole microseconds or on carried seconds.
proof fn lemma_norm_equiv(secs: u64, micros: u32)
    ensures
        (secs + (micros as int) / (MICROS_PER_SEC as int) <= u64::MAX) <==> (secs * (
        MICROS_PER_SEC as int) + micros <= Timestamp::max_micros()),
{
    let k: int = MICROS_PER_SEC as int;
    let m: int = u64::MAX as int;
    let c = (micros as int) / k;
    let r0 = (micros as int) % k;
    assert(micros == c * k + r0 && 0 <= r0 < k) by (nonlinear_arith)
        requires
            k == 1_000_000,
            c == (micros as int) / k,
            r0 == (micros as int) % k,
    ;
    assert((secs + c <= m) <==> ((secs + c) * k + r0 <= m * k + (k - 1))) by (nonlinear_arith)
        requires
            0 <= r0 < k,
            k > 0,
    ;
    assert((secs + c) * k + r0 == secs * k + micros) by (nonlinear_arith)
        requires
            micros == c * k + r0,
    ;
}

/// The delta between the moment replay started and the moment the
/// recording started: `now - capture`, saturating to zero when the
/// recording timestamp lies in the future.
pub fn compute_delta(now: Timestamp, capture: Timestamp) -> (d: Timestamp)
    requires
        now.wf(),
        capture.wf(),
    ensures
        d.wf(),
        d.as_micros() == if now.as_micros() >= capture.as_micros() {
            now.as_micros() - capture.as_micros()
        } else {
            0
        },
{
    if now.secs > capture.secs || (now.secs == capture.secs && now.micros >= capture.micros) {
        if now.micros >= capture.micros {
            Timestamp { secs: now.secs - capture.secs, micros: now.micros - capture.micros }
        } else {
            Timestamp {
                secs: now.secs - capture.secs - 1,
                micros: now.micros + MICROS_PER_SEC - capture.micros,
            }
        }
    } else {
        Timestamp { secs: 0, micros: 0 }
    }
}

/// The target replay time of a record: its capture time shifted by the
/// replay delta, falling back to `now` when the sum does not fit.
pub fn target_time(capture: Timestamp, delta: Timestamp, now: Timestamp) -> (t: Timestamp)
    requires
        capture.wf(),
        delta.wf(),
        now.wf(),
    ensures
        t.wf(),
        t.as_micros() == if capture.as_micros() + delta.as_micros() <= Timestamp::max_micros() {
            capture.as_micros() + delta.as_micros()
        } else {
            now.as_micros()
        },
{
    let micros_sum: u32 = capture.micros + delta.micros;
    let carry: u32 = if micros_sum >= MICROS_PER_SEC {
        1
    } else {
        0
    };
    let rest: u32 = if micros_sum >= MICROS_PER_SEC {
        micros_sum - MICROS_PER_SEC
    } else {
        micros_sum
    };
    match capture.secs.checked_add(delta.secs) {
        Some(s) => match s.checked_add(carry as u64) {
            Some(s2) => Timestamp { secs: s2, micros: rest },
            None => now,
        },
        None => now,
    }
}

} // verus!
