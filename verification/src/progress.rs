//! Progress samples: point-in-time snapshots of playback position and
//! duration, with the played fraction derived from the two.

use vstd::arithmetic::div_mod::{lemma_div_is_ordered, lemma_div_multiples_vanish};
use vstd::arithmetic::mul::lemma_mul_inequality;
use vstd::prelude::*;

verus! {

/// A point-in-time snapshot of playback position and duration, in whole
/// seconds.  The played fraction is not stored separately: it is the ratio
/// of the two fields, exposed in per-mille steps by `percent_permille`.
#[derive(Clone, Copy, Debug)]
pub struct ProgressSample {
    pub position_secs: u64,
    pub duration_secs: u64,
}

impl ProgressSample {
    /// A sample is valid when the position does not run past the duration;
    /// in particular a sample without a known duration reports position zero.
    pub open spec fn valid(self) -> bool {
        self.position_secs <= self.duration_secs
    }

    /// The played fraction in per-mille, as a spec-level integer: zero
    /// without a known duration, else `position * 1000 / duration`.
    pub open spec fn spec_percent_permille(self) -> int {
        if self.duration_secs == 0 {
            0
        } else {
            (self.position_secs * 1000) / (self.duration_secs as int)
        }
    }

    /// The sample reported while the engine has no loaded media.
    pub fn zero() -> (s: ProgressSample)
        ensures
            s.valid(),
            s.position_secs == 0,
            s.duration_secs == 0,
    {
        ProgressSample { position_secs: 0, duration_secs: 0 }
    }

    /// Builds a best-effort sample from engine-reported values: a position
    /// past the reported duration is clamped to it, so the sample is always
    /// valid.
    pub fn new(position_secs: u64, duration_secs: u64) -> (s: ProgressSample)
        ensures
            s.valid(),
            s.duration_secs == duration_secs,
            s.position_secs == if position_secs <= duration_secs {
                position_secs as int
            } else {
                duration_secs as int
            },
    {
        if position_secs <= duration_secs {
            ProgressSample { position_secs, duration_secs }
        } else {
            ProgressSample { position_secs: duration_secs, duration_secs }
        }
    }

    /// The played fraction in per-mille.  For every valid sample it lies
    /// between 0 and 1000 inclusive when the duration is known, and is 0
    /// when the duration is 0.
    pub fn percent_permille(&self) -> (p: u64)
        requires
            self.valid(),
        ensures
            p == self.spec_percent_permille(),
            0 <= p <= 1000,
            self.duration_secs == 0 ==> p == 0,
    {
        if self.duration_secs == 0 {
            0
        } else {
            let num: u128 = (self.position_secs as u128) * 1000;
            let q: u128 = num / (self.duration_secs as u128);
            proof {
                let pos = self.position_secs as int;
                let dur = self.duration_secs as int;
                lemma_mul_inequality(pos, dur, 1000);
                lemma_div_is_ordered(pos * 1000, dur * 1000, dur);
                lemma_div_multiples_vanish(1000, dur);
                assert(dur * 1000 == 1000 * dur) by (nonlinear_arith);
            }
            q as u64
        }
    }

    /// A track counts as finished once a known duration has been reached.
    pub fn is_finished(&self) -> (r: bool)
        ensures
            r == (self.duration_secs > 0 && self.position_secs >= self.duration_secs),
    {
        self.duration_secs > 0 && self.position_secs >= self.duration_secs
    }
}

} // verus!
