//! The grain clock: mapping wall-clock time to the grain index a live
//! producer is currently writing, and classifying a requested index
//! against the producer's pace.

use vstd::prelude::*;

use crate::error::Error;

verus! {

/// Nanoseconds per second.
pub const NANOS_PER_SECOND: u64 = 1_000_000_000;

/// A flow's grain rate as a rational number of grains per second, for
/// example 25/1 for a 25 Hz video flow or 30000/1001 for 29.97 Hz.
#[derive(Clone, Copy, PartialEq, Eq, Structural, Debug)]
pub struct GrainRate {
    pub numerator: u64,
    pub denominator: u64,
}

impl GrainRate {
    /// A rate is meaningful when both parts are nonzero.
    pub open spec fn wf(self) -> bool {
        self.numerator >= 1 && self.denominator >= 1
    }
}

/// The grain index produced at the given wall-clock instant: elapsed
/// nanoseconds scaled by the grain rate, saturated at the largest
/// representable index.
pub open spec fn index_at(now_nanos: u64, rate: GrainRate) -> u64
    recommends
        rate.wf(),
{
    let ideal = (now_nanos * rate.numerator) / (rate.denominator * NANOS_PER_SECOND);
    if ideal > u64::MAX {
        u64::MAX
    } else {
        ideal as u64
    }
}

/// Computes [`index_at`] for an explicit instant.
pub fn compute_index_at(now_nanos: u64, rate: &GrainRate) -> (r: u64)
    requires
        rate.wf(),
    ensures
        r == index_at(now_nanos, *rate),
{
    proof {
        assert((rate.denominator as int) * (NANOS_PER_SECOND as int) > 0) by (nonlinear_arith)
            requires
                rate.denominator >= 1,
        ;
        assert((now_nanos as int) * (rate.numerator as int) <= u128::MAX) by (nonlinear_arith)
            requires
                now_nanos <= u64::MAX && rate.numerator <= u64::MAX,
        ;
        assert((rate.denominator as int) * (NANOS_PER_SECOND as int) <= u128::MAX)
            by (nonlinear_arith)
            requires
                rate.denominator <= u64::MAX && NANOS_PER_SECOND <= u64::MAX,
        ;
    }
    let divisor: u128 = (rate.denominator as u128) * (NANOS_PER_SECOND as u128);
    let product: u128 = (now_nanos as u128) * (rate.numerator as u128);
    let ideal: u128 = product / divisor;
    if ideal > u64::MAX as u128 {
        u64::MAX
    } else {
        ideal as u64
    }
}

/// Relies on std::time::SystemTime::now for the wall-clock reading:
/// nanoseconds since the Unix epoch, saturated into 64 bits. The result
/// depends on the machine's clock, so nothing is promised of it.
#[verifier::external_body]
fn now_nanos() -> (r: u64) {
    match std::time::SystemTime::now().duration_since(std::time::UNIX_EPOCH) {
        Ok(elapsed) => u64::try_from(elapsed.as_nanos()).unwrap_or(u64::MAX),
        Err(_) => 0,
    }
}

/// The grain index currently being produced "live", derived from the
/// wall clock and the flow's grain rate. An initiator uses this to pick
/// where to start reading a live flow and to resynchronise after
/// falling behind. The instant read from the clock is outside this
/// crate's control, so all that is promised is that the result is the
/// index of some instant.
pub fn current_index(rate: &GrainRate) -> (r: u64)
    requires
        rate.wf(),
    ensures
        exists|now_nanos: u64| r == index_at(now_nanos, *rate),
{
    let now = now_nanos();
    let r = compute_index_at(now, rate);
    proof {
        assert(r == index_at(now, *rate));
    }
    r
}

/// Classifies a requested grain index against the index currently being
/// produced and the depth of the backing buffer.
///
/// An index ahead of the producer has not been produced yet: the caller
/// should retry the same index later. An index more than `depth` grains
/// behind the producer has been overwritten: the skipped grains are
/// lost by design and the caller must resynchronise from
/// [`current_index`]. Anything else is on time.
pub fn classify_grain_index(requested: u64, current: u64, depth: u64) -> (r: Result<(), Error>)
    ensures
        requested > current ==> r == Result::<(), Error>::Err(Error::OutOfRangeTooEarly),
        requested <= current && current - requested > depth ==> r == Result::<(), Error>::Err(
            Error::OutOfRangeTooLate,
        ),
        requested <= current && current - requested <= depth ==> r == Result::<(), Error>::Ok(()),
{
    if requested > current {
        Err(Error::OutOfRangeTooEarly)
    } else if current - requested > depth {
        Err(Error::OutOfRangeTooLate)
    } else {
        Ok(())
    }
}

} // verus!
