//! Two-dimensional execution weight and a meter that tracks its consumption.

use vstd::prelude::*;

verus! {

/// Saturating sum of two `u64` values, as a mathematical definition.
pub open spec fn sat_add(a: u64, b: u64) -> u64 {
    if a + b > u64::MAX {
        u64::MAX
    } else {
        (a + b) as u64
    }
}

/// Saturating difference of two `u64` values, as a mathematical definition.
pub open spec fn sat_sub(a: u64, b: u64) -> u64 {
    if a < b {
        0
    } else {
        (a - b) as u64
    }
}

/// The resources a piece of work consumes: computation time and proof size.
#[derive(Clone, Copy, PartialEq, Eq, Debug, Structural)]
pub struct Weight {
    /// Computation time on reference hardware, in picoseconds.
    pub ref_time: u64,
    /// Bytes of storage proof that the work needs.
    pub proof_size: u64,
}

impl Weight {
    /// The weight that consumes nothing.
    pub open spec fn spec_zero() -> Weight {
        Weight { ref_time: 0, proof_size: 0 }
    }

    /// Component-wise saturating sum.
    pub open spec fn spec_saturating_add(self, rhs: Weight) -> Weight {
        Weight {
            ref_time: sat_add(self.ref_time, rhs.ref_time),
            proof_size: sat_add(self.proof_size, rhs.proof_size),
        }
    }

    /// Component-wise saturating difference.
    pub open spec fn spec_saturating_sub(self, rhs: Weight) -> Weight {
        Weight {
            ref_time: sat_sub(self.ref_time, rhs.ref_time),
            proof_size: sat_sub(self.proof_size, rhs.proof_size),
        }
    }

    /// Whether every component of `self` is at most that of `other`.
    pub open spec fn spec_all_lte(self, other: Weight) -> bool {
        self.ref_time <= other.ref_time && self.proof_size <= other.proof_size
    }

    /// Whether the component-wise sum fits without saturation.
    pub open spec fn spec_add_fits(self, rhs: Weight) -> bool {
        self.ref_time + rhs.ref_time <= u64::MAX && self.proof_size + rhs.proof_size <= u64::MAX
    }

    /// The weight that consumes nothing.
    pub fn zero() -> (w: Weight)
        ensures
            w == Weight::spec_zero(),
    {
        Weight { ref_time: 0, proof_size: 0 }
    }

    /// Builds a weight from its two components.
    pub fn from_parts(ref_time: u64, proof_size: u64) -> (w: Weight)
        ensures
            w.ref_time == ref_time,
            w.proof_size == proof_size,
    {
        Weight { ref_time, proof_size }
    }

    /// The computation-time component.
    pub fn ref_time(&self) -> (t: u64)
        ensures
            t == self.ref_time,
    {
        self.ref_time
    }

    /// The proof-size component.
    pub fn proof_size(&self) -> (s: u64)
        ensures
            s == self.proof_size,
    {
        self.proof_size
    }

    /// Adds two weights, each component saturating at the numeric bound.
    pub fn saturating_add(self, rhs: Weight) -> (w: Weight)
        ensures
            w == self.spec_saturating_add(rhs),
    {
        Weight {
            ref_time: self.ref_time.saturating_add(rhs.ref_time),
            proof_size: self.proof_size.saturating_add(rhs.proof_size),
        }
    }

    /// Subtracts `rhs`, each component saturating at zero.
    pub fn saturating_sub(self, rhs: Weight) -> (w: Weight)
        ensures
            w == self.spec_saturating_sub(rhs),
    {
        Weight {
            ref_time: self.ref_time.saturating_sub(rhs.ref_time),
            proof_size: self.proof_size.saturating_sub(rhs.proof_size),
        }
    }

    /// Adds `amount` to `self` in place, saturating.
    pub fn saturating_accrue(&mut self, amount: Weight)
        ensures
            *final(self) == old(self).spec_saturating_add(amount),
    {
        let sum = self.saturating_add(amount);
        *self = sum;
    }

    /// The exact component-wise sum, or `None` if a component would overflow.
    pub fn checked_add(&self, rhs: &Weight) -> (sum: Option<Weight>)
        ensures
            self.spec_add_fits(*rhs) ==> sum == Some(self.spec_saturating_add(*rhs)),
            !self.spec_add_fits(*rhs) ==> sum.is_none(),
    {
        match self.ref_time.checked_add(rhs.ref_time) {
            Some(ref_time) => match self.proof_size.checked_add(rhs.proof_size) {
                Some(proof_size) => Some(Weight { ref_time, proof_size }),
                None => None,
            },
            None => None,
        }
    }

    /// Whether every component of `self` is at most that of `other`.
    pub fn all_lte(self, other: Weight) -> (b: bool)
        ensures
            b == self.spec_all_lte(other),
    {
        self.ref_time <= other.ref_time && self.proof_size <= other.proof_size
    }
}

/// Saturating addition has the zero weight as its identity and is commutative.
pub proof fn saturating_add_is_commutative_with_zero_identity(a: Weight, b: Weight)
    ensures
        Weight::spec_zero().spec_saturating_add(a) == a,
        a.spec_saturating_add(Weight::spec_zero()) == a,
        a.spec_saturating_add(b) == b.spec_saturating_add(a),
{
}

/// Tracks how much of a weight limit has been used.
#[derive(Clone, Copy, PartialEq, Eq, Debug, Structural)]
pub struct WeightMeter {
    /// The weight consumed so far.
    pub consumed: Weight,
    /// The most that may ever be consumed.
    pub limit: Weight,
}

impl WeightMeter {
    /// Whether `w` can be consumed: the total neither overflows nor exceeds the limit.
    pub open spec fn spec_can_consume(self, w: Weight) -> bool {
        self.consumed.spec_add_fits(w) && self.consumed.spec_saturating_add(w).spec_all_lte(
            self.limit,
        )
    }

    /// A meter with nothing consumed and the given limit.
    pub fn with_limit(limit: Weight) -> (meter: WeightMeter)
        ensures
            meter.consumed == Weight::spec_zero(),
            meter.limit == limit,
    {
        WeightMeter { consumed: Weight::zero(), limit }
    }

    /// The weight consumed so far.
    pub fn consumed(&self) -> (w: Weight)
        ensures
            w == self.consumed,
    {
        self.consumed
    }

    /// The most that may ever be consumed.
    pub fn limit(&self) -> (w: Weight)
        ensures
            w == self.limit,
    {
        self.limit
    }

    /// The weight that can still be consumed.
    pub fn remaining(&self) -> (w: Weight)
        ensures
            w == self.limit.spec_saturating_sub(self.consumed),
    {
        self.limit.saturating_sub(self.consumed)
    }

    /// Whether `w` can still be consumed.
    pub fn can_consume(&self, w: Weight) -> (b: bool)
        ensures
            b == self.spec_can_consume(w),
    {
        match self.consumed.checked_add(&w) {
            Some(total) => total.all_lte(self.limit),
            None => false,
        }
    }

    /// Consumes `w` if it fits under the limit; otherwise leaves the meter as it was.
    pub fn try_consume(&mut self, w: Weight) -> (r: Result<(), ()>)
        ensures
            old(self).spec_can_consume(w) ==> r.is_ok() && final(self).consumed == old(
                self,
            ).consumed.spec_saturating_add(w),
            !old(self).spec_can_consume(w) ==> r.is_err() && final(self).consumed == old(
                self,
            ).consumed,
            final(self).limit == old(self).limit,
    {
        match self.consumed.checked_add(&w) {
            Some(total) => {
                if total.all_lte(self.limit) {
                    self.consumed = total;
                    Ok(())
                } else {
                    Err(())
                }
            },
            None => Err(()),
        }
    }
}

} // verus!
