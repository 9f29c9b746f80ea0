//! Bounded arithmetic on aggregators, and deltas that are applied to a value
//! only when it is known.

use crate::squash::Squash;
use vstd::prelude::*;

verus! {

/// A signed amount: a magnitude that is added or taken away.
#[derive(Clone, Copy, Debug, PartialEq, Eq, Structural)]
pub enum SignedU128 {
    Positive(u128),
    Negative(u128),
}

/// Why a bounded operation has no result.
#[derive(Clone, Copy, Debug, PartialEq, Eq, Structural)]
pub enum BoundedMathError {
    Overflow,
    Underflow,
}

/// Arithmetic on values between zero and a maximum.
#[derive(Clone, Copy, Debug, PartialEq, Eq, Structural)]
pub struct BoundedMath {
    pub max_value: u128,
}

/// `base + delta` within `0..=max_value`: below zero it underflows, above
/// the maximum it overflows.
pub open spec fn bounded_add_delta(max_value: u128, base: u128, delta: SignedU128) -> Result<
    u128,
    BoundedMathError,
> {
    match delta {
        SignedU128::Positive(value) => if base + value <= max_value {
            Ok((base + value) as u128)
        } else {
            Err(BoundedMathError::Overflow)
        },
        SignedU128::Negative(value) => if value <= base {
            Ok((base - value) as u128)
        } else {
            Err(BoundedMathError::Underflow)
        },
    }
}

/// The sum of two signed amounts, where its magnitude stays within the
/// maximum. A sum of zero is positive where the positive amount is not the
/// smaller one.
pub open spec fn bounded_signed_add(max_value: u128, left: SignedU128, right: SignedU128) -> Result<
    SignedU128,
    BoundedMathError,
> {
    match (left, right) {
        (SignedU128::Positive(l), SignedU128::Positive(r)) => if l + r <= max_value {
            Ok(SignedU128::Positive((l + r) as u128))
        } else {
            Err(BoundedMathError::Overflow)
        },
        (SignedU128::Negative(l), SignedU128::Negative(r)) => if l + r <= max_value {
            Ok(SignedU128::Negative((l + r) as u128))
        } else {
            Err(BoundedMathError::Overflow)
        },
        (SignedU128::Positive(p), SignedU128::Negative(n)) => if p >= n {
            Ok(SignedU128::Positive((p - n) as u128))
        } else {
            Ok(SignedU128::Negative((n - p) as u128))
        },
        (SignedU128::Negative(n), SignedU128::Positive(p)) => if p >= n {
            Ok(SignedU128::Positive((p - n) as u128))
        } else {
            Ok(SignedU128::Negative((n - p) as u128))
        },
    }
}

impl BoundedMath {
    pub fn new(max_value: u128) -> (result: BoundedMath)
        ensures
            result.max_value == max_value,
    {
        BoundedMath { max_value }
    }

    pub fn get_max_value(&self) -> (result: u128)
        ensures
            result == self.max_value,
    {
        self.max_value
    }

    pub fn unsigned_add(&self, base: u128, value: u128) -> (result: Result<u128, BoundedMathError>)
        ensures
            result == bounded_add_delta(self.max_value, base, SignedU128::Positive(value)),
    {
        if self.max_value < base || value > self.max_value - base {
            Err(BoundedMathError::Overflow)
        } else {
            Ok(base + value)
        }
    }

    pub fn unsigned_subtract(&self, base: u128, value: u128) -> (result: Result<
        u128,
        BoundedMathError,
    >)
        ensures
            result == bounded_add_delta(self.max_value, base, SignedU128::Negative(value)),
    {
        if value > base {
            Err(BoundedMathError::Underflow)
        } else {
            Ok(base - value)
        }
    }

    pub fn unsigned_add_delta(&self, base: u128, delta: &SignedU128) -> (result: Result<
        u128,
        BoundedMathError,
    >)
        ensures
            result == bounded_add_delta(self.max_value, base, *delta),
    {
        match delta {
            SignedU128::Positive(value) => self.unsigned_add(base, *value),
            SignedU128::Negative(value) => self.unsigned_subtract(base, *value),
        }
    }

    pub fn signed_add(&self, left: &SignedU128, right: &SignedU128) -> (result: Result<
        SignedU128,
        BoundedMathError,
    >)
        ensures
            result == bounded_signed_add(self.max_value, *left, *right),
    {
        match (left, right) {
            (SignedU128::Positive(l), SignedU128::Positive(r)) => match self.unsigned_add(*l, *r) {
                Ok(sum) => Ok(SignedU128::Positive(sum)),
                Err(e) => Err(e),
            },
            (SignedU128::Negative(l), SignedU128::Negative(r)) => match self.unsigned_add(*l, *r) {
                Ok(sum) => Ok(SignedU128::Negative(sum)),
                Err(e) => Err(e),
            },
            (SignedU128::Positive(p), SignedU128::Negative(n)) => if *p >= *n {
                Ok(SignedU128::Positive(*p - *n))
            } else {
                Ok(SignedU128::Negative(*n - *p))
            },
            (SignedU128::Negative(n), SignedU128::Positive(p)) => if *p >= *n {
                Ok(SignedU128::Positive(*p - *n))
            } else {
                Ok(SignedU128::Negative(*n - *p))
            },
        }
    }
}

/// An amount to add to an aggregator whose value must stay within
/// `0..=max_value`.
#[derive(Clone, Copy, Debug, PartialEq, Eq, Structural)]
pub struct DeltaWithMax {
    pub update: SignedU128,
    pub max_value: u128,
}

/// The one delta that stands for `prev` followed by `next`: none where the
/// two have different maxima or their sum leaves the bounds.
pub open spec fn merged_delta(prev: DeltaWithMax, next: DeltaWithMax) -> Option<DeltaWithMax> {
    if prev.max_value != next.max_value {
        None
    } else {
        match bounded_signed_add(prev.max_value, prev.update, next.update) {
            Ok(update) => Some(DeltaWithMax { update, max_value: prev.max_value }),
            Err(_) => None,
        }
    }
}

impl DeltaWithMax {
    pub fn new(update: SignedU128, max_value: u128) -> (result: DeltaWithMax)
        ensures
            result == (DeltaWithMax { update, max_value }),
    {
        DeltaWithMax { update, max_value }
    }

    pub fn get_update(&self) -> (result: SignedU128)
        ensures
            result == self.update,
    {
        self.update
    }

    /// The delta applied to `base`.
    pub fn apply_to(&self, base: u128) -> (result: Result<u128, BoundedMathError>)
        ensures
            result == bounded_add_delta(self.max_value, base, self.update),
    {
        BoundedMath::new(self.max_value).unsigned_add_delta(base, &self.update)
    }

    /// The one delta that stands for `prev_delta` followed by `next_delta`.
    pub fn create_merged_delta(prev_delta: &DeltaWithMax, next_delta: &DeltaWithMax) -> (result:
        Option<DeltaWithMax>)
        ensures
            result == merged_delta(*prev_delta, *next_delta),
    {
        if prev_delta.max_value != next_delta.max_value {
            return None;
        }
        match BoundedMath::new(prev_delta.max_value).signed_add(
            &prev_delta.update,
            &next_delta.update,
        ) {
            Ok(update) => Some(DeltaWithMax { update, max_value: prev_delta.max_value }),
            Err(_) => None,
        }
    }
}

impl View for DeltaWithMax {
    type V = DeltaWithMax;

    open spec fn view(&self) -> DeltaWithMax {
        *self
    }
}

impl Squash for DeltaWithMax {
    open spec fn squash_spec(earlier: DeltaWithMax, later: DeltaWithMax) -> Option<
        Option<DeltaWithMax>,
    > {
        match merged_delta(earlier, later) {
            Some(merged) => Some(Some(merged)),
            None => None,
        }
    }

    open spec fn cancel_free(earlier: DeltaWithMax, later: DeltaWithMax) -> bool {
        merged_delta(earlier, later) is Some
    }

    proof fn lemma_cancel_free_combines(earlier: DeltaWithMax, later: DeltaWithMax) {
    }

    proof fn lemma_squash_associative(first: DeltaWithMax, second: DeltaWithMax, third: DeltaWithMax) {
    }

    fn squash(self, later: Self) -> (result: Option<Option<Self>>) {
        match DeltaWithMax::create_merged_delta(&self, &later) {
            Some(merged) => Some(Some(merged)),
            None => None,
        }
    }
}

/// A delta that adds `value` to an aggregator bounded by `max_value`.
pub fn delta_add(value: u128, max_value: u128) -> (result: DeltaWithMax)
    ensures
        result == (DeltaWithMax { update: SignedU128::Positive(value), max_value }),
{
    DeltaWithMax { update: SignedU128::Positive(value), max_value }
}

/// A delta that takes `value` from an aggregator bounded by `max_value`.
pub fn delta_sub(value: u128, max_value: u128) -> (result: DeltaWithMax)
    ensures
        result == (DeltaWithMax { update: SignedU128::Negative(value), max_value }),
{
    DeltaWithMax { update: SignedU128::Negative(value), max_value }
}

} // verus!
