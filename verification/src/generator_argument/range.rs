//! Randomized bounded ranges: values drawn uniformly between two bounds.

use vstd::prelude::*;

use crate::generator_argument::RangeParameter;

verus! {

/// A value that can be drawn uniformly at random from a bounded interval.
pub trait SampleUniformValue: Sized + Copy {
    /// The order by which the interval's bounds are compared.
    spec fn le(self, other: Self) -> bool;

    /// Draw a value from `[lower, upper)`, or `lower` itself when the interval
    /// is empty.
    fn sample_between(lower: Self, upper: Self) -> (r: Self)
        requires
            lower.le(upper),
        ensures
            lower.le(r),
            r.le(upper),
            r == upper ==> lower == upper,
    ;
}

/// Relies on rand's `Rng::gen_range` over a `thread_rng`: a value drawn
/// uniformly from the half-open interval `[lower, upper)`, which must not be
/// empty.
#[verifier::external_body]
fn sample_usize(lower: usize, upper: usize) -> (r: usize)
    requires
        lower < upper,
    ensures
        lower <= r < upper,
{
    rand::Rng::gen_range(&mut rand::thread_rng(), lower..upper)
}

/// Relies on rand's `Rng::gen_range` over a `thread_rng`: a value drawn
/// uniformly from the half-open interval `[lower, upper)`, which must not be
/// empty.
#[verifier::external_body]
fn sample_i64(lower: i64, upper: i64) -> (r: i64)
    requires
        lower < upper,
    ensures
        lower <= r < upper,
{
    rand::Rng::gen_range(&mut rand::thread_rng(), lower..upper)
}

impl SampleUniformValue for usize {
    open spec fn le(self, other: Self) -> bool {
        self <= other
    }

    fn sample_between(lower: Self, upper: Self) -> (r: Self) {
        if lower < upper {
            sample_usize(lower, upper)
        } else {
            lower
        }
    }
}

impl SampleUniformValue for i64 {
    open spec fn le(self, other: Self) -> bool {
        self <= other
    }

    fn sample_between(lower: Self, upper: Self) -> (r: Self) {
        if lower < upper {
            sample_i64(lower, upper)
        } else {
            lower
        }
    }
}

/// Generator of random numbers with an upper and lower bound.
pub struct RandomBoundedNumberRange<T: SampleUniformValue> {
    /// Lower bound.
    lower: T,
    /// Upper bound.
    upper: T,
}

impl<T: SampleUniformValue> RandomBoundedNumberRange<T> {
    /// The invariant of every bounded range: its bounds are ordered.
    #[verifier::type_invariant]
    pub closed spec fn bounds_ordered(self) -> bool {
        self.lower.le(self.upper)
    }

    /// The lower bound.
    pub closed spec fn spec_lower(self) -> T {
        self.lower
    }

    /// The upper bound.
    pub closed spec fn spec_upper(self) -> T {
        self.upper
    }

    /// Make a bounded range; the lower bound must not exceed the upper bound.
    pub fn new(lower: T, upper: T) -> (r: Self)
        requires
            lower.le(upper),
        ensures
            r.spec_lower() == lower,
            r.spec_upper() == upper,
    {
        RandomBoundedNumberRange { lower, upper }
    }
}

impl<T: SampleUniformValue> RangeParameter<T> for RandomBoundedNumberRange<T> {
    open spec fn can_yield(&self, value: T) -> bool {
        &&& self.spec_lower().le(value)
        &&& value.le(self.spec_upper())
        &&& value == self.spec_upper() ==> self.spec_lower() == self.spec_upper()
    }

    fn next(&self) -> (value: T) {
        proof {
            use_type_invariant(self);
        }
        T::sample_between(self.lower, self.upper)
    }
}

} // verus!
