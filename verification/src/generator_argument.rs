//! The user-facing arguments of a generation run: the range-parameter
//! capability, and the argument bundling a relation generator with a base URL.

use vstd::prelude::*;

use crate::generator_argument::relation_argument::RelationGeneratorArg;

pub mod range;
pub mod relation_argument;

verus! {

/// A strategy producing the next value of a generic type on demand.
pub trait RangeParameter<T> {
    /// Which values this strategy may hand out. An implementation that does not
    /// say leaves it arbitrary, promising nothing about its values.
    open spec fn can_yield(&self, value: T) -> bool {
        arbitrary()
    }

    /// Get the next value.
    fn next(&self) -> (value: T)
        ensures
            self.can_yield(value),
    ;
}

/// A boxed strategy hands out exactly what the strategy inside it does, so a
/// trait object in a field serves wherever a strategy is asked for.
impl<T, R: RangeParameter<T> + ?Sized> RangeParameter<T> for Box<R> {
    open spec fn can_yield(&self, value: T) -> bool {
        (**self).can_yield(value)
    }

    fn next(&self) -> (value: T)
        ensures
            self.can_yield(value),
    {
        (**self).next()
    }
}

/// Argument necessary to generate a TREE document at the user's request.
#[verifier::reject_recursive_types(T)]
pub struct Args<T> {
    /// Relation argument.
    pub relation: RelationGeneratorArg<T>,
    /// Base url without the trailing "/".
    pub base_url: String,
}

} // verus!
