//! The shape that every streaming transform has.
use vstd::prelude::*;
use crate::types::Error;

verus! {

/// A stateful computation advanced one input at a time.
///
/// A transform is built from its parameters and a seed input, which fills its
/// internal state so that the first call of `next` is well defined. Each call
/// of `next` consumes one input and returns one output; the output depends on
/// the inputs seen so far and never on later ones.
pub trait Method: Sized {
    type Params;
    type Input;
    type Output;

    /// The transform's internal state is consistent.
    spec fn wf(&self) -> bool;

    /// Builds the transform, or refuses parameters that it cannot work with.
    fn new(params: Self::Params, value: Self::Input) -> (r: Result<Self, Error>)
        ensures
            r is Ok ==> r->Ok_0.wf(),
    ;

    /// Consumes one input and returns the output for it.
    fn next(&mut self, value: Self::Input) -> (r: Self::Output)
        requires
            old(self).wf(),
        ensures
            final(self).wf(),
    ;
}

} // verus!
