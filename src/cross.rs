//! Detection of one series crossing another.
use vstd::prelude::*;
use crate::action::Action;
use crate::method::Method;
use crate::types::{Error, ValueType};

verus! {

/// The sign of `a - b`, found by comparison so that nothing can overflow.
pub open spec fn sign_of(a: i64, b: i64) -> i8 {
    if a > b {
        1
    } else if a < b {
        -1i8
    } else {
        0
    }
}

/// What a crossover detector reports when the sign of the difference moves
/// from `prev` to `cur`: a buy when it turns strictly positive from zero or
/// below, a sell when it turns strictly negative from zero or above, and no
/// signal otherwise.
pub open spec fn cross_action(prev: i8, cur: i8) -> Action {
    if prev <= 0 && cur > 0 {
        Action::Buy(1)
    } else if prev >= 0 && cur < 0 {
        Action::Sell(1)
    } else {
        Action::Neutral
    }
}

/// Reports when series A crosses series B, fed as pairs `(a, b)`.
///
/// The seed pair gives the sign before the first step, so a first step that
/// repeats the seed reports nothing.
#[derive(Debug, Clone, Copy)]
pub struct Cross {
    last_sign: i8,
}

impl View for Cross {
    type V = i8;

    /// The sign of `a - b` at the previous step.
    closed spec fn view(&self) -> i8 {
        self.last_sign
    }
}

impl Cross {
    fn sign(a: ValueType, b: ValueType) -> (r: i8)
        ensures
            r == sign_of(a, b),
    {
        if a > b {
            1
        } else if a < b {
            -1
        } else {
            0
        }
    }
}

impl Method for Cross {
    type Params = ();
    type Input = (ValueType, ValueType);
    type Output = Action;

    closed spec fn wf(&self) -> bool {
        -1 <= self.last_sign <= 1
    }

    /// Never fails; the seed pair fixes the previous sign.
    fn new(params: (), value: (ValueType, ValueType)) -> (r: Result<Self, Error>)
        ensures
            r is Ok,
            r->Ok_0@ == sign_of(value.0, value.1),
    {
        Ok(Cross { last_sign: Cross::sign(value.0, value.1) })
    }

    /// Consumes one pair and reports whether A crossed B at this step.
    fn next(&mut self, value: (ValueType, ValueType)) -> (r: Action)
        ensures
            final(self)@ == sign_of(value.0, value.1),
            r == cross_action(old(self)@, sign_of(value.0, value.1)),
    {
        let cur = Cross::sign(value.0, value.1);
        let prev = self.last_sign;
        self.last_sign = cur;
        if prev <= 0 && cur > 0 {
            Action::Buy(1)
        } else if prev >= 0 && cur < 0 {
            Action::Sell(1)
        } else {
            Action::Neutral
        }
    }
}

} // verus!
