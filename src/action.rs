//! Discrete trading signals.
use vstd::prelude::*;

verus! {

/// A ternary signal with a strength: buy-like, sell-like, or neutral (no signal).
///
/// Strength is counted in units on a 0..=255 scale; a plain crossing or a
/// confirmed pivot has strength 1, and 128 stands for half of the full scale.
#[derive(Debug, Clone, Copy, PartialEq, Eq, Structural)]
pub enum Action {
    Buy(u8),
    Neutral,
    Sell(u8),
}

/// The action for a signed value: zero is no signal, a positive value a buy
/// and a negative value a sell, each with the value's magnitude.
pub open spec fn action_of(v: int) -> Action {
    if v > 0 {
        Action::Buy(v as u8)
    } else if v < 0 {
        Action::Sell((-v) as u8)
    } else {
        Action::Neutral
    }
}

/// The polarity of an action: 1 for a buy, -1 for a sell, 0 for none.
pub open spec fn polarity(a: Action) -> i8 {
    match a {
        Action::Buy(_) => 1,
        Action::Neutral => 0,
        Action::Sell(_) => -1i8,
    }
}

impl Action {
    /// The action for a signed value, with its magnitude as strength.
    pub fn from_analog(v: i8) -> (r: Action)
        ensures
            r == action_of(v as int),
    {
        if v > 0 {
            Action::Buy(v as u8)
        } else if v < 0 {
            Action::Sell((-(v as i16)) as u8)
        } else {
            Action::Neutral
        }
    }

    /// The polarity: 1 for a buy, -1 for a sell, 0 for none.
    pub fn analog(&self) -> (r: i8)
        ensures
            r == polarity(*self),
    {
        match self {
            Action::Buy(_) => 1,
            Action::Neutral => 0,
            Action::Sell(_) => -1,
        }
    }

    /// Whether this is no signal at all.
    pub fn is_none(&self) -> (r: bool)
        ensures
            r == (*self == Action::Neutral),
    {
        match self {
            Action::Neutral => true,
            _ => false,
        }
    }
}

} // verus!
