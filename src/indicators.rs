//! Indicators: validated configurations that build running instances, which
//! consume one candle per step and emit raw values and signals.
use vstd::prelude::*;
use crate::action::Action;
use crate::types::{Error, ValueType};

pub mod example;
pub mod pivot_reversal_strategy;

verus! {

/// The output of one step of an indicator: raw values and signals, whose
/// counts the configuration's `size` declares.
#[derive(Debug, Clone)]
pub struct IndicatorResult {
    values: Vec<ValueType>,
    signals: Vec<Action>,
}

impl View for IndicatorResult {
    type V = (Seq<ValueType>, Seq<Action>);

    closed spec fn view(&self) -> (Seq<ValueType>, Seq<Action>) {
        (self.values@, self.signals@)
    }
}

impl IndicatorResult {
    pub fn new(values: Vec<ValueType>, signals: Vec<Action>) -> (r: Self)
        ensures
            r@ == (values@, signals@),
    {
        IndicatorResult { values, signals }
    }

    /// The raw values.
    pub fn values(&self) -> (r: &Vec<ValueType>)
        ensures
            r@ == self@.0,
    {
        &self.values
    }

    /// The signals.
    pub fn signals(&self) -> (r: &Vec<Action>)
        ensures
            r@ == self@.1,
    {
        &self.signals
    }
}

/// `e` reports an unknown field `name` given the value `value`.
pub open spec fn is_unknown_field(e: Error, name: Seq<char>, value: Seq<char>) -> bool {
    match e {
        Error::UnknownField { name: n, value: v } => n@ == name && v@ == value,
        _ => false,
    }
}

/// `e` reports that `value` does not parse into the field `name`.
pub open spec fn is_invalid_value(e: Error, name: Seq<char>, value: Seq<char>) -> bool {
    match e {
        Error::InvalidValue { name: n, value: v } => n@ == name && v@ == value,
        _ => false,
    }
}

/// The error for an unknown field.
pub(crate) fn unknown_field(name: &str, value: String) -> (e: Error)
    ensures
        is_unknown_field(e, name@, value@),
{
    Error::UnknownField { name: name.to_owned(), value }
}

/// The error for a value that does not parse.
pub(crate) fn invalid_value(name: &str, value: String) -> (e: Error)
    ensures
        is_invalid_value(e, name@, value@),
{
    Error::InvalidValue { name: name.to_owned(), value }
}

/// A parameter record of an indicator.
///
/// A configuration is checked with `validate` before it builds an instance;
/// its fields can be set one by one by name, from text.
pub trait IndicatorConfig: Sized {
    /// The parameters are usable.
    spec fn valid(&self) -> bool;

    /// Whether the parameters are usable.
    fn validate(&self) -> (r: bool)
        ensures
            r == self.valid(),
    ;

    /// Sets the field called `name` to the value that `value` spells.
    fn set(&mut self, name: &str, value: String) -> (r: Result<(), Error>);

    /// The number of raw values and of signals in every result.
    fn size(&self) -> (r: (u8, u8));
}

} // verus!
