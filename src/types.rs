//! Scalar types shared by every transform, and the library's error type.
use vstd::prelude::*;

verus! {

/// A price or indicator value, as an integer in a unit that the caller picks.
pub type ValueType = i64;

/// A window length or any other count of steps.
pub type PeriodType = u8;

/// What a construction or a reconfiguration can fail with.
#[derive(Debug, Clone, PartialEq, Eq)]
pub enum Error {
    /// The parameters handed to a transform or an indicator are unusable
    /// (for example a window length of zero).
    InvalidParameters,
    /// `set` was given a field name that the configuration does not have.
    UnknownField { name: String, value: String },
    /// `set` was given a value that does not parse into the field's type.
    InvalidValue { name: String, value: String },
}

} // verus!
