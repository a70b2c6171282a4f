//! What a price bar has to offer to be fed to an indicator.
use vstd::prelude::*;
use crate::types::ValueType;

verus! {

/// Anything with an open, a high, a low and a close price.
pub trait OHLC {
    spec fn open_spec(&self) -> ValueType;

    spec fn high_spec(&self) -> ValueType;

    spec fn low_spec(&self) -> ValueType;

    spec fn close_spec(&self) -> ValueType;

    fn open(&self) -> (r: ValueType)
        ensures
            r == self.open_spec(),
    ;

    fn high(&self) -> (r: ValueType)
        ensures
            r == self.high_spec(),
    ;

    fn low(&self) -> (r: ValueType)
        ensures
            r == self.low_spec(),
    ;

    fn close(&self) -> (r: ValueType)
        ensures
            r == self.close_spec(),
    ;
}

/// A plain price bar.
#[derive(Debug, Clone, Copy, PartialEq, Eq, Structural)]
pub struct Candle {
    pub open: ValueType,
    pub high: ValueType,
    pub low: ValueType,
    pub close: ValueType,
}

impl OHLC for Candle {
    open spec fn open_spec(&self) -> ValueType {
        self.open
    }

    open spec fn high_spec(&self) -> ValueType {
        self.high
    }

    open spec fn low_spec(&self) -> ValueType {
        self.low
    }

    open spec fn close_spec(&self) -> ValueType {
        self.close
    }

    fn open(&self) -> (r: ValueType) {
        self.open
    }

    fn high(&self) -> (r: ValueType) {
        self.high
    }

    fn low(&self) -> (r: ValueType) {
        self.low
    }

    fn close(&self) -> (r: ValueType) {
        self.close
    }
}

/// Which price of a bar an indicator reads.
#[derive(Debug, Clone, Copy, PartialEq, Eq, Structural)]
pub enum Source {
    Open,
    High,
    Low,
    Close,
}

} // verus!
