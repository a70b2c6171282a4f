//! Incremental technical-analysis signals over a stream of price candles.
//!
//! Every computation here is a streaming transform: it is built from its
//! parameters and a seed value, then advanced one input at a time, producing
//! one output per input and never looking ahead. Prices are integers in a
//! fixed unit chosen by the caller (for example ticks or millionths).

pub mod action;
pub mod candle;
pub mod cross;
pub mod extremum;
pub mod indicators;
pub mod method;
pub mod parse;
pub mod pivot;
pub mod types;
pub mod window;

pub use types::{Error, PeriodType, ValueType};
pub use action::Action;
pub use candle::{Candle, Source, OHLC};
pub use cross::Cross;
pub use extremum::{Highest, HighestLowestDelta, Lowest};
pub use indicators::example::{Example, ExampleInstance};
pub use indicators::pivot_reversal_strategy::{
    PivotReversalStrategy, PivotReversalStrategyInstance,
};
pub use indicators::{IndicatorConfig, IndicatorResult};
pub use method::Method;
pub use pivot::{PivotHighSignal, PivotLowSignal};
pub use window::Window;
