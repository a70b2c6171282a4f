//! A reversal strategy built on the pivot detectors.
//!
//! It keeps the price of the last confirmed pivot high and pivot low. The
//! long-exit condition holds when a new pivot high is confirmed or the high
//! has not risen above the standing pivot-high price; the short-exit
//! condition is its mirror on the lows. The signal is short-exit minus
//! long-exit.
use vstd::prelude::*;
use crate::action::{action_of, Action};
use crate::candle::OHLC;
use crate::indicators::{
    invalid_value,
    is_invalid_value,
    is_unknown_field,
    unknown_field,
    IndicatorConfig,
    IndicatorResult,
};
use crate::method::Method;
use crate::parse::{parse_u8, str_equal, u8_of};
use crate::pivot::{is_pivot_high, is_pivot_low, PivotHighSignal, PivotLowSignal, PivotState};
use crate::types::{Error, PeriodType, ValueType};
use crate::window::{filled, shifted, Window};

verus! {

/// The configuration of the pivot reversal strategy.
#[derive(Debug, Clone, Copy, PartialEq, Eq)]
pub struct PivotReversalStrategy {
    /// How many values before a pivot it must exceed.
    pub left: PeriodType,
    /// How many values after a pivot it must exceed.
    pub right: PeriodType,
}

impl Default for PivotReversalStrategy {
    fn default() -> (r: Self)
        ensures
            r == (PivotReversalStrategy { left: 4, right: 2 }),
    {
        PivotReversalStrategy { left: 4, right: 2 }
    }
}

impl IndicatorConfig for PivotReversalStrategy {
    /// Both window sizes must be positive.
    open spec fn valid(&self) -> bool {
        self.left > 0 && self.right > 0
    }

    fn validate(&self) -> (r: bool) {
        self.left > 0 && self.right > 0
    }

    /// Knows the fields `left` and `right`. A value that does not parse, or
    /// an unknown name, leaves the configuration as it was and is reported.
    fn set(&mut self, name: &str, value: String) -> (r: Result<(), Error>)
        ensures
            name@ == "left"@ ==> match u8_of(value@) {
                Some(v) => r is Ok && *final(self) == (PivotReversalStrategy { left: v, ..*old(self) }),
                None => r is Err && is_invalid_value(r->Err_0, name@, value@) && *final(self)
                    == *old(self),
            },
            name@ != "left"@ && name@ == "right"@ ==> match u8_of(value@) {
                Some(v) => r is Ok && *final(self) == (PivotReversalStrategy { right: v, ..*old(self) }),
                None => r is Err && is_invalid_value(r->Err_0, name@, value@) && *final(self)
                    == *old(self),
            },
            name@ != "left"@ && name@ != "right"@ ==> r is Err && is_unknown_field(
                r->Err_0,
                name@,
                value@,
            ) && *final(self) == *old(self),
    {
        if str_equal(name, "left") {
            match parse_u8(value.as_str()) {
                Some(v) => {
                    self.left = v;
                    Ok(())
                },
                None => Err(invalid_value(name, value)),
            }
        } else if str_equal(name, "right") {
            match parse_u8(value.as_str()) {
                Some(v) => {
                    self.right = v;
                    Ok(())
                },
                None => Err(invalid_value(name, value)),
            }
        } else {
            Err(unknown_field(name, value))
        }
    }

    /// One raw value and one signal.
    fn size(&self) -> (r: (u8, u8))
        ensures
            r == (1u8, 1u8),
    {
        (1, 1)
    }
}

/// The state of a running pivot reversal strategy.
pub struct StrategyState {
    /// The configuration it was built from.
    pub cfg: PivotReversalStrategy,
    /// The detector of pivot highs, fed the highs.
    pub highs: PivotState,
    /// The detector of pivot lows, fed the lows.
    pub lows: PivotState,
    /// The high and low of the last `right` candles, oldest first.
    pub recent: Seq<(ValueType, ValueType)>,
    /// The price of the last confirmed pivot high.
    pub hprice: ValueType,
    /// The price of the last confirmed pivot low.
    pub lprice: ValueType,
}

/// The state that `init` builds from a valid configuration and the seed
/// candle's high and low.
pub open spec fn strategy_initial(
    cfg: PivotReversalStrategy,
    high: ValueType,
    low: ValueType,
) -> StrategyState {
    let size = (cfg.left + cfg.right + 1) as nat;
    StrategyState {
        cfg,
        highs: PivotState { left: cfg.left as nat, right: cfg.right as nat, window: filled(size, high) },
        lows: PivotState { left: cfg.left as nat, right: cfg.right as nat, window: filled(size, low) },
        recent: filled(cfg.right as nat, (high, low)),
        hprice: 0,
        lprice: 0,
    }
}

/// One step of the strategy on a candle with this `high` and `low`: the next
/// state and the signal, which is -1, 0 or 1.
pub open spec fn strategy_step(s: StrategyState, high: ValueType, low: ValueType) -> (
    StrategyState,
    int,
) {
    let highs = PivotState { window: shifted(s.highs.window, high), ..s.highs };
    let lows = PivotState { window: shifted(s.lows.window, low), ..s.lows };
    let swh = is_pivot_high(highs.window, highs.left);
    let swl = is_pivot_low(lows.window, lows.left);
    let past = s.recent[0];
    let hprice = if swh {
        past.0
    } else {
        s.hprice
    };
    let lprice = if swl {
        past.1
    } else {
        s.lprice
    };
    let long_exit = swh || high <= hprice;
    let short_exit = swl || low >= lprice;
    let r = (if short_exit {
        1int
    } else {
        0int
    }) - (if long_exit {
        1int
    } else {
        0int
    });
    (
        StrategyState {
            cfg: s.cfg,
            highs,
            lows,
            recent: shifted(s.recent, (high, low)),
            hprice,
            lprice,
        },
        r,
    )
}

/// The signals of stepping from state `s` over candles with these
/// `(high, low)` pairs.
pub open spec fn strategy_run(s: StrategyState, bars: Seq<(ValueType, ValueType)>) -> Seq<int>
    decreases bars.len(),
{
    if bars.len() == 0 {
        Seq::empty()
    } else {
        let (next, r) = strategy_step(s, bars[0].0, bars[0].1);
        seq![r] + strategy_run(next, bars.drop_first())
    }
}

impl PivotReversalStrategy {
    /// Builds a running instance seeded with `candle`, or refuses a
    /// configuration that does not validate.
    pub fn init<T: OHLC>(self, candle: T) -> (r: Result<PivotReversalStrategyInstance, Error>)
        ensures
            r is Ok <==> self.valid(),
            r is Err ==> r == Err::<PivotReversalStrategyInstance, Error>(Error::InvalidParameters),
            r is Ok ==> r->Ok_0.wf() && r->Ok_0@ == strategy_initial(
                self,
                candle.high_spec(),
                candle.low_spec(),
            ),
    {
        if !self.validate() {
            return Err(Error::InvalidParameters);
        }
        let high = candle.high();
        let low = candle.low();
        let ph = match PivotHighSignal::new((self.left, self.right), high) {
            Ok(p) => p,
            Err(e) => return Err(e),
        };
        let pl = match PivotLowSignal::new((self.left, self.right), low) {
            Ok(p) => p,
            Err(e) => return Err(e),
        };
        let window = Window::new(self.right as usize, (high, low));
        Ok(PivotReversalStrategyInstance { cfg: self, ph, pl, window, hprice: 0, lprice: 0 })
    }
}

/// A running pivot reversal strategy.
#[derive(Debug, Clone)]
pub struct PivotReversalStrategyInstance {
    cfg: PivotReversalStrategy,
    ph: PivotHighSignal,
    pl: PivotLowSignal,
    window: Window<(ValueType, ValueType)>,
    hprice: ValueType,
    lprice: ValueType,
}

impl View for PivotReversalStrategyInstance {
    type V = StrategyState;

    closed spec fn view(&self) -> StrategyState {
        StrategyState {
            cfg: self.cfg,
            highs: self.ph@,
            lows: self.pl@,
            recent: self.window@,
            hprice: self.hprice,
            lprice: self.lprice,
        }
    }
}

impl PivotReversalStrategyInstance {
    /// The instance's internal state is consistent.
    pub closed spec fn wf(&self) -> bool {
        &&& self.ph.wf()
        &&& self.pl.wf()
        &&& self.window.wf()
        &&& self.window@.len() == self.cfg.right > 0
    }

    /// The indicator's name.
    pub fn name(&self) -> (r: &'static str)
        ensures
            r@ == "PivotReversalStrategy"@,
    {
        "PivotReversalStrategy"
    }

    /// The configuration the instance was built from.
    pub fn config(&self) -> (r: &PivotReversalStrategy)
        ensures
            *r == self@.cfg,
    {
        &self.cfg
    }

    /// Consumes one candle and returns the signal, both as a raw value and
    /// as an action.
    pub fn next<T: OHLC>(&mut self, candle: T) -> (r: IndicatorResult)
        requires
            old(self).wf(),
        ensures
            final(self).wf(),
            final(self)@ == strategy_step(old(self)@, candle.high_spec(), candle.low_spec()).0,
            ({
                let s = strategy_step(old(self)@, candle.high_spec(), candle.low_spec()).1;
                r@ == (seq![s as ValueType], seq![action_of(s)])
            }),
    {
        let high = candle.high();
        let low = candle.low();
        let past = self.window.push((high, low));
        let swh = self.ph.next(high);
        let swl = self.pl.next(low);
        let mut le: i8 = 0;
        let mut se: i8 = 0;
        if swh.analog() > 0 {
            self.hprice = past.0;
        }
        if swh.analog() > 0 || high <= self.hprice {
            le = 1;
        }
        if swl.analog() > 0 {
            self.lprice = past.1;
        }
        if swl.analog() > 0 || low >= self.lprice {
            se = 1;
        }
        let s = se - le;
        let values = vec![s as ValueType];
        let signals = vec![Action::from_analog(s)];
        let r = IndicatorResult::new(values, signals);
        proof {
            assert(r@.0 =~= seq![s as ValueType]);
            assert(r@.1 =~= seq![action_of(s as int)]);
        }
        r
    }
}

proof fn lemma_strategy_run_len(s: StrategyState, a: Seq<(ValueType, ValueType)>)
    ensures
        strategy_run(s, a).len() == a.len(),
    decreases a.len(),
{
    if a.len() > 0 {
        lemma_strategy_run_len(strategy_step(s, a[0].0, a[0].1).0, a.drop_first());
    }
}

proof fn lemma_strategy_run_prefix(
    s: StrategyState,
    a: Seq<(ValueType, ValueType)>,
    b: Seq<(ValueType, ValueType)>,
    k: int,
)
    requires
        0 <= k < a.len(),
        k < b.len(),
        forall|i: int| 0 <= i <= k ==> a[i] == b[i],
    ensures
        strategy_run(s, a).len() == a.len(),
        strategy_run(s, b).len() == b.len(),
        strategy_run(s, a)[k] == strategy_run(s, b)[k],
    decreases k,
{
    let next = strategy_step(s, a[0].0, a[0].1).0;
    lemma_strategy_run_len(next, a.drop_first());
    lemma_strategy_run_len(next, b.drop_first());
    if k > 0 {
        lemma_strategy_run_prefix(next, a.drop_first(), b.drop_first(), k - 1);
    }
}

/// Two instances built from the same configuration and seed candle report
/// the same signal at every step, as long as they are fed candles with the
/// same highs and lows: the signal at a step depends on nothing but the
/// candles up to it.
pub proof fn lemma_strategy_replay(
    cfg: PivotReversalStrategy,
    seed_high: ValueType,
    seed_low: ValueType,
    a: Seq<(ValueType, ValueType)>,
    b: Seq<(ValueType, ValueType)>,
    k: int,
)
    requires
        0 <= k < a.len(),
        k < b.len(),
        forall|i: int| 0 <= i <= k ==> a[i] == b[i],
    ensures
        strategy_run(strategy_initial(cfg, seed_high, seed_low), a)[k] == strategy_run(
            strategy_initial(cfg, seed_high, seed_low),
            b,
        )[k],
{
    lemma_strategy_run_prefix(strategy_initial(cfg, seed_high, seed_low), a, b, k);
}

} // verus!
