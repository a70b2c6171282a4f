//! An example indicator: it watches the close price cross a fixed `price`
//! and keeps each crossing signal alive for `period` more steps.
use vstd::prelude::*;
use crate::action::Action;
use crate::candle::{Source, OHLC};
use crate::cross::{cross_action, sign_of, Cross};
use crate::indicators::{
    invalid_value,
    is_invalid_value,
    is_unknown_field,
    unknown_field,
    IndicatorConfig,
    IndicatorResult,
};
use crate::method::Method;
use crate::parse::{i64_of, parse_i64, parse_u8, str_equal, u8_of};
use crate::types::{Error, PeriodType, ValueType};

verus! {

/// The configuration of the example indicator.
#[derive(Debug, Clone, Copy, PartialEq, Eq)]
pub struct Example {
    /// The level whose crossings by the close price are reported.
    pub price: ValueType,
    /// How many steps a crossing signal stays alive after it was raised.
    pub period: PeriodType,
    /// Which price of a candle the configuration names; this indicator
    /// compares the close whatever it holds.
    pub source: Source,
}

impl Default for Example {
    fn default() -> (r: Self)
        ensures
            r == (Example { price: 2, period: 3, source: Source::Close }),
    {
        Example { price: 2, period: 3, source: Source::Close }
    }
}

impl IndicatorConfig for Example {
    /// The level must be positive.
    open spec fn valid(&self) -> bool {
        self.price > 0
    }

    fn validate(&self) -> (r: bool) {
        self.price > 0
    }

    /// Knows the fields `price` and `period`. A value that does not parse, or
    /// an unknown name, leaves the configuration as it was and is reported.
    fn set(&mut self, name: &str, value: String) -> (r: Result<(), Error>)
        ensures
            name@ == "price"@ ==> match i64_of(value@) {
                Some(v) => r is Ok && *final(self) == (Example { price: v, ..*old(self) }),
                None => r is Err && is_invalid_value(r->Err_0, name@, value@) && *final(self)
                    == *old(self),
            },
            name@ != "price"@ && name@ == "period"@ ==> match u8_of(value@) {
                Some(v) => r is Ok && *final(self) == (Example { period: v, ..*old(self) }),
                None => r is Err && is_invalid_value(r->Err_0, name@, value@) && *final(self)
                    == *old(self),
            },
            name@ != "price"@ && name@ != "period"@ ==> r is Err && is_unknown_field(
                r->Err_0,
                name@,
                value@,
            ) && *final(self) == *old(self),
    {
        if str_equal(name, "price") {
            match parse_i64(value.as_str()) {
                Some(v) => {
                    self.price = v;
                    Ok(())
                },
                None => Err(invalid_value(name, value)),
            }
        } else if str_equal(name, "period") {
            match parse_u8(value.as_str()) {
                Some(v) => {
                    self.period = v;
                    Ok(())
                },
                None => Err(invalid_value(name, value)),
            }
        } else {
            Err(unknown_field(name, value))
        }
    }

    /// One raw value (the close) and two signals.
    fn size(&self) -> (r: (u8, u8))
        ensures
            r == (1u8, 2u8),
    {
        (1, 2)
    }
}

/// Half of the full strength scale of an `Action`.
pub const HALF_STRENGTH: u8 = 128;

/// The state of a running example indicator.
pub struct ExampleState {
    /// The configuration it was built from.
    pub cfg: Example,
    /// The sign of `close - price` at the previous step.
    pub last_sign: i8,
    /// The signal that is alive, or neutral.
    pub last_signal: Action,
    /// How many steps the live signal has been reported after the one that
    /// raised it.
    pub position: nat,
}

/// How the live signal moves on when the crossover detector reports `fresh`:
/// a new crossing replaces it; otherwise a live signal ages by one step and
/// dies once it has been reported `period` times after it was raised.
/// Returns the new live signal, which is what the step reports, and its age.
pub open spec fn decay_step(last: Action, position: nat, period: nat, fresh: Action) -> (
    Action,
    nat,
) {
    if fresh != Action::Neutral {
        (fresh, 0)
    } else if last == Action::Neutral || position >= period {
        (Action::Neutral, 0)
    } else {
        (last, position + 1)
    }
}

/// The signals reported over steps whose crossover outputs are `fresh`,
/// starting with `last` alive at age `position`.
pub open spec fn decay_run(last: Action, position: nat, period: nat, fresh: Seq<Action>) -> Seq<
    Action,
>
    decreases fresh.len(),
{
    if fresh.len() == 0 {
        Seq::empty()
    } else {
        let (l, p) = decay_step(last, position, period, fresh[0]);
        seq![l] + decay_run(l, p, period, fresh.drop_first())
    }
}

/// The state that `init` builds from a valid configuration and the seed
/// candle's close.
pub open spec fn example_initial(cfg: Example, seed_close: ValueType) -> ExampleState {
    ExampleState {
        cfg,
        last_sign: sign_of(seed_close, cfg.price),
        last_signal: Action::Neutral,
        position: 0,
    }
}

/// One step of the example indicator on a candle closing at `close`: the next
/// state, the raw values and the signals.
pub open spec fn example_step(s: ExampleState, close: ValueType) -> (
    ExampleState,
    (Seq<ValueType>, Seq<Action>),
) {
    let sign = sign_of(close, s.cfg.price);
    let fresh = cross_action(s.last_sign, sign);
    let (l, p) = decay_step(s.last_signal, s.position, s.cfg.period as nat, fresh);
    (
        ExampleState { cfg: s.cfg, last_sign: sign, last_signal: l, position: p },
        (seq![close], seq![l, Action::Buy(HALF_STRENGTH)]),
    )
}

/// The results of stepping from state `s` over candles closing at `closes`.
pub open spec fn example_run(s: ExampleState, closes: Seq<ValueType>) -> Seq<
    (Seq<ValueType>, Seq<Action>),
>
    decreases closes.len(),
{
    if closes.len() == 0 {
        Seq::empty()
    } else {
        let (next, out) = example_step(s, closes[0]);
        seq![out] + example_run(next, closes.drop_first())
    }
}

impl Example {
    /// Builds a running instance seeded with `candle`, or refuses a
    /// configuration that does not validate.
    pub fn init<T: OHLC>(self, candle: T) -> (r: Result<ExampleInstance, Error>)
        ensures
            r is Ok <==> self.valid(),
            r is Err ==> r == Err::<ExampleInstance, Error>(Error::InvalidParameters),
            r is Ok ==> r->Ok_0.wf() && r->Ok_0@ == example_initial(self, candle.close_spec()),
    {
        if !self.validate() {
            return Err(Error::InvalidParameters);
        }
        let cross = match Cross::new((), (candle.close(), self.price)) {
            Ok(c) => c,
            Err(e) => return Err(e),
        };
        Ok(ExampleInstance { cfg: self, cross, last_signal: Action::Neutral, last_signal_position: 0 })
    }
}

/// A running example indicator.
#[derive(Debug, Clone, Copy)]
pub struct ExampleInstance {
    cfg: Example,
    cross: Cross,
    last_signal: Action,
    last_signal_position: PeriodType,
}

impl View for ExampleInstance {
    type V = ExampleState;

    closed spec fn view(&self) -> ExampleState {
        ExampleState {
            cfg: self.cfg,
            last_sign: self.cross@,
            last_signal: self.last_signal,
            position: self.last_signal_position as nat,
        }
    }
}

impl ExampleInstance {
    /// The instance's internal state is consistent.
    pub closed spec fn wf(&self) -> bool {
        &&& self.cross.wf()
        &&& self.last_signal_position <= self.cfg.period
    }

    /// The indicator's name.
    pub fn name(&self) -> (r: &'static str)
        ensures
            r@ == "Example"@,
    {
        "Example"
    }

    /// The configuration the instance was built from.
    pub fn config(&self) -> (r: &Example)
        ensures
            *r == self@.cfg,
    {
        &self.cfg
    }

    /// Consumes one candle. The raw value is its close; the first signal is
    /// the live crossing signal, the second a constant half-strength buy.
    pub fn next<T: OHLC>(&mut self, candle: T) -> (r: IndicatorResult)
        requires
            old(self).wf(),
        ensures
            final(self).wf(),
            (final(self)@, r@) == example_step(old(self)@, candle.close_spec()),
    {
        let close = candle.close();
        let fresh = self.cross.next((close, self.cfg.price));
        let signal = if !fresh.is_none() {
            self.last_signal = fresh;
            self.last_signal_position = 0;
            fresh
        } else if self.last_signal.is_none() || self.last_signal_position >= self.cfg.period {
            self.last_signal = Action::Neutral;
            self.last_signal_position = 0;
            Action::Neutral
        } else {
            self.last_signal_position = self.last_signal_position + 1;
            self.last_signal
        };
        let values = vec![close];
        let signals = vec![signal, Action::Buy(HALF_STRENGTH)];
        let r = IndicatorResult::new(values, signals);
        proof {
            assert(r@.0 =~= seq![close]);
            assert(r@.1 =~= seq![signal, Action::Buy(HALF_STRENGTH)]);
        }
        r
    }
}

/// From a live signal of age `position` at most `period`, over steps with no
/// new crossing, the signal is reported until it has been reported `period`
/// times in all since it was raised, then neutral.
proof fn lemma_decay_alive(s: Action, position: nat, period: nat, fresh: Seq<Action>)
    requires
        s != Action::Neutral,
        position <= period,
        forall|j: int| 0 <= j < fresh.len() ==> fresh[j] == Action::Neutral,
    ensures
        decay_run(s, position, period, fresh).len() == fresh.len(),
        forall|j: int|
            0 <= j < fresh.len() && j < period - position ==> decay_run(s, position, period, fresh)[j]
                == s,
        fresh.len() > period - position ==> decay_run(s, position, period, fresh)[period
            - position] == Action::Neutral,
    decreases fresh.len(),
{
    if fresh.len() > 0 {
        let out = decay_run(s, position, period, fresh);
        let rest = fresh.drop_first();
        if position >= period {
            lemma_decay_neutral(period, rest);
            assert(out[0] == Action::Neutral);
        } else {
            lemma_decay_alive(s, position + 1, period, rest);
            let tail = decay_run(s, position + 1, period, rest);
            assert(out == seq![s] + tail);
            assert forall|j: int|
                0 <= j < fresh.len() && j < period - position implies out[j] == s by {
                if j > 0 {
                    assert(out[j] == tail[j - 1]);
                }
            }
            if fresh.len() > period - position {
                assert(out[period - position] == tail[period - position - 1]);
            }
        }
    }
}

/// With no live signal and no new crossing, the output keeps its length.
proof fn lemma_decay_neutral(period: nat, fresh: Seq<Action>)
    requires
        forall|j: int| 0 <= j < fresh.len() ==> fresh[j] == Action::Neutral,
    ensures
        decay_run(Action::Neutral, 0, period, fresh).len() == fresh.len(),
    decreases fresh.len(),
{
    if fresh.len() > 0 {
        lemma_decay_neutral(period, fresh.drop_first());
    }
}

/// A crossing signal raised at one step is reported unchanged for the next
/// `period` steps and is neutral at the step after them, as long as no new
/// crossing comes in between; whatever the signal that was alive before.
pub proof fn lemma_signal_decay(
    last: Action,
    position: nat,
    period: nat,
    s: Action,
    fresh: Seq<Action>,
)
    requires
        s != Action::Neutral,
        fresh.len() > 0,
        fresh[0] == s,
        forall|j: int| 1 <= j < fresh.len() ==> fresh[j] == Action::Neutral,
    ensures
        forall|j: int|
            0 <= j < fresh.len() && j <= period ==> #[trigger] decay_run(
                last,
                position,
                period,
                fresh,
            )[j] == s,
        fresh.len() > period + 1 ==> decay_run(last, position, period, fresh)[period + 1int]
            == Action::Neutral,
{
    let out = decay_run(last, position, period, fresh);
    let rest = fresh.drop_first();
    lemma_decay_alive(s, 0, period, rest);
    let tail = decay_run(s, 0, period, rest);
    assert(out == seq![s] + tail);
    assert forall|j: int| 0 <= j < fresh.len() && j <= period implies #[trigger] decay_run(
        last,
        position,
        period,
        fresh,
    )[j] == s by {
        if j > 0 {
            assert(out[j] == tail[j - 1]);
        }
    }
    if fresh.len() > period + 1 {
        assert(out[period + 1int] == tail[period as int]);
    }
}

/// Stepping over `a` and over `b` from the same state gives the same result
/// at step `k` when the two agree up to step `k`.
proof fn lemma_run_prefix(s: ExampleState, a: Seq<ValueType>, b: Seq<ValueType>, k: int)
    requires
        0 <= k < a.len(),
        k < b.len(),
        forall|i: int| 0 <= i <= k ==> a[i] == b[i],
    ensures
        example_run(s, a).len() == a.len(),
        example_run(s, b).len() == b.len(),
        example_run(s, a)[k] == example_run(s, b)[k],
    decreases k,
{
    let (next, out) = example_step(s, a[0]);
    lemma_run_len(next, a.drop_first());
    lemma_run_len(next, b.drop_first());
    if k > 0 {
        lemma_run_prefix(next, a.drop_first(), b.drop_first(), k - 1);
    }
}

proof fn lemma_run_len(s: ExampleState, a: Seq<ValueType>)
    ensures
        example_run(s, a).len() == a.len(),
    decreases a.len(),
{
    if a.len() > 0 {
        lemma_run_len(example_step(s, a[0]).0, a.drop_first());
    }
}

/// Two instances built from the same configuration and seed candle report
/// the same results at every step, as long as they are fed the same candles:
/// the result at a step depends on nothing but the candles up to it.
pub proof fn lemma_example_replay(
    cfg: Example,
    seed_close: ValueType,
    a: Seq<ValueType>,
    b: Seq<ValueType>,
    k: int,
)
    requires
        0 <= k < a.len(),
        k < b.len(),
        forall|i: int| 0 <= i <= k ==> a[i] == b[i],
    ensures
        example_run(example_initial(cfg, seed_close), a)[k] == example_run(
            example_initial(cfg, seed_close),
            b,
        )[k],
{
    lemma_run_prefix(example_initial(cfg, seed_close), a, b, k);
}

} // verus!
