//! Confirmed local extrema with a look-back of `left` and a look-ahead of
//! `right` steps.
//!
//! The candidate is the value `right` steps in the past. It is a pivot high
//! when it is strictly above each of the `left` values before it and the
//! `right` values after it (pivot low: strictly below). Confirmation needs
//! the `right` later values, so a pivot at step `i` is reported at step
//! `i + right`, never earlier.
use vstd::prelude::*;
use crate::action::Action;
use crate::method::Method;
use crate::types::{Error, PeriodType, ValueType};
use crate::window::{fed, filled, lemma_fed, shifted, Window};

verus! {

/// The state of a pivot detector: its two window sizes and the last
/// `left + right + 1` values, oldest first.
pub struct PivotState {
    pub left: nat,
    pub right: nat,
    pub window: Seq<i64>,
}

/// `w[left]` is strictly above every other value of `w`.
pub open spec fn is_pivot_high(w: Seq<i64>, left: nat) -> bool {
    forall|j: int| 0 <= j < w.len() && j != left ==> w[j] < w[left as int]
}

/// `w[left]` is strictly below every other value of `w`.
pub open spec fn is_pivot_low(w: Seq<i64>, left: nat) -> bool {
    forall|j: int| 0 <= j < w.len() && j != left ==> w[left as int] < w[j]
}

/// The signal of a detector: a unit buy when a pivot is confirmed, neutral
/// otherwise.
pub open spec fn pivot_action(confirmed: bool) -> Action {
    if confirmed {
        Action::Buy(1)
    } else {
        Action::Neutral
    }
}

/// Whether `w[left]` is strictly above (`high`) or strictly below every other
/// value of the window.
fn window_pivot(w: &Window<ValueType>, left: usize, high: bool) -> (r: bool)
    requires
        w.wf(),
        left < w@.len(),
    ensures
        high ==> r == is_pivot_high(w@, left as nat),
        !high ==> r == is_pivot_low(w@, left as nat),
{
    let n = w.len();
    let c = w.get(left);
    let mut j: usize = 0;
    while j < n
        invariant
            w.wf(),
            n == w@.len(),
            left < n,
            c == w@[left as int],
            j <= n,
            high ==> forall|k: int| 0 <= k < j && k != left ==> w@[k] < c,
            !high ==> forall|k: int| 0 <= k < j && k != left ==> c < w@[k],
        decreases n - j,
    {
        if j != left {
            let x = w.get(j);
            if high && x >= c {
                return false;
            }
            if !high && x <= c {
                return false;
            }
        }
        j = j + 1;
    }
    true
}

/// Builds the window shared by both detectors, or refuses a zero size.
fn pivot_window(left: PeriodType, right: PeriodType, value: ValueType) -> (r: Result<
    Window<ValueType>,
    Error,
>)
    ensures
        r is Ok <==> left > 0 && right > 0,
        r is Err ==> r == Err::<Window<ValueType>, Error>(Error::InvalidParameters),
        r is Ok ==> r->Ok_0.wf() && r->Ok_0@ == filled((left + right + 1) as nat, value),
{
    if left == 0 || right == 0 {
        return Err(Error::InvalidParameters);
    }
    Ok(Window::new(left as usize + right as usize + 1, value))
}

/// Reports confirmed local maxima of a series.
#[derive(Debug, Clone)]
pub struct PivotHighSignal {
    left: PeriodType,
    right: PeriodType,
    window: Window<ValueType>,
}

impl View for PivotHighSignal {
    type V = PivotState;

    closed spec fn view(&self) -> PivotState {
        PivotState { left: self.left as nat, right: self.right as nat, window: self.window@ }
    }
}

impl Method for PivotHighSignal {
    type Params = (PeriodType, PeriodType);
    type Input = ValueType;
    type Output = Action;

    closed spec fn wf(&self) -> bool {
        &&& self.window.wf()
        &&& self.window@.len() == self.left + self.right + 1
    }

    /// Takes `(left, right)`; fails exactly when either is zero. Every slot of
    /// the window starts out as `value`.
    fn new(params: (PeriodType, PeriodType), value: ValueType) -> (r: Result<Self, Error>)
        ensures
            r is Ok <==> params.0 > 0 && params.1 > 0,
            r is Err ==> r == Err::<Self, Error>(Error::InvalidParameters),
            r is Ok ==> r->Ok_0@ == (PivotState {
                left: params.0 as nat,
                right: params.1 as nat,
                window: filled((params.0 + params.1 + 1) as nat, value),
            }),
    {
        let (left, right) = params;
        match pivot_window(left, right, value) {
            Ok(window) => Ok(PivotHighSignal { left, right, window }),
            Err(e) => Err(e),
        }
    }

    /// Pushes `value` and reports whether the value `right` steps back is now
    /// a confirmed pivot high.
    fn next(&mut self, value: ValueType) -> (r: Action)
        ensures
            final(self)@ == (PivotState { window: shifted(old(self)@.window, value), ..old(self)@ }),
            r == pivot_action(is_pivot_high(final(self)@.window, final(self)@.left)),
    {
        self.window.push(value);
        if window_pivot(&self.window, self.left as usize, true) {
            Action::Buy(1)
        } else {
            Action::Neutral
        }
    }
}

/// Reports confirmed local minima of a series.
#[derive(Debug, Clone)]
pub struct PivotLowSignal {
    left: PeriodType,
    right: PeriodType,
    window: Window<ValueType>,
}

impl View for PivotLowSignal {
    type V = PivotState;

    closed spec fn view(&self) -> PivotState {
        PivotState { left: self.left as nat, right: self.right as nat, window: self.window@ }
    }
}

impl Method for PivotLowSignal {
    type Params = (PeriodType, PeriodType);
    type Input = ValueType;
    type Output = Action;

    closed spec fn wf(&self) -> bool {
        &&& self.window.wf()
        &&& self.window@.len() == self.left + self.right + 1
    }

    /// Takes `(left, right)`; fails exactly when either is zero. Every slot of
    /// the window starts out as `value`.
    fn new(params: (PeriodType, PeriodType), value: ValueType) -> (r: Result<Self, Error>)
        ensures
            r is Ok <==> params.0 > 0 && params.1 > 0,
            r is Err ==> r == Err::<Self, Error>(Error::InvalidParameters),
            r is Ok ==> r->Ok_0@ == (PivotState {
                left: params.0 as nat,
                right: params.1 as nat,
                window: filled((params.0 + params.1 + 1) as nat, value),
            }),
    {
        let (left, right) = params;
        match pivot_window(left, right, value) {
            Ok(window) => Ok(PivotLowSignal { left, right, window }),
            Err(e) => Err(e),
        }
    }

    /// Pushes `value` and reports whether the value `right` steps back is now
    /// a confirmed pivot low.
    fn next(&mut self, value: ValueType) -> (r: Action)
        ensures
            final(self)@ == (PivotState { window: shifted(old(self)@.window, value), ..old(self)@ }),
            r == pivot_action(is_pivot_low(final(self)@.window, final(self)@.left)),
    {
        self.window.push(value);
        if window_pivot(&self.window, self.left as usize, false) {
            Action::Buy(1)
        } else {
            Action::Neutral
        }
    }
}

/// The value that a detector fed `xs` from `seed` saw `back` steps before
/// step `n`; the seed stands in for the steps before the first.
pub open spec fn seen(seed: i64, xs: Seq<i64>, n: int, back: int) -> i64 {
    if n - back >= 0 {
        xs[n - back]
    } else {
        seed
    }
}

/// After step `n` of a detector fed `xs` from `seed`, the candidate in its
/// window is the input of step `n - right`, flanked by the `left` inputs
/// before it and the `right` inputs after it. A pivot (high or low) at step
/// `i` is therefore reported at step `i + right` and no earlier: before step
/// `right` the candidate is the seed, which `left` copies of itself flank,
/// and nothing is reported.
pub proof fn lemma_pivot_lag(left: nat, right: nat, seed: i64, xs: Seq<i64>, n: int)
    requires
        left >= 1,
        right >= 1,
        0 <= n < xs.len(),
    ensures
        ({
            let w = fed(filled(left + right + 1, seed), xs.take(n + 1));
            &&& w.len() == left + right + 1
            &&& forall|j: int|
                0 <= j < w.len() ==> #[trigger] w[j] == seen(seed, xs, n, right + left - j)
            &&& is_pivot_high(w, left) ==> n >= right
            &&& is_pivot_low(w, left) ==> n >= right
        }),
{
    let size = left + right + 1;
    let ys = xs.take(n + 1);
    lemma_fed(filled(size, seed), ys);
    let w = fed(filled(size, seed), ys);
    assert forall|j: int| 0 <= j < w.len() implies #[trigger] w[j] == seen(
        seed,
        xs,
        n,
        right + left - j,
    ) by {
        let k = n + 1 + j;
        if k < size {
            assert(w[j] == filled(size, seed)[k]);
        } else {
            assert(w[j] == ys[k - size]);
        }
    }
    if n < right {
        assert(w[0] == seed);
        assert(w[left as int] == seed);
        assert(!is_pivot_high(w, left));
        assert(!is_pivot_low(w, left));
    }
}

} // verus!
