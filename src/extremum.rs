//! Running maximum and minimum over a window, and their difference.
//!
//! Each step pushes the new value into the window. When the new value extends
//! the current extremum it is adopted at once; otherwise the whole window is
//! scanned again, because the value that left may have been the extremum. A
//! step therefore costs O(length) at worst.
use vstd::prelude::*;
use crate::method::Method;
use crate::types::{Error, PeriodType, ValueType};
use crate::window::{fed, filled, lemma_fed, shifted, Window};

verus! {

/// The largest value of a non-empty sequence.
pub open spec fn seq_max(s: Seq<i64>) -> i64
    decreases s.len(),
{
    if s.len() <= 1 {
        s[0]
    } else if s.last() > seq_max(s.drop_last()) {
        s.last()
    } else {
        seq_max(s.drop_last())
    }
}

/// The smallest value of a non-empty sequence.
pub open spec fn seq_min(s: Seq<i64>) -> i64
    decreases s.len(),
{
    if s.len() <= 1 {
        s[0]
    } else if s.last() < seq_min(s.drop_last()) {
        s.last()
    } else {
        seq_min(s.drop_last())
    }
}

/// `seq_max` is an element of the sequence and no element exceeds it.
pub proof fn lemma_seq_max(s: Seq<i64>)
    requires
        s.len() > 0,
    ensures
        s.contains(seq_max(s)),
        forall|i: int| 0 <= i < s.len() ==> s[i] <= seq_max(s),
    decreases s.len(),
{
    if s.len() > 1 {
        lemma_seq_max(s.drop_last());
        let m = seq_max(s.drop_last());
        let k = choose|k: int| 0 <= k < s.drop_last().len() && s.drop_last()[k] == m;
        assert(s[k] == m);
        assert forall|i: int| 0 <= i < s.len() implies s[i] <= seq_max(s) by {
            if i < s.len() - 1 {
                assert(s[i] == s.drop_last()[i]);
            }
        }
        if s.last() > m {
            assert(s[s.len() - 1] == seq_max(s));
        }
    } else {
        assert(s[0] == seq_max(s));
    }
}

/// `seq_min` is an element of the sequence and no element is below it.
pub proof fn lemma_seq_min(s: Seq<i64>)
    requires
        s.len() > 0,
    ensures
        s.contains(seq_min(s)),
        forall|i: int| 0 <= i < s.len() ==> seq_min(s) <= s[i],
    decreases s.len(),
{
    if s.len() > 1 {
        lemma_seq_min(s.drop_last());
        let m = seq_min(s.drop_last());
        let k = choose|k: int| 0 <= k < s.drop_last().len() && s.drop_last()[k] == m;
        assert(s[k] == m);
        assert forall|i: int| 0 <= i < s.len() implies seq_min(s) <= s[i] by {
            if i < s.len() - 1 {
                assert(s[i] == s.drop_last()[i]);
            }
        }
        if s.last() < m {
            assert(s[s.len() - 1] == seq_min(s));
        }
    } else {
        assert(s[0] == seq_min(s));
    }
}

/// An element that no element exceeds is the maximum.
pub proof fn lemma_seq_max_unique(s: Seq<i64>, m: i64)
    requires
        s.contains(m),
        forall|i: int| 0 <= i < s.len() ==> s[i] <= m,
    ensures
        seq_max(s) == m,
{
    lemma_seq_max(s);
    let k = choose|k: int| 0 <= k < s.len() && s[k] == seq_max(s);
    let j = choose|j: int| 0 <= j < s.len() && s[j] == m;
    assert(s[k] <= m);
    assert(s[j] <= seq_max(s));
}

/// An element that no element is below is the minimum.
pub proof fn lemma_seq_min_unique(s: Seq<i64>, m: i64)
    requires
        s.contains(m),
        forall|i: int| 0 <= i < s.len() ==> m <= s[i],
    ensures
        seq_min(s) == m,
{
    lemma_seq_min(s);
    let k = choose|k: int| 0 <= k < s.len() && s[k] == seq_min(s);
    let j = choose|j: int| 0 <= j < s.len() && s[j] == m;
    assert(m <= s[k]);
    assert(seq_min(s) <= s[j]);
}

/// A pushed value that reaches the maximum of the window before the push is
/// the maximum after it.
proof fn lemma_max_extended(w: Seq<i64>, v: i64)
    requires
        w.len() > 0,
        v >= seq_max(w),
    ensures
        seq_max(shifted(w, v)) == v,
{
    lemma_seq_max(w);
    let s = shifted(w, v);
    assert(s[s.len() - 1] == v);
    assert forall|i: int| 0 <= i < s.len() implies s[i] <= v by {
        if i < s.len() - 1 {
            assert(s[i] == w[i + 1]);
        }
    }
    lemma_seq_max_unique(s, v);
}

/// A pushed value that is at most the minimum of the window before the push
/// is the minimum after it.
proof fn lemma_min_extended(w: Seq<i64>, v: i64)
    requires
        w.len() > 0,
        v <= seq_min(w),
    ensures
        seq_min(shifted(w, v)) == v,
{
    lemma_seq_min(w);
    let s = shifted(w, v);
    assert(s[s.len() - 1] == v);
    assert forall|i: int| 0 <= i < s.len() implies v <= s[i] by {
        if i < s.len() - 1 {
            assert(s[i] == w[i + 1]);
        }
    }
    lemma_seq_min_unique(s, v);
}

/// Scans the whole window for its largest value.
fn window_max(w: &Window<i64>) -> (r: i64)
    requires
        w.wf(),
        w@.len() > 0,
    ensures
        r == seq_max(w@),
{
    let n = w.len();
    let mut acc = w.get(0);
    let mut i: usize = 1;
    assert(w@.subrange(0, 1).len() == 1);
    while i < n
        invariant
            w.wf(),
            n == w@.len(),
            1 <= i <= n,
            acc == seq_max(w@.subrange(0, i as int)),
        decreases n - i,
    {
        let x = w.get(i);
        assert(w@.subrange(0, i as int + 1).drop_last() =~= w@.subrange(0, i as int));
        if x > acc {
            acc = x;
        }
        i = i + 1;
    }
    assert(w@.subrange(0, n as int) =~= w@);
    acc
}

/// Scans the whole window for its smallest value.
fn window_min(w: &Window<i64>) -> (r: i64)
    requires
        w.wf(),
        w@.len() > 0,
    ensures
        r == seq_min(w@),
{
    let n = w.len();
    let mut acc = w.get(0);
    let mut i: usize = 1;
    assert(w@.subrange(0, 1).len() == 1);
    while i < n
        invariant
            w.wf(),
            n == w@.len(),
            1 <= i <= n,
            acc == seq_min(w@.subrange(0, i as int)),
        decreases n - i,
    {
        let x = w.get(i);
        assert(w@.subrange(0, i as int + 1).drop_last() =~= w@.subrange(0, i as int));
        if x < acc {
            acc = x;
        }
        i = i + 1;
    }
    assert(w@.subrange(0, n as int) =~= w@);
    acc
}

/// The highest of the last `length` values of a series.
#[derive(Debug, Clone)]
pub struct Highest {
    value: ValueType,
    window: Window<ValueType>,
}

impl View for Highest {
    type V = Seq<i64>;

    /// The values in the window, oldest first.
    closed spec fn view(&self) -> Seq<i64> {
        self.window@
    }
}

impl Method for Highest {
    type Params = PeriodType;
    type Input = ValueType;
    type Output = ValueType;

    closed spec fn wf(&self) -> bool {
        &&& self.window.wf()
        &&& self.window@.len() > 0
        &&& self.value == seq_max(self.window@)
    }

    /// Fails exactly when `length` is zero; otherwise every slot of the window
    /// holds `value`.
    fn new(length: PeriodType, value: ValueType) -> (r: Result<Self, Error>)
        ensures
            r is Ok <==> length > 0,
            r is Err ==> r == Err::<Self, Error>(Error::InvalidParameters),
            r is Ok ==> r->Ok_0@ == filled(length as nat, value),
    {
        if length == 0 {
            return Err(Error::InvalidParameters);
        }
        let window = Window::new(length as usize, value);
        let r = Highest { value, window };
        proof {
            lemma_seq_max(window@);
            lemma_seq_max_unique(window@, value);
        }
        Ok(r)
    }

    /// Pushes `value` and returns the largest value now in the window.
    fn next(&mut self, value: ValueType) -> (r: ValueType)
        ensures
            final(self)@ == shifted(old(self)@, value),
            r == seq_max(final(self)@),
    {
        let ghost w = self.window@;
        self.window.push(value);
        if value >= self.value {
            proof {
                lemma_max_extended(w, value);
            }
            self.value = value;
        } else {
            self.value = window_max(&self.window);
        }
        self.value
    }
}

/// The lowest of the last `length` values of a series.
#[derive(Debug, Clone)]
pub struct Lowest {
    value: ValueType,
    window: Window<ValueType>,
}

impl View for Lowest {
    type V = Seq<i64>;

    /// The values in the window, oldest first.
    closed spec fn view(&self) -> Seq<i64> {
        self.window@
    }
}

impl Method for Lowest {
    type Params = PeriodType;
    type Input = ValueType;
    type Output = ValueType;

    closed spec fn wf(&self) -> bool {
        &&& self.window.wf()
        &&& self.window@.len() > 0
        &&& self.value == seq_min(self.window@)
    }

    /// Fails exactly when `length` is zero; otherwise every slot of the window
    /// holds `value`.
    fn new(length: PeriodType, value: ValueType) -> (r: Result<Self, Error>)
        ensures
            r is Ok <==> length > 0,
            r is Err ==> r == Err::<Self, Error>(Error::InvalidParameters),
            r is Ok ==> r->Ok_0@ == filled(length as nat, value),
    {
        if length == 0 {
            return Err(Error::InvalidParameters);
        }
        let window = Window::new(length as usize, value);
        let r = Lowest { value, window };
        proof {
            lemma_seq_min(window@);
            lemma_seq_min_unique(window@, value);
        }
        Ok(r)
    }

    /// Pushes `value` and returns the smallest value now in the window.
    fn next(&mut self, value: ValueType) -> (r: ValueType)
        ensures
            final(self)@ == shifted(old(self)@, value),
            r == seq_min(final(self)@),
    {
        let ghost w = self.window@;
        self.window.push(value);
        if value <= self.value {
            proof {
                lemma_min_extended(w, value);
            }
            self.value = value;
        } else {
            self.value = window_min(&self.window);
        }
        self.value
    }
}

/// The difference between the highest and the lowest of the last `length`
/// values of a series. It is never negative, which is why it is unsigned.
#[derive(Debug, Clone)]
pub struct HighestLowestDelta {
    highest: Highest,
    lowest: Lowest,
}

impl View for HighestLowestDelta {
    type V = Seq<i64>;

    /// The values in the window, oldest first.
    closed spec fn view(&self) -> Seq<i64> {
        self.highest@
    }
}

impl Method for HighestLowestDelta {
    type Params = PeriodType;
    type Input = ValueType;
    type Output = u64;

    closed spec fn wf(&self) -> bool {
        &&& self.highest.wf()
        &&& self.lowest.wf()
        &&& self.highest@ == self.lowest@
    }

    /// Fails exactly when `length` is zero; otherwise every slot of the window
    /// holds `value`.
    fn new(length: PeriodType, value: ValueType) -> (r: Result<Self, Error>)
        ensures
            r is Ok <==> length > 0,
            r is Err ==> r == Err::<Self, Error>(Error::InvalidParameters),
            r is Ok ==> r->Ok_0@ == filled(length as nat, value),
    {
        let highest = match Highest::new(length, value) {
            Ok(h) => h,
            Err(e) => return Err(e),
        };
        let lowest = match Lowest::new(length, value) {
            Ok(l) => l,
            Err(e) => return Err(e),
        };
        Ok(HighestLowestDelta { highest, lowest })
    }

    /// Pushes `value` and returns the highest minus the lowest value now in
    /// the window.
    fn next(&mut self, value: ValueType) -> (r: u64)
        ensures
            final(self)@ == shifted(old(self)@, value),
            r == seq_max(final(self)@) - seq_min(final(self)@),
    {
        let hi = self.highest.next(value);
        let lo = self.lowest.next(value);
        proof {
            lemma_seq_max(self.highest@);
            lemma_seq_min(self.highest@);
            assert(self.highest@[0] <= hi);
            assert(lo <= self.highest@[0]);
        }
        (hi as i128 - lo as i128) as u64
    }
}

/// Fed a series `xs` from a seed equal to its first value, a window of
/// `length` slots holds, after step `i`, values whose maximum is the maximum
/// of the last `min(i + 1, length)` inputs, whose minimum is their minimum,
/// and the difference of the two is never negative.
pub proof fn lemma_extremum_of_recent(length: nat, xs: Seq<i64>, i: int)
    requires
        length >= 1,
        0 <= i < xs.len(),
    ensures
        ({
            let w = fed(filled(length, xs[0]), xs.take(i + 1));
            let from = if i + 1 >= length { i + 1 - length } else { 0 };
            &&& seq_max(w) == seq_max(xs.subrange(from, i + 1))
            &&& seq_min(w) == seq_min(xs.subrange(from, i + 1))
            &&& seq_min(w) <= seq_max(w)
        }),
{
    let ys = xs.take(i + 1);
    let n = i + 1;
    let seed = filled(length, xs[0]);
    lemma_fed(seed, ys);
    let w = fed(seed, ys);
    let from = if n >= length { n - length } else { 0 };
    let r = xs.subrange(from, n);
    if n >= length {
        assert(w =~= r);
    } else {
        assert(r =~= ys);
        lemma_seq_max(r);
        lemma_seq_min(r);
        assert(w.len() == length);
        assert forall|k: int| 0 <= k < w.len() implies w[k] <= seq_max(r) && seq_min(r) <= w[k] by {
            if k < length - n {
                assert(w[k] == xs[0]);
                assert(r[0] == xs[0]);
            } else {
                assert(w[k] == r[k - (length - n)]);
            }
        }
        let a = choose|a: int| 0 <= a < r.len() && r[a] == seq_max(r);
        assert(w[a + (length - n)] == r[a]);
        lemma_seq_max_unique(w, seq_max(r));
        let b = choose|b: int| 0 <= b < r.len() && r[b] == seq_min(r);
        assert(w[b + (length - n)] == r[b]);
        lemma_seq_min_unique(w, seq_min(r));
    }
    lemma_seq_max(w);
    lemma_seq_min(w);
    assert(seq_min(w) <= w[0] <= seq_max(w));
}

/// With a window of one slot the highest and the lowest value coincide, so
/// their difference is zero at every step, whatever the inputs.
pub proof fn lemma_delta_of_length_one(seed: i64, xs: Seq<i64>)
    ensures
        forall|k: int|
            0 <= k <= xs.len() ==> seq_max(#[trigger] fed(filled(1, seed), xs.take(k)))
                - seq_min(fed(filled(1, seed), xs.take(k))) == 0,
{
    assert forall|k: int| 0 <= k <= xs.len() implies seq_max(
        #[trigger] fed(filled(1, seed), xs.take(k)),
    ) - seq_min(fed(filled(1, seed), xs.take(k))) == 0 by {
        lemma_fed(filled(1, seed), xs.take(k));
        let w = fed(filled(1, seed), xs.take(k));
        assert(w.len() == 1);
    }
}

} // verus!
