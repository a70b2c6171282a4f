//! A fixed-capacity window over the most recent values of a series.
use vstd::prelude::*;

verus! {

/// The last `capacity` values of a series, kept in a ring buffer.
///
/// The window is full from the moment it is built: every slot starts out as
/// the seed, and each push puts one value in and takes the oldest one out.
/// Its view lists the values from the oldest to the newest.
#[derive(Debug, Clone)]
pub struct Window<T> {
    buf: Vec<T>,
    index: usize,
}

impl<T> View for Window<T> {
    type V = Seq<T>;

    closed spec fn view(&self) -> Seq<T> {
        self.buf@.subrange(self.index as int, self.buf@.len() as int) + self.buf@.subrange(
            0,
            self.index as int,
        )
    }
}

/// A sequence of `n` copies of `v`.
pub open spec fn filled<T>(n: nat, v: T) -> Seq<T> {
    Seq::new(n, |_i: int| v)
}

/// The window `w` after `v` has been pushed into it: the oldest value leaves,
/// `v` becomes the newest.
pub open spec fn shifted<T>(w: Seq<T>, v: T) -> Seq<T> {
    w.drop_first().push(v)
}

/// The window `w` after each value of `xs` has been pushed, in order.
pub open spec fn fed<T>(w: Seq<T>, xs: Seq<T>) -> Seq<T>
    decreases xs.len(),
{
    if xs.len() == 0 {
        w
    } else {
        shifted(fed(w, xs.drop_last()), xs.last())
    }
}

/// Pushing the values `xs` into a window `w` leaves the last `w.len()`
/// values of `w` followed by `xs`.
pub proof fn lemma_fed<T>(w: Seq<T>, xs: Seq<T>)
    requires
        w.len() > 0,
    ensures
        fed(w, xs) == (w + xs).subrange(xs.len() as int, (xs.len() + w.len()) as int),
    decreases xs.len(),
{
    if xs.len() > 0 {
        lemma_fed(w, xs.drop_last());
        assert(fed(w, xs) =~= (w + xs).subrange(xs.len() as int, (xs.len() + w.len()) as int));
    } else {
        assert(fed(w, xs) =~= (w + xs).subrange(0, w.len() as int));
    }
}

/// A window keeps its length, and once as many values have been pushed as it
/// has slots, it holds exactly those values: nothing of the seed is left.
pub proof fn lemma_full_turnover<T>(capacity: nat, seed: T, xs: Seq<T>)
    requires
        capacity > 0,
        xs.len() == capacity,
    ensures
        fed(filled(capacity, seed), xs) == xs,
        forall|k: nat| k <= capacity ==> #[trigger] fed(filled(capacity, seed), xs.take(k as int)).len() == capacity,
{
    let w = filled(capacity, seed);
    lemma_fed(w, xs);
    assert(fed(w, xs) =~= xs);
    assert forall|k: nat| k <= capacity implies #[trigger] fed(w, xs.take(k as int)).len() == capacity by {
        lemma_fed(w, xs.take(k as int));
    }
}

impl<T: Copy> Window<T> {
    /// The buffer and its cursor agree.
    pub closed spec fn wf(&self) -> bool {
        self.index < self.buf@.len()
    }

    /// A window of `capacity` slots, each holding `seed`.
    pub fn new(capacity: usize, seed: T) -> (r: Self)
        requires
            capacity > 0,
        ensures
            r.wf(),
            r@ == filled(capacity as nat, seed),
    {
        let mut buf: Vec<T> = Vec::with_capacity(capacity);
        let mut i: usize = 0;
        while i < capacity
            invariant
                i <= capacity,
                buf@ == filled(i as nat, seed),
            decreases capacity - i,
        {
            buf.push(seed);
            i = i + 1;
            assert(buf@ =~= filled(i as nat, seed));
        }
        let r = Window { buf, index: 0 };
        assert(r@ =~= filled(capacity as nat, seed));
        r
    }

    /// Puts `value` in as the newest element and returns the oldest one,
    /// which leaves the window.
    pub fn push(&mut self, value: T) -> (evicted: T)
        requires
            old(self).wf(),
        ensures
            final(self).wf(),
            evicted == old(self)@[0],
            final(self)@ == shifted(old(self)@, value),
    {
        let n = self.buf.len();
        let i = self.index;
        let evicted = self.buf[i];
        self.buf.set(i, value);
        let next = if i + 1 == n {
            0
        } else {
            i + 1
        };
        self.index = next;
        assert(self@ =~= shifted(old(self)@, value));
        evicted
    }

    /// The number of values held, which is the capacity.
    pub fn len(&self) -> (r: usize)
        requires
            self.wf(),
        ensures
            r == self@.len(),
    {
        self.buf.len()
    }

    /// The value at `i`, counting from the oldest (`0`) to the newest.
    pub fn get(&self, i: usize) -> (r: T)
        requires
            self.wf(),
            i < self@.len(),
        ensures
            r == self@[i as int],
    {
        let n = self.buf.len();
        let k = if i < n - self.index {
            self.index + i
        } else {
            i - (n - self.index)
        };
        self.buf[k]
    }

    /// The newest value.
    pub fn newest(&self) -> (r: T)
        requires
            self.wf(),
        ensures
            r == self@.last(),
    {
        let n = self.buf.len();
        self.get(n - 1)
    }

    /// The oldest value, the one that the next push evicts.
    pub fn oldest(&self) -> (r: T)
        requires
            self.wf(),
        ensures
            r == self@[0],
    {
        self.get(0)
    }

    /// The values from the oldest to the newest.
    pub fn to_vec(&self) -> (r: Vec<T>)
        requires
            self.wf(),
        ensures
            r@ == self@,
    {
        let n = self.buf.len();
        let mut out: Vec<T> = Vec::with_capacity(n);
        let mut i: usize = 0;
        while i < n
            invariant
                self.wf(),
                n == self@.len(),
                i <= n,
                out@ == self@.subrange(0, i as int),
            decreases n - i,
        {
            out.push(self.get(i));
            i = i + 1;
            assert(out@ =~= self@.subrange(0, i as int));
        }
        assert(out@ =~= self@);
        out
    }
}

} // verus!
