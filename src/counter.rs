use vstd::prelude::*;

verus! {

/// The value handed to the guest once the counter is exhausted.
pub const END_MARKER: i64 = -1;

/// The sum `0 + 1 + ... + (n - 1)`; zero when `n <= 0`.
pub open spec fn sum_below(n: int) -> int
    decreases n,
{
    if n <= 0 {
        0
    } else {
        sum_below(n - 1) + (n - 1)
    }
}

/// The values `lo, lo + 1, ..., hi - 1`; empty when `hi <= lo`.
pub open spec fn range_seq(lo: int, hi: int) -> Seq<i64>
    recommends
        i64::MIN <= lo,
        hi <= i64::MAX + 1,
{
    Seq::new(if hi <= lo { 0 } else { (hi - lo) as nat }, |i: int| (lo + i) as i64)
}

/// A counter that yields `0, 1, ..., max - 1` and then nothing.
#[derive(Debug)]
pub struct CounterState {
    current: i64,
    max: i64,
}

impl CounterState {
    /// The next value to be handed out.
    pub closed spec fn cur(&self) -> int {
        self.current as int
    }

    /// The exclusive bound.
    pub closed spec fn bound(&self) -> int {
        self.max as int
    }

    /// The position never goes below zero, and goes past zero only up to the bound.
    pub open spec fn wf(&self) -> bool {
        0 <= self.cur() && (self.cur() <= self.bound() || self.cur() == 0)
    }

    /// How many values are still to come.
    pub open spec fn remaining(&self) -> int {
        if self.cur() < self.bound() {
            self.bound() - self.cur()
        } else {
            0
        }
    }

    /// The values still to come, in order.
    pub open spec fn rest(&self) -> Seq<i64> {
        range_seq(self.cur(), self.bound())
    }

    pub fn new(max: i64) -> (r: CounterState)
        ensures
            r.wf(),
            r.cur() == 0,
            r.bound() == max,
    {
        CounterState { current: 0, max }
    }

    pub fn current(&self) -> (r: i64)
        ensures
            r == self.cur(),
    {
        self.current
    }

    pub fn max(&self) -> (r: i64)
        ensures
            r == self.bound(),
    {
        self.max
    }

    /// Hands out the next value, or `None` once the bound is reached.
    pub fn next(&mut self) -> (r: Option<i64>)
        requires
            old(self).wf(),
        ensures
            final(self).wf(),
            final(self).bound() == old(self).bound(),
            old(self).cur() < old(self).bound() ==> r == Some(old(self).cur() as i64)
                && final(self).cur() == old(self).cur() + 1,
            old(self).cur() >= old(self).bound() ==> r is None && final(self).cur() == old(
                self,
            ).cur(),
    {
        if self.current < self.max {
            let result = self.current;
            self.current = self.current + 1;
            Some(result)
        } else {
            None
        }
    }
    /// Hands out the next value, or `END_MARKER` once the bound is reached:
    /// the form in which the guest receives one value per call.
    pub fn next_value(&mut self) -> (r: i64)
        requires
            old(self).wf(),
        ensures
            final(self).wf(),
            final(self).bound() == old(self).bound(),
            old(self).cur() < old(self).bound() ==> r == old(self).cur() && final(self).cur()
                == old(self).cur() + 1,
            old(self).cur() >= old(self).bound() ==> r == END_MARKER && final(self).cur() == old(
                self,
            ).cur(),
            r == END_MARKER <==> old(self).cur() >= old(self).bound(),
    {
        match self.next() {
            Some(value) => value,
            None => END_MARKER,
        }
    }

    /// Hands out up to `size` successive values at once; fewer only when the
    /// counter runs out, and none once it has.
    pub fn next_batch(&mut self, size: usize) -> (r: Vec<i64>)
        requires
            old(self).wf(),
        ensures
            final(self).wf(),
            final(self).bound() == old(self).bound(),
            r.len() == if size < old(self).remaining() {
                size as int
            } else {
                old(self).remaining()
            },
            final(self).cur() == old(self).cur() + r.len(),
            r@ == range_seq(old(self).cur(), final(self).cur()),
    {
        let mut batch: Vec<i64> = Vec::new();
        let ghost start = self.cur();
        while batch.len() < size
            invariant
                self.wf(),
                self.bound() == old(self).bound(),
                start == old(self).cur(),
                self.cur() == start + batch.len(),
                batch.len() <= size,
                batch.len() <= old(self).remaining(),
                batch@ == range_seq(start, self.cur()),
            ensures
                batch.len() == size || self.cur() >= self.bound(),
            decreases size - batch.len(),
        {
            match self.next() {
                Some(value) => {
                    batch.push(value);
                    assert(batch@ =~= range_seq(start, self.cur()));
                },
                None => {
                    break;
                },
            }
        }
        batch
    }
}

/// The sum of all values the counter for `max` hands out, or `None` where
/// that sum does not fit in an `i64`.
pub fn native_sum(max: i64) -> (r: Option<i64>)
    ensures
        sum_below(max as int) <= i64::MAX ==> r == Some(sum_below(max as int) as i64),
        sum_below(max as int) > i64::MAX ==> r is None,
{
    let mut counter = CounterState::new(max);
    let mut acc: i64 = 0;
    loop
        invariant
            counter.wf(),
            counter.bound() == max,
            acc == sum_below(counter.cur()),
        decreases counter.remaining(),
    {
        match counter.next() {
            Some(value) => {
                match acc.checked_add(value) {
                    Some(s) => {
                        acc = s;
                    },
                    None => {
                        proof {
                            lemma_sum_below_monotone(counter.cur(), max as int);
                        }
                        return None;
                    },
                }
            },
            None => {
                return Some(acc);
            },
        }
    }
}

/// `sum_below` never decreases as its bound grows.
pub proof fn lemma_sum_below_monotone(a: int, b: int)
    requires
        a <= b,
    ensures
        sum_below(a) <= sum_below(b),
    decreases b - a,
{
    if a < b {
        lemma_sum_below_monotone(a, b - 1);
        lemma_sum_below_nonneg(b - 1);
    }
}

/// `sum_below` is never negative.
pub proof fn lemma_sum_below_nonneg(n: int)
    ensures
        sum_below(n) >= 0,
    decreases n,
{
    if n > 0 {
        lemma_sum_below_nonneg(n - 1);
    }
}

/// Twice the sum of the values a counter for bound `n >= 0` hands out is `n * (n - 1)`.
pub proof fn lemma_sum_below_closed_form(n: int)
    requires
        n >= 0,
    ensures
        2 * sum_below(n) == n * (n - 1),
    decreases n,
{
    if n > 0 {
        lemma_sum_below_closed_form(n - 1);
        assert(2 * sum_below(n - 1) == (n - 1) * (n - 2));
        assert(sum_below(n) == sum_below(n - 1) + (n - 1));
        assert(n * (n - 1) == (n - 1) * (n - 2) + 2 * (n - 1)) by (nonlinear_arith);
    } else {
        assert(n * (n - 1) == 0) by (nonlinear_arith)
            requires
                n == 0,
        ;
    }
}

} // verus!
