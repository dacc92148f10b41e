//! A bounded FIFO of offset samples with the arithmetic mean of what it holds.
use std::collections::VecDeque;
use vstd::prelude::*;

use crate::{abs_of, add_of, div_of, TimeOffset};

verus! {

/// Largest magnitude of a sample that the window accepts: a round's sample
/// combines a clock difference with half of another, and each difference of
/// two `i64` instants stays below 2^64.
pub const MAX_SAMPLE: u128 = 0x4_0000_0000_0000_0000;

/// Largest capacity: the mean divides by the sample count as an `i32`.
pub const MAX_CAPACITY: usize = 0x7fff_ffff;

/// Sum of the samples from the first to the last, starting from `Later(0)`.
pub open spec fn sum_of(s: Seq<TimeOffset>) -> TimeOffset
    decreases s.len(),
{
    if s.len() == 0 {
        TimeOffset::Later(0)
    } else {
        add_of(sum_of(s.drop_last()), s.last())
    }
}

/// Sum of the signed values of the samples.
pub open spec fn value_sum(s: Seq<TimeOffset>) -> int
    decreases s.len(),
{
    if s.len() == 0 {
        0
    } else {
        value_sum(s.drop_last()) + s.last().value()
    }
}

/// Integer division rounding toward zero.
pub open spec fn div_toward_zero(v: int, n: nat) -> int {
    if v >= 0 {
        v / (n as int)
    } else {
        -((-v) / (n as int))
    }
}

/// The contents after one push into a window of the given capacity: the
/// sample goes to the back and, when that makes one too many, the oldest
/// leaves from the front.
pub open spec fn pushed(s: Seq<TimeOffset>, capacity: nat, sample: TimeOffset) -> Seq<TimeOffset> {
    if s.len() + 1 > capacity {
        s.push(sample).drop_first()
    } else {
        s.push(sample)
    }
}

/// The contents after pushing `samples` in order into an empty window.
pub open spec fn pushed_all(capacity: nat, samples: Seq<TimeOffset>) -> Seq<TimeOffset>
    decreases samples.len(),
{
    if samples.len() == 0 {
        Seq::empty()
    } else {
        pushed(pushed_all(capacity, samples.drop_last()), capacity, samples.last())
    }
}

pub open spec fn sample_ok(x: TimeOffset) -> bool {
    x.magnitude() <= MAX_SAMPLE
}

/// History of the most recent offset samples, at most `capacity` of them.
pub struct OffsetWindow {
    samples: VecDeque<TimeOffset>,
    capacity: usize,
}

impl View for OffsetWindow {
    type V = Seq<TimeOffset>;

    closed spec fn view(&self) -> Seq<TimeOffset> {
        self.samples@
    }
}

impl OffsetWindow {
    pub closed spec fn capacity_spec(&self) -> nat {
        self.capacity as nat
    }

    pub open spec fn wf(&self) -> bool {
        &&& 1 <= self.capacity_spec() <= MAX_CAPACITY
        &&& self@.len() <= self.capacity_spec()
        &&& forall|i: int| 0 <= i < self@.len() ==> sample_ok(#[trigger] self@[i])
    }

    /// An empty window that keeps at most `capacity` samples.
    pub fn new(capacity: usize) -> (r: OffsetWindow)
        requires
            1 <= capacity <= MAX_CAPACITY,
        ensures
            r.wf(),
            r@ == Seq::<TimeOffset>::empty(),
            r.capacity_spec() == capacity,
    {
        OffsetWindow { samples: VecDeque::new(), capacity }
    }

    pub fn capacity(&self) -> (r: usize)
        ensures
            r == self.capacity_spec(),
    {
        self.capacity
    }

    pub fn len(&self) -> (r: usize)
        ensures
            r == self@.len(),
    {
        self.samples.len()
    }

    /// Appends a sample, evicting the oldest one when the window was full.
    pub fn push(&mut self, sample: TimeOffset)
        requires
            old(self).wf(),
            sample_ok(sample),
        ensures
            final(self).wf(),
            final(self).capacity_spec() == old(self).capacity_spec(),
            final(self)@ == pushed(old(self)@, old(self).capacity_spec(), sample),
    {
        self.samples.push_back(sample);
        if self.samples.len() > self.capacity {
            let _ = self.samples.pop_front();
        }
    }

    /// The sum of the samples.
    pub fn sum(&self) -> (r: TimeOffset)
        requires
            self.wf(),
        ensures
            r == sum_of(self@),
            r.magnitude() <= self@.len() * MAX_SAMPLE,
    {
        let mut total = TimeOffset::Later(0);
        let n = self.samples.len();
        let mut i: usize = 0;
        while i < n
            invariant
                self.wf(),
                n == self@.len(),
                i <= n,
                total == sum_of(self@.take(i as int)),
                total.magnitude() <= i * MAX_SAMPLE,
            decreases n - i,
        {
            let x = self.samples[i];
            proof {
                assert(sample_ok(self@[i as int]));
                assert(self@.take(i + 1).drop_last() == self@.take(i as int));
            }
            total.add_assign(x);
            i = i + 1;
        }
        assert(self@.take(n as int) == self@);
        total
    }

    /// The mean of the samples: their sum divided by their count.
    pub fn mean(&self) -> (r: TimeOffset)
        requires
            self.wf(),
            self@.len() > 0,
        ensures
            r == div_of(sum_of(self@), self@.len() as i32),
            r.value() == div_toward_zero(value_sum(self@), self@.len()),
    {
        let total = self.sum();
        let n = self.samples.len() as i32;
        proof {
            lemma_sum_value(self@);
            lemma_div_value(total, n);
        }
        total.div(n)
    }
}

/// The signed value of a sum is the sum of the signed values.
pub proof fn lemma_sum_value(s: Seq<TimeOffset>)
    requires
        forall|i: int| 0 <= i < s.len() ==> sample_ok(#[trigger] s[i]),
        s.len() <= MAX_CAPACITY,
    ensures
        sum_of(s).value() == value_sum(s),
        sum_of(s).magnitude() <= s.len() * MAX_SAMPLE,
    decreases s.len(),
{
    if s.len() > 0 {
        let t = s.drop_last();
        assert forall|i: int| 0 <= i < t.len() implies sample_ok(#[trigger] t[i]) by {
            assert(t[i] == s[i]);
        }
        lemma_sum_value(t);
        assert(sample_ok(s[s.len() - 1]));
    }
}

/// Dividing by a positive count divides the signed value, rounding toward
/// zero.
pub proof fn lemma_div_value(a: TimeOffset, n: i32)
    requires
        n > 0,
    ensures
        div_of(a, n).value() == div_toward_zero(a.value(), n as nat),
{
    assert(abs_of(n) == n);
}

/// Up to the capacity nothing is evicted: the window holds every sample
/// pushed, in order, and its mean is their summed value divided by their
/// count.
pub proof fn lemma_fill_within_capacity(capacity: nat, samples: Seq<TimeOffset>)
    requires
        samples.len() <= capacity,
    ensures
        pushed_all(capacity, samples) == samples,
        0 < samples.len() <= MAX_CAPACITY && (forall|i: int|
            0 <= i < samples.len() ==> sample_ok(#[trigger] samples[i])) ==> div_of(
            sum_of(pushed_all(capacity, samples)),
            samples.len() as i32,
        ).value() == div_toward_zero(value_sum(samples), samples.len()),
    decreases samples.len(),
{
    if samples.len() > 0 {
        lemma_fill_within_capacity(capacity, samples.drop_last());
        assert(samples.drop_last().push(samples.last()) == samples);
        if samples.len() <= MAX_CAPACITY && (forall|i: int|
            0 <= i < samples.len() ==> sample_ok(#[trigger] samples[i])) {
            lemma_sum_value(samples);
            lemma_div_value(sum_of(samples), samples.len() as i32);
        }
    }
}

/// One sample past the capacity evicts the oldest: the window keeps the
/// last `capacity` samples.
pub proof fn lemma_fill_past_capacity(capacity: nat, samples: Seq<TimeOffset>)
    requires
        capacity >= 1,
        samples.len() == capacity + 1,
    ensures
        pushed_all(capacity, samples) == samples.drop_first(),
        pushed_all(capacity, samples).len() == capacity,
{
    lemma_fill_within_capacity(capacity, samples.drop_last());
    assert(samples.drop_last().push(samples.last()) == samples);
}

/// A window of capacity one holds only the latest sample, and its mean has
/// that sample's value: it is the sample itself, except that a zero mean is
/// always the canonical `Later(0)`.
pub proof fn lemma_single_slot(samples: Seq<TimeOffset>)
    requires
        samples.len() >= 1,
    ensures
        pushed_all(1, samples) == seq![samples.last()],
        div_of(sum_of(pushed_all(1, samples)), 1).value() == samples.last().value(),
        samples.last() != TimeOffset::Earlier(0) ==> div_of(sum_of(pushed_all(1, samples)), 1)
            == samples.last(),
    decreases samples.len(),
{
    let x = samples.last();
    if samples.len() > 1 {
        lemma_single_slot(samples.drop_last());
        let p = seq![samples.drop_last().last()];
        assert(p.push(x).drop_first() =~= seq![x]);
    } else {
        assert(samples.drop_last() =~= Seq::<TimeOffset>::empty());
        assert(Seq::<TimeOffset>::empty().push(x) =~= seq![x]);
    }
    assert(pushed_all(1, samples) == pushed(pushed_all(1, samples.drop_last()), 1, x));
    let w = seq![x];
    assert(w.drop_last() =~= Seq::<TimeOffset>::empty());
    assert(sum_of(Seq::<TimeOffset>::empty()) == TimeOffset::Later(0));
    assert(sum_of(w) == crate::add_of(TimeOffset::Later(0), x));
    crate::lemma_div_unit(crate::add_of(TimeOffset::Later(0), x));
}

} // verus!
