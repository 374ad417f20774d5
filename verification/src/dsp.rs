//! Moving-average filtering of the sample stream.
//!
//! The filter keeps a circular buffer of the last `WINDOW` samples and a
//! running accumulator of their sum, so each update costs one subtraction
//! and one addition rather than a fresh pass over the window. This is the
//! incremental counterpart of the boxcar average that the sample pipeline
//! computes over a full buffer.

use vstd::prelude::*;

use crate::degrees::Degrees;
use crate::degrees::convert_q12;

verus! {

/// Width of the averaging window.
pub const WINDOW: usize = 32;

/// Largest sample the filter accepts: a full window of these must fit in
/// the 32-bit accumulator.
pub const MAX_SAMPLE: u32 = 0x07ff_ffff;

/// Sum of a sequence of samples.
pub open spec fn sum_of(s: Seq<u32>) -> int
    decreases s.len(),
{
    if s.len() == 0 {
        0
    } else {
        sum_of(s.drop_last()) + s.last()
    }
}

/// A sum of samples is never negative.
pub proof fn lemma_sum_nonneg(s: Seq<u32>)
    ensures
        sum_of(s) >= 0,
    decreases s.len(),
{
    if s.len() > 0 {
        lemma_sum_nonneg(s.drop_last());
    }
}

/// A sum of bounded samples is bounded by the window size times the bound.
pub proof fn lemma_sum_bounded(s: Seq<u32>, b: int)
    requires
        0 <= b,
        forall|i: int| 0 <= i < s.len() ==> s[i] <= b,
    ensures
        sum_of(s) <= s.len() * b,
    decreases s.len(),
{
    if s.len() > 0 {
        lemma_sum_bounded(s.drop_last(), b);
        assert((s.len() - 1) * b + b == s.len() * b) by (nonlinear_arith);
    }
}

/// Each element is at most the whole sum.
pub proof fn lemma_sum_element_le(s: Seq<u32>, i: int)
    requires
        0 <= i < s.len(),
    ensures
        s[i] <= sum_of(s),
    decreases s.len(),
{
    lemma_sum_nonneg(s.drop_last());
    if i < s.len() - 1 {
        lemma_sum_element_le(s.drop_last(), i);
    }
}

/// Replacing one element changes the sum by the difference.
pub proof fn lemma_sum_update(s: Seq<u32>, i: int, v: u32)
    requires
        0 <= i < s.len(),
    ensures
        sum_of(s.update(i, v)) == sum_of(s) - s[i] + v,
    decreases s.len(),
{
    if i == s.len() - 1 {
        assert(s.update(i, v).drop_last() =~= s.drop_last());
    } else {
        assert(s.update(i, v).drop_last() =~= s.drop_last().update(i, v));
        lemma_sum_update(s.drop_last(), i, v);
    }
}

/// Sums add over concatenation.
pub proof fn lemma_sum_concat(a: Seq<u32>, b: Seq<u32>)
    ensures
        sum_of(a + b) == sum_of(a) + sum_of(b),
    decreases b.len(),
{
    if b.len() == 0 {
        assert(a + b =~= a);
    } else {
        assert((a + b).drop_last() =~= a + b.drop_last());
        lemma_sum_concat(a, b.drop_last());
    }
}

/// The moving-average filter: circular buffer, write index, and running sum.
pub struct MovingAverage {
    buffer: Vec<u32>,
    index: usize,
    accumulator: u32,
}

impl MovingAverage {
    /// The window in feed order, oldest sample first.
    pub closed spec fn window(self) -> Seq<u32> {
        self.buffer@.skip(self.index as int) + self.buffer@.take(self.index as int)
    }

    /// Structural invariant: full-width buffer, in-range index, bounded
    /// samples, and an accumulator that is exactly the window sum.
    pub closed spec fn wf(self) -> bool {
        &&& self.buffer@.len() == 32
        &&& self.index < 32
        &&& (forall|i: int| 0 <= i < 32 ==> self.buffer@[i] <= MAX_SAMPLE)
        &&& self.accumulator == sum_of(self.buffer@)
    }

    /// The window of a well-formed filter is full-width and bounded.
    pub proof fn lemma_window_shape(self)
        requires
            self.wf(),
        ensures
            self.window().len() == 32,
            forall|i: int| 0 <= i < 32 ==> self.window()[i] <= MAX_SAMPLE,
    {
    }

    /// A fresh filter with an all-zero window.
    pub fn new() -> (r: MovingAverage)
        ensures
            r.wf(),
            r.window() == Seq::new(32, |i: int| 0u32),
    {
        let mut buffer: Vec<u32> = Vec::new();
        let mut k: usize = 0;
        while k < 32
            invariant
                k <= 32,
                buffer@.len() == k,
                forall|i: int| 0 <= i < k ==> buffer@[i] == 0u32,
            decreases 32 - k,
        {
            buffer.push(0);
            k = k + 1;
        }
        proof {
            lemma_sum_bounded(buffer@, 0);
            lemma_sum_nonneg(buffer@);
        }
        let r = MovingAverage { buffer, index: 0, accumulator: 0 };
        proof {
            assert(r.window() =~= r.buffer@);
            assert(r.window() =~= Seq::new(32, |i: int| 0u32));
        }
        r
    }

    /// Pushes one sample into the window, dropping the oldest, and returns
    /// the average (floor) of the refreshed window.
    pub fn update(&mut self, val: u32) -> (r: u32)
        requires
            old(self).wf(),
            val <= MAX_SAMPLE,
        ensures
            final(self).wf(),
            final(self).window() == old(self).window().skip(1).push(val),
            r == sum_of(final(self).window()) / 32,
    {
        let ghost prev = *self;
        let dropped: u32 = self.buffer[self.index];
        proof {
            lemma_sum_element_le(self.buffer@, self.index as int);
        }
        self.accumulator = self.accumulator - dropped;
        self.buffer.set(self.index, val);
        proof {
            lemma_sum_update(prev.buffer@, prev.index as int, val);
            lemma_sum_bounded(self.buffer@, MAX_SAMPLE as int);
        }
        self.accumulator = self.accumulator + val;
        self.index = self.index + 1;
        if self.index == 32 {
            self.index = 0;
        }
        proof {
            assert(self.window() =~= prev.window().skip(1).push(val));
            lemma_sum_concat(
                self.buffer@.take(self.index as int),
                self.buffer@.skip(self.index as int),
            );
            lemma_sum_concat(
                self.buffer@.skip(self.index as int),
                self.buffer@.take(self.index as int),
            );
            assert(self.buffer@.take(self.index as int) + self.buffer@.skip(self.index as int)
                =~= self.buffer@);
            assert(sum_of(self.window()) == sum_of(self.buffer@));
        }
        self.accumulator / 32
    }
}

impl Default for MovingAverage {
    /// Same as `new`: a fresh filter with an all-zero window.
    fn default() -> (r: MovingAverage)
        ensures
            r.wf(),
            r.window() == Seq::new(32, |i: int| 0u32),
    {
        MovingAverage::new()
    }
}

/// The one-shot measurement path: each timer tick reads a single
/// conversion, smooths it through the moving-average filter, and converts
/// the smoothed raw value to a temperature.
pub struct Dsp {
    filter: MovingAverage,
}

impl Dsp {
    /// The filter window behind this measurement path.
    pub closed spec fn window(self) -> Seq<u32> {
        self.filter.window()
    }

    /// The filter is well-formed and has only ever seen 12-bit samples, so
    /// its average is itself a valid 12-bit raw value.
    pub closed spec fn wf(self) -> bool {
        &&& self.filter.wf()
        &&& (forall|i: int| 0 <= i < self.window().len() ==> self.window()[i] < 4096)
    }

    /// A fresh path with an all-zero window.
    pub fn new() -> (r: Dsp)
        ensures
            r.wf(),
            r.window() == Seq::new(32, |i: int| 0u32),
    {
        Dsp { filter: MovingAverage::new() }
    }

    /// Feeds one conversion result through the filter and converts the
    /// smoothed value. A failed read leaves the filter untouched and
    /// converts a zero raw value instead.
    pub fn read_temp(&mut self, sample: Option<u16>) -> (r: Degrees)
        requires
            old(self).wf(),
            sample matches Some(s) ==> s < 4096,
        ensures
            final(self).wf(),
            sample matches Some(s) ==> final(self).window() == old(self).window().skip(1).push(
                s as u32,
            ) && r.0 == convert_q12(sum_of(final(self).window()) / 32),
            sample.is_none() ==> *final(self) == *old(self) && r.0 == convert_q12(0),
    {
        match sample {
            Some(s) => {
                let avg: u32 = self.filter.update(s as u32);
                proof {
                    let w = self.filter.window();
                    assert forall|i: int| 0 <= i < w.len() implies w[i] < 4096 by {
                        if i < w.len() - 1 {
                            assert(w[i] == old(self).window().skip(1)[i]);
                            assert(old(self).window().skip(1)[i] == old(self).window()[i + 1]);
                        }
                    }
                    self.filter.lemma_window_shape();
                    lemma_sum_bounded(w, 4095);
                    lemma_sum_nonneg(w);
                    vstd::arithmetic::div_mod::lemma_div_is_ordered(
                        sum_of(w),
                        131040,
                        32,
                    );
                    vstd::arithmetic::div_mod::lemma_fundamental_div_mod_converse(
                        131040,
                        32,
                        4095,
                        0,
                    );
                    vstd::arithmetic::div_mod::lemma_div_pos_is_pos(sum_of(w), 32);
                }
                Degrees::from_raw(avg as u16)
            },
            None => Degrees::from_raw(0),
        }
    }
}

/// The window that a run of updates leaves behind, as a function of the
/// whole sample history: the last `WINDOW` samples fed, padded at the front
/// with the zeros of a fresh filter while the history is still short.
pub open spec fn window_after(history: Seq<u32>) -> Seq<u32> {
    if history.len() >= 32 {
        history.skip(history.len() - 32)
    } else {
        Seq::new((32 - history.len()) as nat, |i: int| 0u32) + history
    }
}

/// Law of the moving-average filter: a fresh filter's window is
/// `window_after` of the empty history, and each update takes the window of
/// history `h` to the window of `h.push(val)`. Together with the contract of
/// `update` — which returns exactly `sum_of(window) / 32` — this says that
/// after feeding any sequence of samples the filter returns the floored
/// average of precisely the most recent `WINDOW` of them, with older history
/// forgotten.
pub proof fn lemma_window_tracks_history(history: Seq<u32>, val: u32)
    ensures
        window_after(Seq::<u32>::empty()) == Seq::new(32, |i: int| 0u32),
        window_after(history).len() == 32,
        window_after(history.push(val)) == window_after(history).skip(1).push(val),
{
    assert(window_after(Seq::<u32>::empty()) =~= Seq::new(32, |i: int| 0u32));
    if history.len() >= 32 {
        assert(window_after(history.push(val)) =~= window_after(history).skip(1).push(val));
    } else {
        assert(window_after(history.push(val)) =~= window_after(history).skip(1).push(val));
    }
}

} // verus!
