//! The continuously-refilled sample buffer and its completion handling.
//!
//! Hardware streams 12-bit conversions into a fixed 32-sample buffer; once
//! per full buffer a completion interrupt fires. Inside one critical section
//! the handler marks the buffer valid, advances the heartbeat, and re-arms
//! the next transfer so acquisition never gaps. The foreground reads a
//! boxcar average of the whole buffer under the same critical section, and
//! falls back to a moderate fail-safe temperature while no transfer has
//! completed yet — biasing the fan toward cooling during the startup race.
//!
//! The interrupt and the critical section themselves are the platform's;
//! this module holds the shared state and the exact transitions the handler
//! and the foreground perform on it, so a driver only wires them to its
//! interrupt controller.

use vstd::prelude::*;

use crate::degrees::Degrees;
use crate::degrees::convert_q12;

verus! {

/// Samples per hardware transfer: one completion interrupt per this many.
pub const BUFFER_LEN: usize = 32;

/// Fail-safe reading returned before the first completed transfer:
/// 50 degrees in Q12.
pub const FAILSAFE_TEMP_Q12: i32 = 204_800;

/// Sum of a buffer of raw samples.
pub open spec fn sample_sum(s: Seq<u16>) -> int
    decreases s.len(),
{
    if s.len() == 0 {
        0
    } else {
        sample_sum(s.drop_last()) + s.last()
    }
}

/// A sum of samples is never negative.
pub proof fn lemma_sample_sum_nonneg(s: Seq<u16>)
    ensures
        sample_sum(s) >= 0,
    decreases s.len(),
{
    if s.len() > 0 {
        lemma_sample_sum_nonneg(s.drop_last());
    }
}

/// A sum of bounded samples is bounded by the count times the bound.
pub proof fn lemma_sample_sum_bounded(s: Seq<u16>, b: int)
    requires
        0 <= b,
        forall|i: int| 0 <= i < s.len() ==> s[i] <= b,
    ensures
        sample_sum(s) <= s.len() * b,
    decreases s.len(),
{
    if s.len() > 0 {
        lemma_sample_sum_bounded(s.drop_last(), b);
        assert((s.len() - 1) * b + b == s.len() * b) by (nonlinear_arith);
    }
}

/// The hardware-refilled buffer: the stored conversions and the flag that
/// says a full transfer has landed in them at least once.
pub struct SampleBuffer {
    samples: Vec<u16>,
    valid: bool,
}

/// The acquisition pipeline: the shared buffer, the heartbeat state, the
/// completion count, whether the next transfer is queued, and whether a
/// token for this pipeline is outstanding.
pub struct Pipeline {
    buffer: SampleBuffer,
    heartbeat: bool,
    completions: u64,
    armed: bool,
    active: bool,
}

/// Witness of a started pipeline. Holds the read path; the pipeline refuses
/// to start again until the token is handed back to `release`.
pub struct Token {}

impl Pipeline {
    /// The buffer contents.
    pub closed spec fn samples(self) -> Seq<u16> {
        self.buffer.samples@
    }

    /// Whether a full transfer has completed since the last start.
    pub closed spec fn is_valid(self) -> bool {
        self.buffer.valid
    }

    /// The heartbeat output level.
    pub closed spec fn heartbeat_on(self) -> bool {
        self.heartbeat
    }

    /// How many transfers have completed.
    pub closed spec fn completions(self) -> u64 {
        self.completions
    }

    /// Whether the next transfer is queued.
    pub closed spec fn is_armed(self) -> bool {
        self.armed
    }

    /// Whether a token is outstanding.
    pub closed spec fn is_active(self) -> bool {
        self.active
    }

    /// Structural invariant: a full-width buffer of 12-bit samples.
    pub open spec fn wf(self) -> bool {
        &&& self.samples().len() == 32
        &&& (forall|i: int| 0 <= i < 32 ==> self.samples()[i] < 4096)
    }

    /// What the foreground reads, in Q12: the converted boxcar average of
    /// the buffer once it is valid, the fail-safe value before that.
    pub open spec fn reading_q12(self) -> int {
        if self.is_valid() {
            convert_q12(sample_sum(self.samples()) / 32)
        } else {
            FAILSAFE_TEMP_Q12 as int
        }
    }

    /// A fresh, idle pipeline: zeroed buffer, not valid, not armed, no
    /// token outstanding.
    pub fn new() -> (r: Pipeline)
        ensures
            r.wf(),
            !r.is_valid(),
            !r.is_armed(),
            !r.is_active(),
            !r.heartbeat_on(),
            r.completions() == 0,
    {
        let mut samples: Vec<u16> = Vec::new();
        let mut k: usize = 0;
        while k < 32
            invariant
                k <= 32,
                samples@.len() == k,
                forall|i: int| 0 <= i < k ==> samples@[i] == 0u16,
            decreases 32 - k,
        {
            samples.push(0);
            k = k + 1;
        }
        Pipeline {
            buffer: SampleBuffer { samples, valid: false },
            heartbeat: false,
            completions: 0,
            armed: false,
            active: false,
        }
    }

    /// Starts acquisition: arms the first transfer and hands out the read
    /// token. The pipeline is a singleton resource — while a token is
    /// outstanding a second start fails closed with `None` and changes
    /// nothing.
    pub fn start(&mut self) -> (t: Option<Token>)
        ensures
            old(self).is_active() ==> t.is_none() && *final(self) == *old(self),
            !old(self).is_active() ==> {
                &&& t.is_some()
                &&& final(self).is_active()
                &&& final(self).is_armed()
                &&& final(self).samples() == old(self).samples()
                &&& final(self).is_valid() == old(self).is_valid()
                &&& final(self).heartbeat_on() == old(self).heartbeat_on()
                &&& final(self).completions() == old(self).completions()
            },
    {
        if self.active {
            None
        } else {
            self.active = true;
            self.armed = true;
            Some(Token {})
        }
    }

    /// The completion handler's work, performed by the platform inside one
    /// critical section per completion interrupt: the freshly transferred
    /// samples land in the buffer, the buffer becomes (and stays) valid,
    /// the heartbeat output flips on every other completion — a liveness
    /// blink at half the completion rate — and the next transfer is re-armed
    /// before the section ends, so validity is never observable without a
    /// queued transfer.
    pub fn on_completion(&mut self, transferred: &[u16])
        requires
            old(self).wf(),
            old(self).is_active(),
            old(self).is_armed(),
            old(self).completions() < u64::MAX,
            transferred@.len() == 32,
            forall|i: int| 0 <= i < 32 ==> transferred@[i] < 4096,
        ensures
            final(self).wf(),
            final(self).is_active(),
            final(self).is_armed(),
            final(self).is_valid(),
            final(self).samples() == transferred@,
            final(self).completions() == old(self).completions() + 1,
            final(self).heartbeat_on() == (if (old(self).completions() + 1) % 2 == 0 {
                !old(self).heartbeat_on()
            } else {
                old(self).heartbeat_on()
            }),
    {
        let mut k: usize = 0;
        while k < 32
            invariant
                k <= 32,
                self.buffer.samples@.len() == 32,
                transferred@.len() == 32,
                forall|i: int| 0 <= i < 32 ==> transferred@[i] < 4096,
                forall|i: int| 0 <= i < k ==> self.buffer.samples@[i] == transferred@[i],
                forall|i: int| k <= i < 32 ==> self.buffer.samples@[i] == old(self).buffer.samples@[i],
                self.buffer.valid == old(self).buffer.valid,
                self.heartbeat == old(self).heartbeat,
                self.completions == old(self).completions,
                self.armed == old(self).armed,
                self.active == old(self).active,
            decreases 32 - k,
        {
            let v: u16 = transferred[k];
            self.buffer.samples.set(k, v);
            k = k + 1;
        }
        proof {
            assert(self.buffer.samples@ =~= transferred@);
        }
        self.buffer.valid = true;
        self.completions = self.completions + 1;
        if self.completions % 2 == 0 {
            self.heartbeat = !self.heartbeat;
        }
        self.armed = true;
    }

    /// The level the heartbeat output should be driven to. The handler only
    /// records the toggles; the platform mirrors this level onto its status
    /// pin.
    pub fn heartbeat_level(&self) -> (level: bool)
        ensures
            level == self.heartbeat_on(),
    {
        self.heartbeat
    }

    /// How many transfers have completed since the pipeline was created.
    pub fn completed_transfers(&self) -> (n: u64)
        ensures
            n == self.completions(),
    {
        self.completions
    }

    /// Hands the pipeline back: the completion interrupt is disabled (the
    /// pending transfer is dropped) and the buffer is no longer trusted. A
    /// released pipeline can only be resumed by a fresh `start`.
    pub fn release(&mut self, _token: Token)
        requires
            old(self).is_active(),
        ensures
            !final(self).is_active(),
            !final(self).is_armed(),
            !final(self).is_valid(),
            final(self).samples() == old(self).samples(),
            final(self).heartbeat_on() == old(self).heartbeat_on(),
            final(self).completions() == old(self).completions(),
    {
        self.active = false;
        self.armed = false;
        self.buffer.valid = false;
    }
}

impl Token {
    /// The foreground read path, executed by the platform inside the same
    /// critical section as the completion handler. While no transfer has
    /// completed this returns exactly the fail-safe 50 degrees; from the
    /// first completion on — the buffer stays valid until the token is
    /// released — it returns the buffer's boxcar average (floored integer
    /// mean of all 32 samples) pushed through the temperature model.
    pub fn current_temp(&self, pipeline: &Pipeline) -> (r: Degrees)
        requires
            pipeline.wf(),
        ensures
            r.0 == pipeline.reading_q12(),
    {
        if pipeline.buffer.valid {
            let ghost all = pipeline.buffer.samples@;
            let mut acc: u32 = 0;
            let mut k: usize = 0;
            while k < 32
                invariant
                    k <= 32,
                    pipeline.wf(),
                    all == pipeline.buffer.samples@,
                    acc == sample_sum(all.take(k as int)),
                    acc <= k * 4095,
                decreases 32 - k,
            {
                let v: u16 = pipeline.buffer.samples[k];
                proof {
                    assert(all.take(k + 1).drop_last() =~= all.take(k as int));
                    assert(all.take(k + 1).last() == all[k as int]);
                }
                acc = acc + v as u32;
                k = k + 1;
            }
            proof {
                assert(all.take(32) =~= all);
                vstd::arithmetic::div_mod::lemma_div_is_ordered(acc as int, 131040, 32);
                vstd::arithmetic::div_mod::lemma_fundamental_div_mod_converse(
                    131040,
                    32,
                    4095,
                    0,
                );
            }
            let avg: u32 = acc / 32;
            Degrees::from_raw(avg as u16)
        } else {
            Degrees(FAILSAFE_TEMP_Q12)
        }
    }
}

/// The readout is pure downstream of the snapshot: pipelines that agree on
/// the buffer contents and the validity flag read the same temperature. In
/// particular, running the completion handler any number of times with the
/// same transfer contents leaves the averaged, converted output unchanged.
pub proof fn lemma_reading_is_pure(p: Pipeline, q: Pipeline)
    requires
        p.samples() == q.samples(),
        p.is_valid() == q.is_valid(),
    ensures
        p.reading_q12() == q.reading_q12(),
{
}

} // verus!
