//! The rolling speech buffer and the heuristic that decides when enough
//! audio has arrived to attempt recognition.
//!
//! The buffer holds the most recent three seconds of 16 kHz mono audio and
//! counts the batches pushed since the last utterance was taken. It looks at
//! no sample: any audio that arrives counts, silence included.

use crate::ring::{
    keep_recent, ring_extend, ring_items, ring_len, ring_limit, ring_new, ring_to_vec, ring_wf,
    ring_written,
};
use ringbuffer::AllocRingBuffer;
use vstd::prelude::*;
use vstd::slice::slice_subrange;

verus! {

/// Samples per second of the audio the buffer holds.
pub const SAMPLE_RATE: usize = 16000;

/// Capacity of the buffer: three seconds of audio.
pub const CAPACITY: usize = 48000;

/// The buffer must hold more than this (1.1 s) before recognition is tried.
pub const READY_SAMPLES: usize = 17600;

/// Below this (1.0 s) no utterance is handed out, whatever the counter says.
pub const FLOOR_SAMPLES: usize = 16000;

/// The audio (0.6 s) that must have arrived since the last utterance,
/// measured in batches of the configured size.
pub const LEAD_SAMPLES: usize = 9600;

/// The batch size the capture side delivers by default.
pub const DEFAULT_BATCH_FRAMES: usize = 320;

/// The number of batches the counter has to exceed: 0.6 s of audio in
/// batches of `batch_frames` samples, rounded up.
pub open spec fn batch_threshold(batch_frames: nat) -> nat
    recommends
        batch_frames > 0,
{
    if LEAD_SAMPLES as nat % batch_frames == 0 {
        LEAD_SAMPLES as nat / batch_frames
    } else {
        LEAD_SAMPLES as nat / batch_frames + 1
    }
}

/// The batch counter after one more batch. The counter is a machine word
/// and wraps to zero past its largest value.
pub open spec fn bump(counter: nat) -> nat {
    if counter >= usize::MAX {
        0
    } else {
        counter + 1
    }
}

/// What a speech buffer is, mathematically: the samples it holds, oldest
/// first, the batches counted since the counter was last cleared, and the
/// configured batch size.
pub struct SpeechModel {
    pub samples: Seq<u32>,
    pub counter: nat,
    pub batch_frames: nat,
}

impl SpeechModel {
    /// The states a buffer can be in.
    pub open spec fn wf(self) -> bool {
        &&& self.samples.len() <= CAPACITY
        &&& self.counter <= usize::MAX
        &&& self.batch_frames > 0
    }

    /// An empty buffer for batches of `batch_frames` samples.
    pub open spec fn fresh(batch_frames: nat) -> SpeechModel {
        SpeechModel { samples: Seq::empty(), counter: 0, batch_frames }
    }

    /// The buffer after `batch` has been pushed: the batch is appended, the
    /// oldest samples leave where the capacity is exceeded, and the counter
    /// steps by one.
    pub open spec fn pushed(self, batch: Seq<u32>) -> SpeechModel {
        SpeechModel {
            samples: keep_recent(self.samples + batch, CAPACITY as nat),
            counter: bump(self.counter),
            batch_frames: self.batch_frames,
        }
    }

    /// Whether recognition should be attempted.
    pub open spec fn ready(self) -> bool {
        &&& self.counter > batch_threshold(self.batch_frames)
        &&& self.samples.len() > READY_SAMPLES
    }

    /// Whether the buffer holds enough audio for an utterance at all.
    pub open spec fn has_utterance(self) -> bool {
        self.samples.len() >= FLOOR_SAMPLES
    }

    /// The buffer after an utterance was taken: the counter is cleared, the
    /// samples stay.
    pub open spec fn rearmed(self) -> SpeechModel {
        SpeechModel { samples: self.samples, counter: 0, batch_frames: self.batch_frames }
    }

    /// The buffer after a request for an utterance, granted or not.
    pub open spec fn after_take(self) -> SpeechModel {
        if self.has_utterance() {
            self.rearmed()
        } else {
            self
        }
    }

    /// The utterance a request yields: the whole content, if there is enough.
    pub open spec fn utterance(self) -> Option<Seq<u32>> {
        if self.has_utterance() {
            Some(self.samples)
        } else {
            None
        }
    }
}

/// Computes [`batch_threshold`].
pub fn threshold_for(batch_frames: usize) -> (t: usize)
    requires
        batch_frames > 0,
    ensures
        t == batch_threshold(batch_frames as nat),
        t <= LEAD_SAMPLES,
{
    let whole: usize = LEAD_SAMPLES / batch_frames;
    assert(whole <= LEAD_SAMPLES) by (nonlinear_arith)
        requires
            whole == LEAD_SAMPLES as int / batch_frames as int,
            batch_frames > 0,
    ;
    if LEAD_SAMPLES % batch_frames == 0 {
        whole
    } else {
        assert(whole < LEAD_SAMPLES) by (nonlinear_arith)
            requires
                whole == LEAD_SAMPLES as int / batch_frames as int,
                LEAD_SAMPLES as int % batch_frames as int != 0,
                batch_frames > 0,
        ;
        whole + 1
    }
}

/// A fixed-capacity rolling buffer of samples with a batch counter.
pub struct SpeechBuffer {
    ring: AllocRingBuffer<u32>,
    written: usize,
    counter: usize,
    batch_frames: usize,
}

impl View for SpeechBuffer {
    type V = SpeechModel;

    closed spec fn view(&self) -> SpeechModel {
        SpeechModel {
            samples: ring_items(self.ring),
            counter: self.counter as nat,
            batch_frames: self.batch_frames as nat,
        }
    }
}

impl SpeechBuffer {
    /// The invariant every method keeps.
    pub closed spec fn wf(&self) -> bool {
        &&& ring_wf(self.ring)
        &&& ring_limit(self.ring) == CAPACITY
        &&& ring_written(self.ring) == self.written
        &&& self.batch_frames > 0
    }

    /// A well-formed buffer has a well-formed model.
    pub proof fn lemma_wf_model(&self)
        requires
            self.wf(),
        ensures
            self@.wf(),
    {
    }

    /// An empty buffer for batches of `batch_frames` samples.
    pub fn new(batch_frames: usize) -> (buffer: SpeechBuffer)
        requires
            batch_frames > 0,
        ensures
            buffer.wf(),
            buffer@ == SpeechModel::fresh(batch_frames as nat),
    {
        SpeechBuffer { ring: ring_new(CAPACITY), written: 0, counter: 0, batch_frames }
    }

    /// Replaces the ring by a fresh one with the same content, so that the
    /// ring's write count starts over from the number of samples held.
    fn rewind(&mut self)
        requires
            old(self).wf(),
        ensures
            final(self).wf(),
            final(self)@ == old(self)@,
            final(self).written <= CAPACITY,
    {
        let held = ring_to_vec(&self.ring);
        let mut fresh = ring_new(CAPACITY);
        ring_extend(&mut fresh, held.as_slice());
        assert(Seq::<u32>::empty() + held@ =~= held@);
        self.written = held.len();
        self.ring = fresh;
    }

    /// Appends a batch and steps the batch counter. Where the capacity is
    /// exceeded the oldest samples are evicted first.
    pub fn push(&mut self, batch: &[u32])
        requires
            old(self).wf(),
        ensures
            final(self).wf(),
            final(self)@ == old(self)@.pushed(batch@),
    {
        let len = batch.len();
        // Of a batch longer than the buffer only the newest part can stay.
        let tail = if len > CAPACITY {
            slice_subrange(batch, len - CAPACITY, len)
        } else {
            batch
        };
        proof {
            lemma_tail_suffices(ring_items(self.ring), batch@, CAPACITY as nat);
        }
        if tail.len() > usize::MAX - self.written {
            self.rewind();
        }
        ring_extend(&mut self.ring, tail);
        self.written = self.written + tail.len();
        self.counter = if self.counter == usize::MAX {
            0
        } else {
            self.counter + 1
        };
    }

    /// The number of samples held.
    pub fn len(&self) -> (n: usize)
        requires
            self.wf(),
        ensures
            n == self@.samples.len(),
            n <= CAPACITY,
    {
        ring_len(&self.ring)
    }

    /// The batches counted since the counter was last cleared.
    pub fn counter(&self) -> (n: usize)
        ensures
            n == self@.counter,
    {
        self.counter
    }

    /// The configured batch size.
    pub fn batch_frames(&self) -> (n: usize)
        ensures
            n == self@.batch_frames,
    {
        self.batch_frames
    }

    /// Whether recognition should be attempted: more batches than the
    /// threshold have arrived since the last utterance, and the buffer holds
    /// more than 1.1 s of audio.
    pub fn can_transcribe(&self) -> (ready: bool)
        requires
            self.wf(),
        ensures
            ready == self@.ready(),
    {
        self.counter > threshold_for(self.batch_frames) && ring_len(&self.ring) > READY_SAMPLES
    }

    /// Hands out the utterance to recognise: a copy of the whole content,
    /// after which the counter is cleared and the content stays. With less
    /// than one second of audio there is no utterance and nothing changes.
    pub fn take_utterance(&mut self) -> (utterance: Option<Vec<u32>>)
        requires
            old(self).wf(),
        ensures
            final(self).wf(),
            final(self)@ == old(self)@.after_take(),
            match utterance {
                Some(samples) => old(self)@.utterance() == Some(samples@),
                None => old(self)@.utterance() is None,
            },
    {
        if ring_len(&self.ring) < FLOOR_SAMPLES {
            None
        } else {
            let samples = ring_to_vec(&self.ring);
            self.counter = 0;
            Some(samples)
        }
    }
}

/// Pushing the newest `limit` items of a batch leaves the same content as
/// pushing the whole batch.
pub proof fn lemma_tail_suffices(held: Seq<u32>, batch: Seq<u32>, limit: nat)
    ensures
        keep_recent(held + keep_recent(batch, limit), limit) == keep_recent(held + batch, limit),
{
    if batch.len() > limit {
        let tail = batch.subrange(batch.len() - limit, batch.len() as int);
        assert(keep_recent(held + tail, limit) =~= keep_recent(held + batch, limit));
    }
}

} // verus!
