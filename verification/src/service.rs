//! Media events toward orchestration, orchestration commands, and the
//! bounded message buffer that applies backpressure on the event stream.

use vstd::prelude::*;

verus! {

/// Media event types for the event stream.
///
/// Probabilities and confidences are in per-mille.
#[derive(Debug, Clone)]
pub enum MediaEvent {
    AudioFrame { session_id: String, timestamp_ms: i64, pcm_data: Vec<u8>, sample_rate: u32, channels: u32 },
    TurnStarted { session_id: String, timestamp_ms: i64, vad_probability: u32 },
    TurnEnded { session_id: String, timestamp_ms: i64, duration_ms: u32 },
    BargeIn { session_id: String, timestamp_ms: i64 },
    PartialTranscript { session_id: String, timestamp_ms: i64, text: String, confidence: u32 },
    SessionEnded { session_id: String, duration_ms: i64, total_frames: u32 },
}

/// Orchestration commands from the server.
#[derive(Debug, Clone)]
pub enum OrchestrationCommand {
    PlayAudio { session_id: String, audio_data: Vec<u8>, audio_format: String },
    StopAudio { session_id: String, reason: String },
    ClearContext { session_id: String, context_type: String },
    AdjustVAD { session_id: String, sensitivity: u32, threshold_ms: u32 },
}

/// Bounded message buffer for backpressure: holds at most `max_size`
/// messages; a push into a full buffer is refused.
pub struct MessageBuffer<T> {
    buffer: Vec<T>,
    max_size: usize,
}

impl<T> MessageBuffer<T> {
    /// The buffered messages, oldest first.
    pub closed spec fn spec_items(&self) -> Seq<T> {
        self.buffer@
    }

    /// The capacity the buffer was created with.
    pub closed spec fn spec_max(&self) -> int {
        self.max_size as int
    }

    /// The buffer never holds more than its capacity.
    pub open spec fn wf(&self) -> bool {
        self.spec_items().len() <= self.spec_max()
    }

    /// An empty buffer of capacity `max_size`.
    pub fn new(max_size: usize) -> (r: Self)
        ensures
            r.wf(),
            r.spec_items() == Seq::<T>::empty(),
            r.spec_max() == max_size,
    {
        let r = Self { buffer: Vec::with_capacity(max_size), max_size };
        proof {
            assert(r.spec_items() =~= Seq::<T>::empty());
        }
        r
    }

    /// Append a message if there is room; returns whether it was taken.
    pub fn push(&mut self, msg: T) -> (r: bool)
        requires
            old(self).wf(),
        ensures
            final(self).wf(),
            final(self).spec_max() == old(self).spec_max(),
            r == (old(self).spec_items().len() < old(self).spec_max()),
            r ==> final(self).spec_items() == old(self).spec_items().push(msg),
            !r ==> final(self).spec_items() == old(self).spec_items(),
    {
        if self.buffer.len() < self.max_size {
            self.buffer.push(msg);
            true
        } else {
            false
        }
    }

    /// Take all buffered messages, oldest first, leaving the buffer empty.
    pub fn drain(&mut self) -> (r: Vec<T>)
        ensures
            final(self).wf(),
            final(self).spec_max() == old(self).spec_max(),
            r@ == old(self).spec_items(),
            final(self).spec_items() == Seq::<T>::empty(),
    {
        let mut out: Vec<T> = Vec::new();
        std::mem::swap(&mut self.buffer, &mut out);
        proof {
            assert(self.spec_items() =~= Seq::<T>::empty());
        }
        out
    }

    /// Number of buffered messages.
    pub fn len(&self) -> (r: usize)
        ensures
            r == self.spec_items().len(),
    {
        self.buffer.len()
    }

    /// Whether nothing is buffered.
    pub fn is_empty(&self) -> (r: bool)
        ensures
            r == (self.spec_items().len() == 0),
    {
        self.buffer.is_empty()
    }

    /// Whether the buffer is at (or beyond) capacity.
    pub fn is_full(&self) -> (r: bool)
        ensures
            r == (self.spec_items().len() >= self.spec_max()),
    {
        self.buffer.len() >= self.max_size
    }
}

} // verus!
