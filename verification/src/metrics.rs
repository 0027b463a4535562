//! Per-process metric counters and a component latency tracker.
//!
//! Counters are plain integers here; an exporter process-wide is outside
//! this crate's concern.

use vstd::prelude::*;
use vstd::string::StringExecFns;

use crate::config::Config;

verus! {

/// Centralized metric counters.
pub struct Metrics {
    pub active_connections: i64,
    pub rtp_packets_received: u64,
    pub audio_frames_processed: u64,
    pub turn_events_detected: u64,
    pub grpc_messages_sent: u64,
    pub grpc_messages_received: u64,
    pub vad_detections: u64,
    pub turn_starts: u64,
    pub turn_ends: u64,
    pub barge_ins: u64,
}

impl Metrics {
    /// All counters at zero.
    pub fn new(_config: &Config) -> (r: Self)
        ensures
            r.active_connections == 0,
            r.rtp_packets_received == 0,
            r.audio_frames_processed == 0,
            r.turn_events_detected == 0,
            r.grpc_messages_sent == 0,
            r.grpc_messages_received == 0,
            r.vad_detections == 0,
            r.turn_starts == 0,
            r.turn_ends == 0,
            r.barge_ins == 0,
    {
        Self {
            active_connections: 0,
            rtp_packets_received: 0,
            audio_frames_processed: 0,
            turn_events_detected: 0,
            grpc_messages_sent: 0,
            grpc_messages_received: 0,
            vad_detections: 0,
            turn_starts: 0,
            turn_ends: 0,
            barge_ins: 0,
        }
    }

    /// One more active connection.
    pub fn connection_opened(&mut self)
        ensures
            final(self).active_connections == (if old(self).active_connections < i64::MAX {
                old(self).active_connections + 1
            } else {
                old(self).active_connections as int
            }),
            final(self).rtp_packets_received == old(self).rtp_packets_received,
            final(self).audio_frames_processed == old(self).audio_frames_processed,
            final(self).turn_events_detected == old(self).turn_events_detected,
            final(self).grpc_messages_sent == old(self).grpc_messages_sent,
            final(self).grpc_messages_received == old(self).grpc_messages_received,
            final(self).vad_detections == old(self).vad_detections,
            final(self).turn_starts == old(self).turn_starts,
            final(self).turn_ends == old(self).turn_ends,
            final(self).barge_ins == old(self).barge_ins,
    {
        if self.active_connections < i64::MAX {
            self.active_connections = self.active_connections + 1;
        }
    }

    /// One less active connection.
    pub fn connection_closed(&mut self)
        ensures
            final(self).active_connections == (if old(self).active_connections > i64::MIN {
                old(self).active_connections - 1
            } else {
                old(self).active_connections as int
            }),
            final(self).rtp_packets_received == old(self).rtp_packets_received,
            final(self).audio_frames_processed == old(self).audio_frames_processed,
            final(self).turn_events_detected == old(self).turn_events_detected,
            final(self).grpc_messages_sent == old(self).grpc_messages_sent,
            final(self).grpc_messages_received == old(self).grpc_messages_received,
            final(self).vad_detections == old(self).vad_detections,
            final(self).turn_starts == old(self).turn_starts,
            final(self).turn_ends == old(self).turn_ends,
            final(self).barge_ins == old(self).barge_ins,
    {
        if self.active_connections > i64::MIN {
            self.active_connections = self.active_connections - 1;
        }
    }

    /// Count a turn start, which is also a turn event.
    pub fn record_turn_start(&mut self)
        ensures
            final(self).turn_starts == old(self).turn_starts.saturating_add(1),
            final(self).turn_events_detected == old(self).turn_events_detected.saturating_add(1),
            final(self).active_connections == old(self).active_connections,
            final(self).rtp_packets_received == old(self).rtp_packets_received,
            final(self).audio_frames_processed == old(self).audio_frames_processed,
            final(self).grpc_messages_sent == old(self).grpc_messages_sent,
            final(self).grpc_messages_received == old(self).grpc_messages_received,
            final(self).vad_detections == old(self).vad_detections,
            final(self).turn_ends == old(self).turn_ends,
            final(self).barge_ins == old(self).barge_ins,
    {
        self.turn_starts = self.turn_starts.saturating_add(1);
        self.turn_events_detected = self.turn_events_detected.saturating_add(1);
    }

    /// Count a turn end, which is also a turn event.
    pub fn record_turn_end(&mut self)
        ensures
            final(self).turn_ends == old(self).turn_ends.saturating_add(1),
            final(self).turn_events_detected == old(self).turn_events_detected.saturating_add(1),
            final(self).active_connections == old(self).active_connections,
            final(self).rtp_packets_received == old(self).rtp_packets_received,
            final(self).audio_frames_processed == old(self).audio_frames_processed,
            final(self).grpc_messages_sent == old(self).grpc_messages_sent,
            final(self).grpc_messages_received == old(self).grpc_messages_received,
            final(self).vad_detections == old(self).vad_detections,
            final(self).turn_starts == old(self).turn_starts,
            final(self).barge_ins == old(self).barge_ins,
    {
        self.turn_ends = self.turn_ends.saturating_add(1);
        self.turn_events_detected = self.turn_events_detected.saturating_add(1);
    }

    /// Count a barge-in.
    pub fn record_barge_in(&mut self)
        ensures
            final(self).barge_ins == old(self).barge_ins.saturating_add(1),
            final(self).active_connections == old(self).active_connections,
            final(self).rtp_packets_received == old(self).rtp_packets_received,
            final(self).audio_frames_processed == old(self).audio_frames_processed,
            final(self).turn_events_detected == old(self).turn_events_detected,
            final(self).grpc_messages_sent == old(self).grpc_messages_sent,
            final(self).grpc_messages_received == old(self).grpc_messages_received,
            final(self).vad_detections == old(self).vad_detections,
            final(self).turn_starts == old(self).turn_starts,
            final(self).turn_ends == old(self).turn_ends,
    {
        self.barge_ins = self.barge_ins.saturating_add(1);
    }
}

#[verifier::external_type_specification]
#[verifier::external_body]
pub struct ExInstant(std::time::Instant);

/// Relies on std::time::Instant::now: an opaque monotonic time point;
/// nothing is assumed about its value.
#[verifier::external_body]
fn instant_now() -> (r: std::time::Instant) {
    std::time::Instant::now()
}

/// Tracks when a component started working, for latency measurements.
pub struct LatencyTracker {
    start_time: std::time::Instant,
    component: String,
    recorded: bool,
}

impl LatencyTracker {
    pub closed spec fn spec_component(&self) -> Seq<char> {
        self.component@
    }

    pub closed spec fn spec_recorded(&self) -> bool {
        self.recorded
    }

    /// A tracker for `component`, started now, not yet recorded.
    pub fn new(component: &str) -> (r: Self)
        ensures
            r.spec_component() == component@,
            !r.spec_recorded(),
    {
        Self { start_time: instant_now(), component: String::from_str(component), recorded: false }
    }

    /// The component name.
    pub fn component(&self) -> (r: &str)
        ensures
            r@ == self.spec_component(),
    {
        self.component.as_str()
    }

    /// Whether the latency was already recorded.
    pub fn is_recorded(&self) -> (r: bool)
        ensures
            r == self.spec_recorded(),
    {
        self.recorded
    }

    /// The opaque time point at which the tracker started; elapsed-time
    /// arithmetic on it is for the binary around the library.
    pub fn started(&self) -> &std::time::Instant {
        &self.start_time
    }

    /// Mark the latency as recorded.
    pub fn mark_recorded(&mut self)
        ensures
            final(self).spec_recorded(),
            final(self).spec_component() == old(self).spec_component(),
    {
        self.recorded = true;
    }
}

} // verus!
