//! Turn-detection engine: a three-state automaton with hysteresis,
//! minimum-speech and maximum-silence thresholds, and barge-in signalling.

use vstd::prelude::*;

use crate::features::AudioFeatures;

verus! {

/// State of the turn detection automaton.
#[derive(Debug, Clone, Copy, PartialEq, Eq, Structural)]
pub enum TurnState {
    /// No active speech.
    Idle,
    /// User is currently speaking.
    Speaking,
    /// Brief silence gap during/after speech.
    SilenceGap,
}

/// Events emitted by the turn detection engine.
#[derive(Debug, Clone, Copy, PartialEq, Eq, Structural)]
pub enum TurnEvent {
    /// No event.
    NoEvent,
    /// User started speaking.
    TurnStarted,
    /// User finished speaking; carries the speech duration in ms.
    TurnEnded(u32),
    /// User interrupted (barge-in detected).
    BargeIn,
}

/// Configuration for turn detection.
///
/// Probabilities are in per-mille, volumes in thousandths of a dB.
#[derive(Debug, Clone, Copy, PartialEq, Eq, Structural)]
pub struct TurnDetectionConfig {
    /// VAD probability (per-mille) to enter Speaking.
    pub vad_threshold_enter: u32,
    /// VAD probability (per-mille) below which Speaking drops to SilenceGap.
    pub vad_threshold_exit: u32,
    /// Speech shorter than this (ms) does not emit `TurnEnded`.
    pub min_speech_duration_ms: u32,
    /// Silence at least this long (ms) ends the turn.
    pub max_silence_duration_ms: u32,
    /// Minimum loudness (thousandths of a dB) to cross Idle to Speaking.
    pub volume_threshold_db: i32,
}

impl Default for TurnDetectionConfig {
    /// The documented defaults: enter 0.6, exit 0.3, 250 ms minimum speech,
    /// 400 ms maximum silence, -40 dB volume floor.
    fn default() -> (r: Self)
        ensures
            r == (TurnDetectionConfig {
                vad_threshold_enter: 600,
                vad_threshold_exit: 300,
                min_speech_duration_ms: 250,
                max_silence_duration_ms: 400,
                volume_threshold_db: -40_000i32,
            }),
    {
        TurnDetectionConfig {
            vad_threshold_enter: 600,
            vad_threshold_exit: 300,
            min_speech_duration_ms: 250,
            max_silence_duration_ms: 400,
            volume_threshold_db: -40_000,
        }
    }
}

/// One step of the turn automaton: from a state and the accumulated speech
/// and silence durations, under one frame's VAD probability (per-mille),
/// volume (thousandths of a dB) and duration (ms), to the next state, the
/// new durations, and the emitted event. Durations saturate at `u32::MAX`.
pub open spec fn spec_turn_step(
    cfg: TurnDetectionConfig,
    state: TurnState,
    speech_ms: u32,
    silence_ms: u32,
    vad_prob: u32,
    volume_db: i32,
    frame_ms: u32,
) -> (TurnState, u32, u32, TurnEvent) {
    match state {
        TurnState::Idle => {
            if vad_prob > cfg.vad_threshold_enter && volume_db > cfg.volume_threshold_db {
                (TurnState::Speaking, frame_ms, silence_ms, TurnEvent::TurnStarted)
            } else {
                (TurnState::Idle, speech_ms, silence_ms, TurnEvent::NoEvent)
            }
        },
        TurnState::Speaking => {
            let sp = speech_ms.saturating_add(frame_ms);
            if vad_prob < cfg.vad_threshold_exit {
                (TurnState::SilenceGap, sp, frame_ms, TurnEvent::NoEvent)
            } else {
                (TurnState::Speaking, sp, silence_ms, TurnEvent::NoEvent)
            }
        },
        TurnState::SilenceGap => {
            let si = silence_ms.saturating_add(frame_ms);
            if vad_prob > cfg.vad_threshold_enter {
                (TurnState::Speaking, speech_ms.saturating_add(frame_ms), si, TurnEvent::NoEvent)
            } else if si >= cfg.max_silence_duration_ms {
                if speech_ms >= cfg.min_speech_duration_ms {
                    (TurnState::Idle, 0, 0, TurnEvent::TurnEnded(speech_ms))
                } else {
                    (TurnState::Idle, 0, 0, TurnEvent::NoEvent)
                }
            } else {
                (TurnState::SilenceGap, speech_ms, si, TurnEvent::NoEvent)
            }
        },
    }
}

/// The automaton run over a whole input sequence of frames, each a triple
/// of VAD probability, volume and frame duration; yields the final state,
/// the final durations, and the event emitted for each frame.
pub open spec fn spec_turn_run(
    cfg: TurnDetectionConfig,
    state: TurnState,
    speech_ms: u32,
    silence_ms: u32,
    inputs: Seq<(u32, i32, u32)>,
) -> (TurnState, u32, u32, Seq<TurnEvent>)
    decreases inputs.len(),
{
    if inputs.len() == 0 {
        (state, speech_ms, silence_ms, Seq::empty())
    } else {
        let (s1, p1, g1, e1) = spec_turn_step(
            cfg,
            state,
            speech_ms,
            silence_ms,
            inputs[0].0,
            inputs[0].1,
            inputs[0].2,
        );
        let (s2, p2, g2, es) = spec_turn_run(cfg, s1, p1, g1, inputs.drop_first());
        (s2, p2, g2, seq![e1] + es)
    }
}

/// Turn detection engine for one session.
pub struct TurnDetectionEngine {
    state: TurnState,
    vad_history: Vec<u32>,
    silence_duration_ms: u32,
    speech_duration_ms: u32,
    max_history_size: usize,
    config: TurnDetectionConfig,
    barge_in_pending: bool,
}

/// Sum of a sequence of per-mille probabilities.
pub open spec fn sum_seq(s: Seq<u32>) -> int
    decreases s.len(),
{
    if s.len() == 0 {
        0
    } else {
        sum_seq(s.drop_last()) + s.last()
    }
}

proof fn lemma_sum_seq_bound(s: Seq<u32>)
    ensures
        0 <= sum_seq(s) <= s.len() * (u32::MAX as int),
    decreases s.len(),
{
    if s.len() > 0 {
        lemma_sum_seq_bound(s.drop_last());
        assert((s.len() - 1) * (u32::MAX as int) + (u32::MAX as int) == s.len() * (
        u32::MAX as int)) by (nonlinear_arith);
    }
}

impl TurnDetectionEngine {
    pub closed spec fn spec_state(&self) -> TurnState {
        self.state
    }

    pub closed spec fn spec_speech_ms(&self) -> u32 {
        self.speech_duration_ms
    }

    pub closed spec fn spec_silence_ms(&self) -> u32 {
        self.silence_duration_ms
    }

    pub closed spec fn spec_config(&self) -> TurnDetectionConfig {
        self.config
    }

    pub closed spec fn spec_history(&self) -> Seq<u32> {
        self.vad_history@
    }

    pub closed spec fn spec_max_history(&self) -> int {
        self.max_history_size as int
    }

    pub closed spec fn spec_barge_in_pending(&self) -> bool {
        self.barge_in_pending
    }

    /// The rolling VAD history never outgrows its bound of 50 frames.
    pub open spec fn wf(&self) -> bool {
        &&& self.spec_history().len() <= self.spec_max_history()
        &&& self.spec_max_history() == 50
    }

    /// A fresh engine: Idle, zero durations, empty history, a history bound
    /// of 50 frames, no barge-in pending.
    pub fn new(config: TurnDetectionConfig) -> (r: Self)
        ensures
            r.wf(),
            r.spec_state() == TurnState::Idle,
            r.spec_speech_ms() == 0,
            r.spec_silence_ms() == 0,
            r.spec_history() == Seq::<u32>::empty(),
            r.spec_max_history() == 50,
            r.spec_config() == config,
            !r.spec_barge_in_pending(),
    {
        Self {
            state: TurnState::Idle,
            vad_history: Vec::new(),
            silence_duration_ms: 0,
            speech_duration_ms: 0,
            max_history_size: 50,
            config,
            barge_in_pending: false,
        }
    }

    /// Process one frame: update the rolling VAD history, then take one
    /// automaton step on (probability, volume, frame duration).
    ///
    /// A `TurnEnded` event is only ever emitted with a duration of at least
    /// `min_speech_duration_ms`: shorter bursts are suppressed.
    pub fn process(&mut self, vad_prob: u32, features: &AudioFeatures, frame_duration_ms: u32) -> (r:
        TurnEvent)
        requires
            old(self).wf(),
        ensures
            final(self).wf(),
            ({
                let (st, sp, si, ev) = spec_turn_step(
                    old(self).spec_config(),
                    old(self).spec_state(),
                    old(self).spec_speech_ms(),
                    old(self).spec_silence_ms(),
                    vad_prob,
                    features.volume_db,
                    frame_duration_ms,
                );
                &&& final(self).spec_state() == st
                &&& final(self).spec_speech_ms() == sp
                &&& final(self).spec_silence_ms() == si
                &&& r == ev
            }),
            r matches TurnEvent::TurnEnded(d) ==> d >= old(self).spec_config().min_speech_duration_ms,
            final(self).spec_history() == (if old(self).spec_history().len() + 1 > old(
                self,
            ).spec_max_history() {
                (old(self).spec_history() + seq![vad_prob]).drop_first()
            } else {
                old(self).spec_history() + seq![vad_prob]
            }),
            final(self).spec_config() == old(self).spec_config(),
            final(self).spec_max_history() == old(self).spec_max_history(),
            final(self).spec_barge_in_pending() == old(self).spec_barge_in_pending(),
    {
        self.vad_history.push(vad_prob);
        if self.vad_history.len() > self.max_history_size {
            self.vad_history.remove(0);
            proof {
                assert(self.vad_history@ =~= (old(self).spec_history()
                    + seq![vad_prob]).drop_first());
            }
        }

        match self.state {
            TurnState::Idle => {
                if vad_prob > self.config.vad_threshold_enter && features.volume_db
                    > self.config.volume_threshold_db {
                    self.state = TurnState::Speaking;
                    self.speech_duration_ms = frame_duration_ms;
                    TurnEvent::TurnStarted
                } else {
                    TurnEvent::NoEvent
                }
            },
            TurnState::Speaking => {
                self.speech_duration_ms = self.speech_duration_ms.saturating_add(
                    frame_duration_ms,
                );
                if vad_prob < self.config.vad_threshold_exit {
                    self.state = TurnState::SilenceGap;
                    self.silence_duration_ms = frame_duration_ms;
                }
                TurnEvent::NoEvent
            },
            TurnState::SilenceGap => {
                self.silence_duration_ms = self.silence_duration_ms.saturating_add(
                    frame_duration_ms,
                );
                if vad_prob > self.config.vad_threshold_enter {
                    // Speech resumed: the gap is absorbed, no event.
                    self.state = TurnState::Speaking;
                    self.speech_duration_ms = self.speech_duration_ms.saturating_add(
                        frame_duration_ms,
                    );
                    TurnEvent::NoEvent
                } else if self.silence_duration_ms >= self.config.max_silence_duration_ms {
                    self.state = TurnState::Idle;
                    let duration = self.speech_duration_ms;
                    self.speech_duration_ms = 0;
                    self.silence_duration_ms = 0;
                    if duration >= self.config.min_speech_duration_ms {
                        TurnEvent::TurnEnded(duration)
                    } else {
                        TurnEvent::NoEvent
                    }
                } else {
                    TurnEvent::NoEvent
                }
            },
        }
    }

    /// Current automaton state.
    pub fn state(&self) -> (r: TurnState)
        ensures
            r == self.spec_state(),
    {
        self.state
    }

    /// Accumulated speech duration in ms.
    pub fn speech_duration_ms(&self) -> (r: u32)
        ensures
            r == self.spec_speech_ms(),
    {
        self.speech_duration_ms
    }

    /// Accumulated silence duration in ms.
    pub fn silence_duration_ms(&self) -> (r: u32)
        ensures
            r == self.spec_silence_ms(),
    {
        self.silence_duration_ms
    }

    /// Back to Idle with zero durations, empty history and no pending
    /// barge-in.
    pub fn reset(&mut self)
        ensures
            old(self).wf() ==> final(self).wf(),
            final(self).spec_state() == TurnState::Idle,
            final(self).spec_speech_ms() == 0,
            final(self).spec_silence_ms() == 0,
            final(self).spec_history() == Seq::<u32>::empty(),
            !final(self).spec_barge_in_pending(),
            final(self).spec_config() == old(self).spec_config(),
            final(self).spec_max_history() == old(self).spec_max_history(),
    {
        self.state = TurnState::Idle;
        self.vad_history.clear();
        self.silence_duration_ms = 0;
        self.speech_duration_ms = 0;
        self.barge_in_pending = false;
    }

    /// Mean of the rolling VAD history in per-mille; 0 when empty.
    pub fn average_vad(&self) -> (r: u32)
        requires
            self.wf(),
        ensures
            self.spec_history().len() == 0 ==> r == 0,
            self.spec_history().len() > 0 ==> r == sum_seq(self.spec_history()) / (
            self.spec_history().len() as int),
    {
        if self.vad_history.len() == 0 {
            return 0;
        }
        let mut total: u64 = 0;
        let mut i: usize = 0;
        proof {
            lemma_sum_seq_bound(self.spec_history());
        }
        while i < self.vad_history.len()
            invariant
                i <= self.vad_history@.len(),
                total == sum_seq(self.vad_history@.subrange(0, i as int)),
                total <= i * (u32::MAX as int),
                self.vad_history@.len() * (u32::MAX as int) < u64::MAX,
            decreases self.vad_history.len() - i,
        {
            proof {
                lemma_sum_seq_bound(self.vad_history@.subrange(0, i as int));
                assert(self.vad_history@.subrange(0, (i + 1) as int).drop_last() =~= self.vad_history@.subrange(
                    0,
                    i as int,
                ));
                assert((i + 1) * (u32::MAX as int) == i * (u32::MAX as int) + (u32::MAX as int))
                    by (nonlinear_arith);
                assert(i * (u32::MAX as int) <= self.vad_history@.len() * (u32::MAX as int)) by (
                nonlinear_arith)
                    requires
                        0 <= i < self.vad_history@.len(),
                ;
            }
            total = total + (self.vad_history[i] as u64);
            i += 1;
        }
        proof {
            assert(self.vad_history@.subrange(0, self.vad_history@.len() as int)
                =~= self.vad_history@);
            lemma_sum_seq_bound(self.vad_history@);
            assert(sum_seq(self.vad_history@) / (self.vad_history@.len() as int) <= u32::MAX as int)
                by (nonlinear_arith)
                requires
                    self.vad_history@.len() >= 1,
                    0 <= sum_seq(self.vad_history@) <= self.vad_history@.len() * (u32::MAX as int),
            ;
        }
        (total / (self.vad_history.len() as u64)) as u32
    }

    /// Whether the user is currently in a speaking turn.
    pub fn is_speaking(&self) -> (r: bool)
        ensures
            r == (self.spec_state() == TurnState::Speaking),
    {
        match self.state {
            TurnState::Speaking => true,
            _ => false,
        }
    }

    /// Note that a barge-in may have occurred; remembered only while a turn
    /// is in progress (state not Idle).
    pub fn signal_potential_barge_in(&mut self)
        ensures
            final(self).spec_barge_in_pending() == (old(self).spec_barge_in_pending() || old(
                self,
            ).spec_state() != TurnState::Idle),
            final(self).spec_state() == old(self).spec_state(),
            final(self).spec_speech_ms() == old(self).spec_speech_ms(),
            final(self).spec_silence_ms() == old(self).spec_silence_ms(),
            final(self).spec_history() == old(self).spec_history(),
            final(self).spec_config() == old(self).spec_config(),
            final(self).spec_max_history() == old(self).spec_max_history(),
            old(self).wf() ==> final(self).wf(),
    {
        match self.state {
            TurnState::Idle => {},
            _ => {
                self.barge_in_pending = true;
            },
        }
    }

    /// Consume the barge-in flag: true only when a barge-in is pending and
    /// the user is speaking; the flag is cleared exactly in that case.
    pub fn check_barge_in(&mut self) -> (r: bool)
        ensures
            r == (old(self).spec_barge_in_pending() && old(self).spec_state()
                == TurnState::Speaking),
            final(self).spec_barge_in_pending() == (old(self).spec_barge_in_pending() && !r),
            final(self).spec_state() == old(self).spec_state(),
            final(self).spec_speech_ms() == old(self).spec_speech_ms(),
            final(self).spec_silence_ms() == old(self).spec_silence_ms(),
            final(self).spec_history() == old(self).spec_history(),
            final(self).spec_config() == old(self).spec_config(),
            final(self).spec_max_history() == old(self).spec_max_history(),
            old(self).wf() ==> final(self).wf(),
    {
        let speaking = match self.state {
            TurnState::Speaking => true,
            _ => false,
        };
        if self.barge_in_pending && speaking {
            self.barge_in_pending = false;
            true
        } else {
            false
        }
    }
}

/// Idle is idempotent under silence: from Idle, any number of frames whose
/// VAD probability stays below the enter threshold keeps the automaton in
/// Idle, leaves the durations untouched, and emits only `None` events.
pub proof fn lemma_turn_idle_on_silence(
    cfg: TurnDetectionConfig,
    speech_ms: u32,
    silence_ms: u32,
    inputs: Seq<(u32, i32, u32)>,
)
    requires
        forall|i: int| 0 <= i < inputs.len() ==> (#[trigger] inputs[i]).0 < cfg.vad_threshold_enter,
    ensures
        spec_turn_run(cfg, TurnState::Idle, speech_ms, silence_ms, inputs) == (
            TurnState::Idle,
            speech_ms,
            silence_ms,
            Seq::new(inputs.len(), |i: int| TurnEvent::NoEvent),
        ),
    decreases inputs.len(),
{
    if inputs.len() == 0 {
        assert(Seq::new(0, |i: int| TurnEvent::NoEvent) =~= Seq::<TurnEvent>::empty());
    } else {
        lemma_turn_idle_on_silence(cfg, speech_ms, silence_ms, inputs.drop_first());
        assert(seq![TurnEvent::NoEvent] + Seq::new(
            inputs.drop_first().len(),
            |i: int| TurnEvent::NoEvent,
        ) =~= Seq::new(inputs.len(), |i: int| TurnEvent::NoEvent));
    }
}

/// The single-step form of the idling law: one frame whose VAD
/// probability is below the enter threshold keeps an Idle engine in Idle
/// with both durations untouched (in particular zero, as in every engine
/// that has only seen such frames) and emits no event.
pub proof fn lemma_turn_idle_step(
    cfg: TurnDetectionConfig,
    speech_ms: u32,
    silence_ms: u32,
    vad_prob: u32,
    volume_db: i32,
    frame_ms: u32,
)
    requires
        vad_prob < cfg.vad_threshold_enter,
    ensures
        spec_turn_step(cfg, TurnState::Idle, speech_ms, silence_ms, vad_prob, volume_db, frame_ms)
            == (TurnState::Idle, speech_ms, silence_ms, TurnEvent::NoEvent),
{
}

/// Short speech is suppressed: whatever the state and durations, a single
/// automaton step emits `TurnEnded(d)` only with `d` at least the configured
/// minimum speech duration (and `d` is exactly the accumulated speech).
pub proof fn lemma_turn_short_speech_suppressed(
    cfg: TurnDetectionConfig,
    state: TurnState,
    speech_ms: u32,
    silence_ms: u32,
    vad_prob: u32,
    volume_db: i32,
    frame_ms: u32,
)
    ensures
        ({
            let (st, sp, si, ev) = spec_turn_step(
                cfg,
                state,
                speech_ms,
                silence_ms,
                vad_prob,
                volume_db,
                frame_ms,
            );
            ev matches TurnEvent::TurnEnded(d) ==> {
                &&& d >= cfg.min_speech_duration_ms
                &&& d == speech_ms
                &&& st == TurnState::Idle
            }
        }),
{
}

} // verus!

