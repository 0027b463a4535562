//! Peer connection: per-session RTP intake through the jitter buffer into
//! the decoder. Transport setup (SDP exchange, DTLS, sockets) is outside
//! the library.

use vstd::prelude::*;
use vstd::string::StringExecFns;

use crate::codec::{spec_frame_samples, OpusDecoder};
use crate::error::AmwajError;
use crate::jitter_buffer::JitterBuffer;
use crate::rtp_handler::{parsed_payload, parsed_sequence_number, rtp_header_ok, RtpPacket};

verus! {

/// Buffer statistics of a connection, in integer units.
#[derive(Debug, Clone, Copy, PartialEq, Eq, Structural)]
pub struct BufferStats {
    /// Resident packets.
    pub size: usize,
    /// Buffer level as a percentage of capacity.
    pub level_percent: u32,
    /// Packet loss in per-mille.
    pub packet_loss_permille: u32,
}

/// A peer connection for one session: jitter buffer and decoder for the
/// incoming RTP audio, plus the session's SDP state.
pub struct PeerConnection {
    session_id: String,
    is_connected: bool,
    remote_sdp: Option<String>,
    local_sdp: Option<String>,
    jitter_buffer: JitterBuffer,
    decoder: OpusDecoder,
    packets_processed: u64,
}

impl PeerConnection {
    pub closed spec fn spec_session_id(&self) -> Seq<char> {
        self.session_id@
    }

    pub closed spec fn spec_connected(&self) -> bool {
        self.is_connected
    }

    pub closed spec fn spec_remote_sdp(&self) -> Option<Seq<char>> {
        match self.remote_sdp {
            Some(s) => Some(s@),
            None => None,
        }
    }

    pub closed spec fn spec_jitter(&self) -> JitterBuffer {
        self.jitter_buffer
    }

    pub closed spec fn spec_decoder(&self) -> OpusDecoder {
        self.decoder
    }

    pub closed spec fn spec_packets_processed(&self) -> u64 {
        self.packets_processed
    }

    /// The jitter buffer is well-formed and the decoder runs mono 16 kHz.
    pub open spec fn wf(&self) -> bool {
        &&& self.spec_jitter().wf()
        &&& self.spec_decoder().wf()
        &&& self.spec_decoder().spec_sample_rate() == 16000
        &&& self.spec_decoder().spec_channels() == 1
    }

    /// A disconnected connection with an empty 100 ms jitter buffer and a
    /// mono 16 kHz decoder.
    pub fn new(session_id: String) -> (r: Self)
        ensures
            r.wf(),
            r.spec_session_id() == session_id@,
            !r.spec_connected(),
            r.spec_remote_sdp() is None,
            r.spec_jitter().view_entries() == Seq::<(u16, Seq<u8>)>::empty(),
            r.spec_packets_processed() == 0,
    {
        Self {
            session_id,
            is_connected: false,
            remote_sdp: None,
            local_sdp: None,
            jitter_buffer: JitterBuffer::new(100, 16000),
            decoder: OpusDecoder::new(16000),
            packets_processed: 0,
        }
    }

    /// The session id.
    pub fn session_id(&self) -> (r: &str)
        ensures
            r@ == self.spec_session_id(),
    {
        self.session_id.as_str()
    }

    /// Whether the media path is connected.
    pub fn is_connected(&self) -> (r: bool)
        ensures
            r == self.spec_connected(),
    {
        self.is_connected
    }

    /// Mark the media path connected or not.
    pub fn set_connected(&mut self, connected: bool)
        ensures
            final(self).spec_connected() == connected,
            final(self).spec_session_id() == old(self).spec_session_id(),
            final(self).spec_remote_sdp() == old(self).spec_remote_sdp(),
            final(self).spec_jitter() == old(self).spec_jitter(),
            final(self).spec_decoder() == old(self).spec_decoder(),
            final(self).spec_packets_processed() == old(self).spec_packets_processed(),
            old(self).wf() ==> final(self).wf(),
    {
        self.is_connected = connected;
    }

    /// Store the remote SDP offer.
    pub fn set_remote_sdp(&mut self, sdp: String) -> (r: Result<(), AmwajError>)
        ensures
            r is Ok,
            final(self).spec_remote_sdp() == Some(sdp@),
            final(self).spec_session_id() == old(self).spec_session_id(),
            final(self).spec_connected() == old(self).spec_connected(),
            final(self).spec_jitter() == old(self).spec_jitter(),
            final(self).spec_decoder() == old(self).spec_decoder(),
            final(self).spec_packets_processed() == old(self).spec_packets_processed(),
            old(self).wf() ==> final(self).wf(),
    {
        self.remote_sdp = Some(sdp);
        Ok(())
    }

    /// The stored remote SDP, if any.
    pub fn remote_sdp(&self) -> (r: Option<&String>)
        ensures
            r matches Some(s) ==> self.spec_remote_sdp() == Some(s@),
            r is Some <==> self.spec_remote_sdp() is Some,
    {
        self.remote_sdp.as_ref()
    }

    /// Produce the local SDP answer for a mono Opus audio stream.
    pub fn create_answer(&mut self) -> (r: Result<String, AmwajError>)
        ensures
            r is Ok,
            r matches Ok(answer) ==> answer@
                == "v=0\r\no=- 0 0 IN IP4 127.0.0.1\r\ns=Amwaj Media Server\r\nt=0 0\r\nm=audio 0 RTP/AVP 111\r\na=rtpmap:111 opus/48000/2\r\n"@,
            final(self).spec_session_id() == old(self).spec_session_id(),
            final(self).spec_connected() == old(self).spec_connected(),
            final(self).spec_remote_sdp() == old(self).spec_remote_sdp(),
            final(self).spec_jitter() == old(self).spec_jitter(),
            final(self).spec_decoder() == old(self).spec_decoder(),
            final(self).spec_packets_processed() == old(self).spec_packets_processed(),
            old(self).wf() ==> final(self).wf(),
    {
        let answer = answer_string();
        self.local_sdp = Some(answer_string());
        Ok(answer)
    }

    /// Take one RTP datagram: parse it, enqueue its payload by sequence
    /// number, then pop and decode the lowest-sequence resident payload.
    ///
    /// A malformed datagram is rejected with `MalformedRtp` and changes
    /// nothing. Otherwise the parsed payload joins the buffer exactly as
    /// `insert` describes (half-range late drop, sorted insert, eviction
    /// at capacity), the minimum resident is popped and decoded: the
    /// result is one fixed-length PCM frame iff the popped payload was
    /// non-empty, `EmptyPayload` iff it was empty, and `None` iff nothing
    /// was resident after the insert step.
    pub fn on_rtp_packet(&mut self, packet_data: &[u8]) -> (r: Result<Option<Vec<i16>>, AmwajError>)
        requires
            old(self).wf(),
        ensures
            final(self).wf(),
            final(self).spec_session_id() == old(self).spec_session_id(),
            final(self).spec_connected() == old(self).spec_connected(),
            final(self).spec_remote_sdp() == old(self).spec_remote_sdp(),
            final(self).spec_decoder().spec_sample_rate() == old(
                self,
            ).spec_decoder().spec_sample_rate(),
            final(self).spec_decoder().spec_channels() == old(self).spec_decoder().spec_channels(),
            !rtp_header_ok(packet_data@) ==> r == Result::<Option<Vec<i16>>, AmwajError>::Err(
                AmwajError::MalformedRtp,
            ) && *final(self) == *old(self),
            rtp_header_ok(packet_data@) ==> {
                &&& final(self).spec_packets_processed() == old(
                    self,
                ).spec_packets_processed().saturating_add(1)
                &&& exists|mid: JitterBuffer|
                    {
                        &&& crate::jitter_buffer::insert_transition(
                            old(self).spec_jitter(),
                            mid,
                            parsed_sequence_number(packet_data@),
                            parsed_payload(packet_data@),
                        )
                        &&& if mid.view_entries().len() == 0 {
                            &&& r == Result::<Option<Vec<i16>>, AmwajError>::Ok(None)
                            &&& final(self).spec_jitter() == mid
                            &&& final(self).spec_decoder().spec_frames_decoded() == old(
                                self,
                            ).spec_decoder().spec_frames_decoded()
                        } else {
                            &&& final(self).spec_jitter().view_entries()
                                == mid.view_entries().drop_first()
                            &&& final(self).spec_jitter().spec_last_sequence() == Some(
                                mid.view_entries()[0].0,
                            )
                            &&& final(self).spec_jitter().spec_received() == mid.spec_received()
                            &&& final(self).spec_jitter().spec_lost() == mid.spec_lost()
                            &&& final(self).spec_jitter().spec_max_packets()
                                == mid.spec_max_packets()
                            &&& (mid.view_entries()[0].1.len() == 0 ==> r == Result::<
                                Option<Vec<i16>>,
                                AmwajError,
                            >::Err(AmwajError::EmptyPayload) && final(self).spec_decoder().spec_frames_decoded() == old(
                                self,
                            ).spec_decoder().spec_frames_decoded())
                            &&& (mid.view_entries()[0].1.len() > 0 ==> (r matches Ok(o)
                                && o matches Some(pcm) && pcm@ == Seq::new(
                                spec_frame_samples(16000, 1) as nat,
                                |i: int| 0i16,
                            )) && final(self).spec_decoder().spec_frames_decoded() == old(
                                self,
                            ).spec_decoder().spec_frames_decoded().saturating_add(1))
                        }
                    }
            },
    {
        let packet = match RtpPacket::parse(packet_data) {
            Ok(p) => p,
            Err(e) => {
                return Err(e);
            },
        };
        self.packets_processed = self.packets_processed.saturating_add(1);

        self.jitter_buffer.insert(packet.sequence_number, packet.payload);
        let ghost mid = self.jitter_buffer;
        proof {
            assert(crate::jitter_buffer::insert_transition(
                old(self).spec_jitter(),
                mid,
                parsed_sequence_number(packet_data@),
                parsed_payload(packet_data@),
            ));
        }

        let frame = self.jitter_buffer.get_ready_frame();
        match frame {
            Some(opus_data) => {
                proof {
                    assert(mid.view_entries().len() > 0);
                    assert(opus_data@ == mid.view_entries()[0].1);
                }
                match self.decoder.decode(opus_data.as_slice()) {
                    Ok(pcm) => Ok(Some(pcm)),
                    Err(e) => Err(e),
                }
            },
            None => Ok(None),
        }
    }

    /// Size, level and loss of the jitter buffer.
    pub fn get_buffer_stats(&self) -> (r: BufferStats)
        requires
            self.wf(),
        ensures
            r.size == self.spec_jitter().view_entries().len(),
            r.level_percent == 100 * self.spec_jitter().view_entries().len() as int
                / self.spec_jitter().spec_max_packets(),
            r.level_percent <= 100,
            r.packet_loss_permille == (if self.spec_jitter().spec_received() == 0 {
                0
            } else {
                1000 * self.spec_jitter().spec_lost() as int / (
                self.spec_jitter().spec_received() as int + self.spec_jitter().spec_lost() as int)
            }),
            r.packet_loss_permille <= 1000,
    {
        BufferStats {
            size: self.jitter_buffer.size(),
            level_percent: self.jitter_buffer.level_percent(),
            packet_loss_permille: self.jitter_buffer.packet_loss_permille(),
        }
    }

    /// Total RTP packets taken in.
    pub fn packets_processed(&self) -> (r: u64)
        ensures
            r == self.spec_packets_processed(),
    {
        self.packets_processed
    }

    /// Drop all buffered payloads.
    pub fn clear_buffer(&mut self)
        requires
            old(self).wf(),
        ensures
            final(self).wf(),
            final(self).spec_jitter().view_entries() == Seq::<(u16, Seq<u8>)>::empty(),
            final(self).spec_session_id() == old(self).spec_session_id(),
            final(self).spec_packets_processed() == old(self).spec_packets_processed(),
            final(self).spec_decoder() == old(self).spec_decoder(),
    {
        self.jitter_buffer.clear();
    }
}

/// The fixed SDP answer body.
fn answer_string() -> (r: String)
    ensures
        r@
            == "v=0\r\no=- 0 0 IN IP4 127.0.0.1\r\ns=Amwaj Media Server\r\nt=0 0\r\nm=audio 0 RTP/AVP 111\r\na=rtpmap:111 opus/48000/2\r\n"@,
{
    String::from_str(
        "v=0\r\no=- 0 0 IN IP4 127.0.0.1\r\ns=Amwaj Media Server\r\nt=0 0\r\nm=audio 0 RTP/AVP 111\r\na=rtpmap:111 opus/48000/2\r\n",
    )
}

} // verus!
