//! RTP packet parsing and serialisation (RFC 3550 header subset).

use vstd::prelude::*;

use crate::error::AmwajError;

verus! {

/// A parsed RTP packet.
///
/// CSRC identifiers are not retained: parsing skips them, and serialisation
/// writes `csrc_count` all-zero identifiers so that the header layout is kept.
#[derive(Debug, Clone)]
pub struct RtpPacket {
    pub version: u8,
    pub padding: bool,
    pub extension: bool,
    pub csrc_count: u8,
    pub marker: bool,
    pub payload_type: u8,
    pub sequence_number: u16,
    pub timestamp: u32,
    pub ssrc: u32,
    pub payload: Vec<u8>,
}

/// First header byte: version, padding flag, extension flag, CSRC count.
pub open spec fn rtp_byte0(p: RtpPacket) -> u8 {
    ((p.version & 0x3) << 6) | (if p.padding {
        0x20u8
    } else {
        0u8
    }) | (if p.extension {
        0x10u8
    } else {
        0u8
    }) | (p.csrc_count & 0x0F)
}

/// Second header byte: marker flag and payload type.
pub open spec fn rtp_byte1(p: RtpPacket) -> u8 {
    (if p.marker {
        0x80u8
    } else {
        0u8
    }) | (p.payload_type & 0x7F)
}

/// The twelve fixed header bytes, big-endian.
pub open spec fn spec_rtp_header(p: RtpPacket) -> Seq<u8> {
    seq![
        rtp_byte0(p),
        rtp_byte1(p),
        ((p.sequence_number >> 8) & 0xFF) as u8,
        (p.sequence_number & 0xFF) as u8,
        ((p.timestamp >> 24) & 0xFF) as u8,
        ((p.timestamp >> 16) & 0xFF) as u8,
        ((p.timestamp >> 8) & 0xFF) as u8,
        (p.timestamp & 0xFF) as u8,
        ((p.ssrc >> 24) & 0xFF) as u8,
        ((p.ssrc >> 16) & 0xFF) as u8,
        ((p.ssrc >> 8) & 0xFF) as u8,
        (p.ssrc & 0xFF) as u8,
    ]
}

/// The full wire form: fixed header, zeroed CSRC identifiers, payload.
pub open spec fn spec_rtp_serialize(p: RtpPacket) -> Seq<u8> {
    spec_rtp_header(p) + Seq::new(4 * ((p.csrc_count & 0x0F) as nat), |i: int| 0u8) + p.payload@
}

/// Number of CSRC identifiers announced by the first header byte.
pub open spec fn parsed_csrc_count(data: Seq<u8>) -> u8 {
    data[0] & 0x0F
}

/// A datagram parses successfully iff it has the twelve fixed bytes, carries
/// version 2, and is long enough for the announced CSRC identifiers.
pub open spec fn rtp_header_ok(data: Seq<u8>) -> bool {
    &&& data.len() >= 12
    &&& ((data[0] >> 6) & 0x3) == 2
    &&& data.len() >= 12 + 4 * (parsed_csrc_count(data) as int)
}

pub open spec fn parsed_padding(data: Seq<u8>) -> bool {
    (data[0] & 0x20) != 0
}

pub open spec fn parsed_extension(data: Seq<u8>) -> bool {
    (data[0] & 0x10) != 0
}

pub open spec fn parsed_marker(data: Seq<u8>) -> bool {
    (data[1] & 0x80) != 0
}

pub open spec fn parsed_payload_type(data: Seq<u8>) -> u8 {
    data[1] & 0x7F
}

pub open spec fn parsed_sequence_number(data: Seq<u8>) -> u16 {
    ((data[2] as u16) << 8) | (data[3] as u16)
}

pub open spec fn parsed_timestamp(data: Seq<u8>) -> u32 {
    ((data[4] as u32) << 24) | ((data[5] as u32) << 16) | ((data[6] as u32) << 8) | (data[7] as u32)
}

pub open spec fn parsed_ssrc(data: Seq<u8>) -> u32 {
    ((data[8] as u32) << 24) | ((data[9] as u32) << 16) | ((data[10] as u32) << 8) | (data[11] as u32)
}

/// Everything after the fixed header and the CSRC identifiers.
pub open spec fn parsed_payload(data: Seq<u8>) -> Seq<u8> {
    data.subrange(12 + 4 * (parsed_csrc_count(data) as int), data.len() as int)
}

/// All fields of a packet agree with what `data` parses to.
pub open spec fn is_parse_of(p: RtpPacket, data: Seq<u8>) -> bool {
    &&& p.version == 2
    &&& p.padding == parsed_padding(data)
    &&& p.extension == parsed_extension(data)
    &&& p.csrc_count == parsed_csrc_count(data)
    &&& p.marker == parsed_marker(data)
    &&& p.payload_type == parsed_payload_type(data)
    &&& p.sequence_number == parsed_sequence_number(data)
    &&& p.timestamp == parsed_timestamp(data)
    &&& p.ssrc == parsed_ssrc(data)
    &&& p.payload@ == parsed_payload(data)
}

impl RtpPacket {
    /// Parse an RTP packet from raw datagram bytes.
    ///
    /// Fails with `MalformedRtp` iff the datagram is shorter than the fixed
    /// header, carries a version other than 2, or is truncated before the end
    /// of the announced CSRC identifiers.
    pub fn parse(data: &[u8]) -> (r: Result<Self, AmwajError>)
        ensures
            r is Ok <==> rtp_header_ok(data@),
            r matches Ok(p) ==> is_parse_of(p, data@),
            r matches Err(e) ==> e == AmwajError::MalformedRtp,
    {
        if data.len() < 12 {
            return Err(AmwajError::MalformedRtp);
        }
        let version = (data[0] >> 6) & 0x3;
        if version != 2 {
            return Err(AmwajError::MalformedRtp);
        }
        let padding = (data[0] & 0x20) != 0;
        let extension = (data[0] & 0x10) != 0;
        let csrc_count = data[0] & 0xF;
        let marker = (data[1] & 0x80) != 0;
        let payload_type = data[1] & 0x7F;
        let sequence_number = ((data[2] as u16) << 8) | (data[3] as u16);
        let timestamp = ((data[4] as u32) << 24) | ((data[5] as u32) << 16) | ((data[6]
            as u32) << 8) | (data[7] as u32);
        let ssrc = ((data[8] as u32) << 24) | ((data[9] as u32) << 16) | ((data[10] as u32) << 8)
            | (data[11] as u32);

        let header_size: usize = 12 + (csrc_count as usize) * 4;
        if data.len() < header_size {
            return Err(AmwajError::MalformedRtp);
        }

        let mut payload: Vec<u8> = Vec::new();
        let mut i: usize = header_size;
        while i < data.len()
            invariant
                header_size <= i <= data.len(),
                payload@ == data@.subrange(header_size as int, i as int),
            decreases data.len() - i,
        {
            payload.push(data[i]);
            proof {
                assert(payload@ =~= data@.subrange(header_size as int, i + 1));
            }
            i += 1;
        }
        proof {
            assert(payload@ =~= parsed_payload(data@));
        }

        Ok(
            Self {
                version,
                padding,
                extension,
                csrc_count,
                marker,
                payload_type,
                sequence_number,
                timestamp,
                ssrc,
                payload,
            },
        )
    }

    /// Serialise the packet back to wire bytes.
    pub fn serialize(&self) -> (r: Vec<u8>)
        ensures
            r@ == spec_rtp_serialize(*self),
    {
        let mut data: Vec<u8> = Vec::new();
        let byte0 = ((self.version & 0x3) << 6) | (if self.padding {
            0x20u8
        } else {
            0u8
        }) | (if self.extension {
            0x10u8
        } else {
            0u8
        }) | (self.csrc_count & 0x0F);
        data.push(byte0);
        let byte1 = (if self.marker {
            0x80u8
        } else {
            0u8
        }) | (self.payload_type & 0x7F);
        data.push(byte1);
        data.push(((self.sequence_number >> 8) & 0xFF) as u8);
        data.push((self.sequence_number & 0xFF) as u8);
        data.push(((self.timestamp >> 24) & 0xFF) as u8);
        data.push(((self.timestamp >> 16) & 0xFF) as u8);
        data.push(((self.timestamp >> 8) & 0xFF) as u8);
        data.push((self.timestamp & 0xFF) as u8);
        data.push(((self.ssrc >> 24) & 0xFF) as u8);
        data.push(((self.ssrc >> 16) & 0xFF) as u8);
        data.push(((self.ssrc >> 8) & 0xFF) as u8);
        data.push((self.ssrc & 0xFF) as u8);

        let csrc_words: usize = (self.csrc_count & 0x0F) as usize;
        let mut w: usize = 0;
        while w < 4 * csrc_words
            invariant
                w <= 4 * csrc_words,
                csrc_words == (self.csrc_count & 0x0F) as int,
                data@ == spec_rtp_header(*self) + Seq::new(w as nat, |i: int| 0u8),
            decreases 4 * csrc_words - w,
        {
            data.push(0u8);
            proof {
                assert(data@ =~= spec_rtp_header(*self) + Seq::new((w + 1) as nat, |i: int| 0u8));
            }
            w += 1;
        }

        let mut j: usize = 0;
        while j < self.payload.len()
            invariant
                j <= self.payload.len(),
                data@ == spec_rtp_header(*self) + Seq::new(
                    4 * ((self.csrc_count & 0x0F) as nat),
                    |i: int| 0u8,
                ) + self.payload@.subrange(0, j as int),
            decreases self.payload.len() - j,
        {
            data.push(self.payload[j]);
            proof {
                assert(data@ =~= spec_rtp_header(*self) + Seq::new(
                    4 * ((self.csrc_count & 0x0F) as nat),
                    |i: int| 0u8,
                ) + self.payload@.subrange(0, j + 1));
            }
            j += 1;
        }
        proof {
            assert(self.payload@.subrange(0, self.payload@.len() as int) =~= self.payload@);
            assert(data@ =~= spec_rtp_serialize(*self));
        }
        data
    }

    /// Whether the payload type is one of the Opus defaults (111, also 96).
    pub fn is_opus(&self) -> (r: bool)
        ensures
            r == (self.payload_type == 111 || self.payload_type == 96),
    {
        self.payload_type == 111 || self.payload_type == 96
    }
}

/// Round trip: a packet with version 2, at most fifteen CSRCs and a seven-bit
/// payload type parses back from its own serialisation with all fields equal.
pub proof fn lemma_rtp_round_trip(p: RtpPacket)
    requires
        p.version == 2,
        p.csrc_count <= 15,
        p.payload_type < 128,
    ensures
        rtp_header_ok(spec_rtp_serialize(p)),
        is_parse_of(p, spec_rtp_serialize(p)),
{
    let d = spec_rtp_serialize(p);
    let pb: u8 = if p.padding {
        0x20
    } else {
        0
    };
    let eb: u8 = if p.extension {
        0x10
    } else {
        0
    };
    let cc = p.csrc_count;
    assert(d[0] == rtp_byte0(p));
    assert(d[1] == rtp_byte1(p));
    assert(rtp_byte0(p) == ((2u8 & 0x3) << 6) | pb | eb | (cc & 0x0F));
    assert((((((2u8 & 0x3) << 6) | pb | eb | (cc & 0x0F)) >> 6) & 0x3) == 2) by (bit_vector)
        requires
            pb == 0x20 || pb == 0,
            eb == 0x10 || eb == 0,
            cc <= 15,
    ;
    assert(((((2u8 & 0x3) << 6) | pb | eb | (cc & 0x0F)) & 0x0F) == cc) by (bit_vector)
        requires
            pb == 0x20 || pb == 0,
            eb == 0x10 || eb == 0,
            cc <= 15,
    ;
    assert(((((2u8 & 0x3) << 6) | pb | eb | (cc & 0x0F)) & 0x20 != 0) == (pb == 0x20))
        by (bit_vector)
        requires
            pb == 0x20 || pb == 0,
            eb == 0x10 || eb == 0,
            cc <= 15,
    ;
    assert(((((2u8 & 0x3) << 6) | pb | eb | (cc & 0x0F)) & 0x10 != 0) == (eb == 0x10))
        by (bit_vector)
        requires
            pb == 0x20 || pb == 0,
            eb == 0x10 || eb == 0,
            cc <= 15,
    ;
    let mb: u8 = if p.marker {
        0x80
    } else {
        0
    };
    let pt = p.payload_type;
    assert(rtp_byte1(p) == mb | (pt & 0x7F));
    assert(((mb | (pt & 0x7F)) & 0x80 != 0) == (mb == 0x80)) by (bit_vector)
        requires
            mb == 0x80 || mb == 0,
            pt < 128,
    ;
    assert(((mb | (pt & 0x7F)) & 0x7F) == pt) by (bit_vector)
        requires
            mb == 0x80 || mb == 0,
            pt < 128,
    ;
    let sn = p.sequence_number;
    assert(((((sn >> 8) & 0xFF) as u8) as u16) << 8 | ((sn & 0xFF) as u8) as u16 == sn)
        by (bit_vector);
    let ts = p.timestamp;
    assert(((((ts >> 24) & 0xFF) as u8) as u32) << 24 | ((((ts >> 16) & 0xFF) as u8) as u32) << 16
        | ((((ts >> 8) & 0xFF) as u8) as u32) << 8 | (((ts & 0xFF) as u8) as u32) == ts)
        by (bit_vector);
    let sc = p.ssrc;
    assert(((((sc >> 24) & 0xFF) as u8) as u32) << 24 | ((((sc >> 16) & 0xFF) as u8) as u32) << 16
        | ((((sc >> 8) & 0xFF) as u8) as u32) << 8 | (((sc & 0xFF) as u8) as u32) == sc)
        by (bit_vector);
    assert(cc & 0x0F == cc) by (bit_vector)
        requires
            cc <= 15,
    ;
    assert(parsed_payload(d) =~= p.payload@);
}

} // verus!
