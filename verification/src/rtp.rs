//! The RTP packet: a 12-byte header, the payload, and spare room behind it.

use crate::bytes::{be16, be32, copy_into, zeros};
use crate::constants::{RTP_HEADER_LEN, RTP_PACKET_MAX_SIZE, RTP_VERSION};
use discortp::rtp::{MutableRtpPacket, RtpType};
use vstd::prelude::*;
use vstd::slice::{slice_subrange, slice_to_vec};

verus! {

/// The 12 header bytes of a packet without padding, extension, contributing
/// sources or marker: the version in the two highest bits of the first byte,
/// the payload type in the second byte, then sequence number, timestamp and
/// synchronization source in network byte order.
pub open spec fn header_bytes(
    version: u8,
    payload_type: u8,
    sequence: u16,
    timestamp: u32,
    ssrc: u32,
) -> Seq<u8> {
    seq![(version * 64) as u8, payload_type] + be16(sequence) + be32(timestamp) + be32(ssrc)
}

/// The version that a header carries: the two highest bits of byte 0.
pub open spec fn version_of(header: Seq<u8>) -> u8 {
    header[0] / 64
}

/// The payload type that a header carries: the seven low bits of byte 1.
pub open spec fn payload_type_of(header: Seq<u8>) -> u8 {
    header[1] % 128
}

/// The sequence number that a header carries in bytes 2 and 3.
pub open spec fn sequence_of(header: Seq<u8>) -> u16 {
    (header[2] * 256 + header[3]) as u16
}

/// The timestamp that a header carries in bytes 4 to 7.
pub open spec fn timestamp_of(header: Seq<u8>) -> u32 {
    (header[4] * 0x100_0000 + header[5] * 0x1_0000 + header[6] * 0x100 + header[7]) as u32
}

/// The synchronization source that a header carries in bytes 8 to 11.
pub open spec fn ssrc_of(header: Seq<u8>) -> u32 {
    (header[8] * 0x100_0000 + header[9] * 0x1_0000 + header[10] * 0x100 + header[11]) as u32
}

/// A 7-bit RTP payload type.
#[derive(Clone, Copy, Debug, PartialEq, Eq)]
pub struct PayloadType {
    code: u8,
}

impl View for PayloadType {
    type V = u8;

    closed spec fn view(&self) -> u8 {
        self.code
    }
}

impl PayloadType {
    #[verifier::type_invariant]
    spec fn fits_seven_bits(self) -> bool {
        self.code < 128
    }

    /// The payload type with the given code, if the code fits in 7 bits.
    pub fn new(code: u8) -> (payload_type: Option<PayloadType>)
        ensures
            payload_type is Some <==> code < 128,
            payload_type matches Some(p) ==> p@ == code,
    {
        if code < 128 {
            Some(PayloadType { code })
        } else {
            None
        }
    }

    /// The payload type with a code that is known to fit.
    pub(crate) fn from_code(code: u8) -> (payload_type: PayloadType)
        requires
            code < 128,
        ensures
            payload_type@ == code,
    {
        PayloadType { code }
    }

    /// The code, which is below 128.
    pub fn code(&self) -> (code: u8)
        ensures
            code == self@,
            code < 128,
    {
        proof {
            use_type_invariant(self);
        }
        self.code
    }
}

/// The frame does not fit in one packet.
#[derive(Clone, Copy, Debug, PartialEq, Eq)]
pub struct FrameTooLarge;

/// Trusted: calls `discortp::rtp::MutableRtpPacket::set_version`. In
/// `discortp::rtp::Rtp` the version is the first field and two bits wide:
/// the setter stores the two low bits of `version` in the two highest bits
/// of byte 0 and keeps the six bits below them.
#[verifier::external_body]
fn set_version(header: &mut [u8; RTP_HEADER_LEN], version: u8)
    ensures
        final(header)@ == old(header)@.update(
            0,
            (old(header)@[0] % 64 + (version % 4) * 64) as u8,
        ),
{
    if let Some(mut rtp) = MutableRtpPacket::new(header.as_mut_slice()) {
        rtp.set_version(version);
    }
}

/// Trusted: calls `discortp::rtp::MutableRtpPacket::set_payload_type` with
/// `RtpType::Dynamic(payload_type)`, whose code is `payload_type`. In
/// `discortp::rtp::Rtp` the payload type is seven bits wide and follows
/// the one-bit marker at the start of byte 1: the setter stores the seven
/// low bits of the code in the seven low bits of byte 1 and keeps the
/// marker bit above them.
#[verifier::external_body]
fn set_payload_type(header: &mut [u8; RTP_HEADER_LEN], payload_type: u8)
    ensures
        final(header)@ == old(header)@.update(
            1,
            ((old(header)@[1] / 128) * 128 + payload_type % 128) as u8,
        ),
{
    if let Some(mut rtp) = MutableRtpPacket::new(header.as_mut_slice()) {
        rtp.set_payload_type(RtpType::Dynamic(payload_type));
    }
}

/// Trusted: calls `discortp::rtp::MutableRtpPacket::set_sequence`. In
/// `discortp::rtp::Rtp` the sequence number is a big-endian 16-bit field
/// behind the first two bytes: the setter stores it in bytes 2 and 3, high
/// byte first, and touches nothing else.
#[verifier::external_body]
fn set_sequence(header: &mut [u8; RTP_HEADER_LEN], sequence: u16)
    ensures
        final(header)@ == old(header)@.update(2, (sequence / 256) as u8).update(
            3,
            (sequence % 256) as u8,
        ),
{
    if let Some(mut rtp) = MutableRtpPacket::new(header.as_mut_slice()) {
        rtp.set_sequence(sequence.into());
    }
}

/// Trusted: calls `discortp::rtp::MutableRtpPacket::set_timestamp`. In
/// `discortp::rtp::Rtp` the timestamp is a big-endian 32-bit field behind
/// the sequence number: the setter stores it in bytes 4 to 7, highest byte
/// first, and touches nothing else.
#[verifier::external_body]
fn set_timestamp(header: &mut [u8; RTP_HEADER_LEN], timestamp: u32)
    ensures
        final(header)@ == old(header)@.update(4, (timestamp / 0x100_0000) as u8).update(
            5,
            ((timestamp / 0x1_0000) % 256) as u8,
        ).update(6, ((timestamp / 0x100) % 256) as u8).update(7, (timestamp % 256) as u8),
{
    if let Some(mut rtp) = MutableRtpPacket::new(header.as_mut_slice()) {
        rtp.set_timestamp(timestamp.into());
    }
}

/// Trusted: calls `discortp::rtp::MutableRtpPacket::set_ssrc`. In
/// `discortp::rtp::Rtp` the synchronization source is a big-endian 32-bit
/// field behind the timestamp: the setter stores it in bytes 8 to 11,
/// highest byte first, and touches nothing else.
#[verifier::external_body]
fn set_ssrc(header: &mut [u8; RTP_HEADER_LEN], ssrc: u32)
    ensures
        final(header)@ == old(header)@.update(8, (ssrc / 0x100_0000) as u8).update(
            9,
            ((ssrc / 0x1_0000) % 256) as u8,
        ).update(10, ((ssrc / 0x100) % 256) as u8).update(11, (ssrc % 256) as u8),
{
    if let Some(mut rtp) = MutableRtpPacket::new(header.as_mut_slice()) {
        rtp.set_ssrc(ssrc);
    }
}

/// An RTP packet: the 12 header bytes, and behind them the body, which
/// holds the payload and whatever room was asked for behind it.
#[derive(Debug, PartialEq, Eq)]
pub struct RtpPacket {
    /// The fixed header.
    pub header: [u8; RTP_HEADER_LEN],
    /// Payload and spare room.
    pub body: Vec<u8>,
}

impl View for RtpPacket {
    type V = Seq<u8>;

    /// The bytes of the packet in wire order.
    open spec fn view(&self) -> Seq<u8> {
        self.header@ + self.body@
    }
}

impl Clone for RtpPacket {
    /// A packet with the same bytes.
    fn clone(&self) -> (copy: RtpPacket)
        ensures
            copy.header == self.header,
            copy.body@ == self.body@,
    {
        RtpPacket { header: self.header, body: self.body.clone() }
    }
}

impl RtpPacket {
    /// Builds the packet for one frame: the header of `header_bytes`, the
    /// frame unchanged behind it, and `tail_room` zero bytes behind the
    /// frame. A frame that, with the header, is longer than
    /// `RTP_PACKET_MAX_SIZE` is refused.
    pub fn build(
        frame: &[u8],
        payload_type: PayloadType,
        sequence: u16,
        timestamp: u32,
        ssrc: u32,
        tail_room: u16,
    ) -> (packet: Result<RtpPacket, FrameTooLarge>)
        ensures
            packet is Ok <==> frame@.len() + RTP_HEADER_LEN <= RTP_PACKET_MAX_SIZE,
            packet matches Ok(p) ==> {
                &&& p.header@ == header_bytes(
                    RTP_VERSION,
                    payload_type@,
                    sequence,
                    timestamp,
                    ssrc,
                )
                &&& p.body@ == frame@ + zeros(tail_room as nat)
            },
    {
        if frame.len() > RTP_PACKET_MAX_SIZE - RTP_HEADER_LEN {
            return Err(FrameTooLarge);
        }
        let code: u8 = payload_type.code();
        let mut header: [u8; RTP_HEADER_LEN] = [0u8; RTP_HEADER_LEN];
        set_version(&mut header, RTP_VERSION);
        set_payload_type(&mut header, code);
        set_sequence(&mut header, sequence);
        set_timestamp(&mut header, timestamp);
        set_ssrc(&mut header, ssrc);
        let mut body: Vec<u8> = vec![0u8; frame.len() + tail_room as usize];
        copy_into(&mut body, 0, frame);
        Ok(RtpPacket { header, body })
    }

    /// The RTP version of the packet.
    pub fn version(&self) -> (version: u8)
        ensures
            version == version_of(self.header@),
    {
        self.header[0] / 64
    }

    /// The payload type of the packet.
    pub fn payload_type(&self) -> (payload_type: PayloadType)
        ensures
            payload_type@ == payload_type_of(self.header@),
    {
        PayloadType::from_code(self.header[1] % 128)
    }

    /// The sequence number of the packet.
    pub fn sequence(&self) -> (sequence: u16)
        ensures
            sequence == sequence_of(self.header@),
    {
        let high: u16 = self.header[2] as u16;
        let low: u16 = self.header[3] as u16;
        high * 256 + low
    }

    /// The timestamp of the packet.
    pub fn timestamp(&self) -> (timestamp: u32)
        ensures
            timestamp == timestamp_of(self.header@),
    {
        let b0: u32 = self.header[4] as u32;
        let b1: u32 = self.header[5] as u32;
        let b2: u32 = self.header[6] as u32;
        let b3: u32 = self.header[7] as u32;
        b0 * 0x100_0000 + b1 * 0x1_0000 + b2 * 0x100 + b3
    }

    /// The synchronization source of the packet.
    pub fn ssrc(&self) -> (ssrc: u32)
        ensures
            ssrc == ssrc_of(self.header@),
    {
        let b0: u32 = self.header[8] as u32;
        let b1: u32 = self.header[9] as u32;
        let b2: u32 = self.header[10] as u32;
        let b3: u32 = self.header[11] as u32;
        b0 * 0x100_0000 + b1 * 0x1_0000 + b2 * 0x100 + b3
    }

    /// Takes received bytes as a packet, if they hold a whole header.
    pub fn from_bytes(bytes: &[u8]) -> (packet: Option<RtpPacket>)
        ensures
            packet is Some <==> bytes@.len() >= RTP_HEADER_LEN,
            packet matches Some(p) ==> p@ == bytes@,
    {
        if bytes.len() < RTP_HEADER_LEN {
            return None;
        }
        let mut header: [u8; RTP_HEADER_LEN] = [0u8; RTP_HEADER_LEN];
        let mut i: usize = 0;
        while i < RTP_HEADER_LEN
            invariant
                i <= RTP_HEADER_LEN <= bytes@.len(),
                header@.subrange(0, i as int) =~= bytes@.subrange(0, i as int),
            decreases RTP_HEADER_LEN - i,
        {
            header[i] = bytes[i];
            i = i + 1;
        }
        let body: Vec<u8> = slice_to_vec(slice_subrange(bytes, RTP_HEADER_LEN, bytes.len()));
        assert(header@ + body@ =~= bytes@) by {
            assert(header@ =~= header@.subrange(0, RTP_HEADER_LEN as int));
        }
        Some(RtpPacket { header, body })
    }

    /// The first `len` bytes of the packet in wire order, or all of them
    /// where it has fewer.
    pub fn to_bytes(&self, len: usize) -> (bytes: Vec<u8>)
        ensures
            len <= self@.len() ==> bytes@ == self@.subrange(0, len as int),
            len > self@.len() ==> bytes@ == self@,
    {
        let mut bytes: Vec<u8> = slice_to_vec(self.header.as_slice());
        if len <= RTP_HEADER_LEN {
            bytes.truncate(len);
        } else if len - RTP_HEADER_LEN <= self.body.len() {
            let part = slice_subrange(self.body.as_slice(), 0, len - RTP_HEADER_LEN);
            bytes.extend_from_slice(part);
        } else {
            bytes.extend_from_slice(self.body.as_slice());
        }
        bytes
    }
}

/// Headers built from the same payload type, timestamp and source agree in
/// every byte but those of the sequence number, bytes 2 and 3, which hold
/// each header's own sequence number.
pub proof fn lemma_headers_differ_only_in_sequence(
    version: u8,
    payload_type: u8,
    timestamp: u32,
    ssrc: u32,
    first: u16,
    second: u16,
)
    ensures
        header_bytes(version, payload_type, first, timestamp, ssrc).len() == 12,
        header_bytes(version, payload_type, second, timestamp, ssrc).len() == 12,
        forall|i: int|
            0 <= i < 12 && i != 2 && i != 3 ==> header_bytes(
                version,
                payload_type,
                first,
                timestamp,
                ssrc,
            )[i] == header_bytes(version, payload_type, second, timestamp, ssrc)[i],
        header_bytes(version, payload_type, first, timestamp, ssrc).subrange(2, 4) == be16(first),
        header_bytes(version, payload_type, second, timestamp, ssrc).subrange(2, 4) == be16(
            second,
        ),
        first != second ==> be16(first) != be16(second),
{
}

/// A header gives back the fields it was built from: the wire format loses
/// nothing of a 2-bit version, a 7-bit payload type, the sequence number,
/// the timestamp and the synchronization source.
pub proof fn lemma_header_reads_back(
    version: u8,
    payload_type: u8,
    sequence: u16,
    timestamp: u32,
    ssrc: u32,
)
    requires
        version < 4,
        payload_type < 128,
    ensures
        header_bytes(version, payload_type, sequence, timestamp, ssrc).len() == 12,
        version_of(header_bytes(version, payload_type, sequence, timestamp, ssrc)) == version,
        payload_type_of(header_bytes(version, payload_type, sequence, timestamp, ssrc))
            == payload_type,
        sequence_of(header_bytes(version, payload_type, sequence, timestamp, ssrc)) == sequence,
        timestamp_of(header_bytes(version, payload_type, sequence, timestamp, ssrc)) == timestamp,
        ssrc_of(header_bytes(version, payload_type, sequence, timestamp, ssrc)) == ssrc,
{
}

} // verus!
