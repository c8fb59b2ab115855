//! Fixed numbers of the wire format.

use vstd::prelude::*;

verus! {

/// The RTP version that every packet carries.
pub const RTP_VERSION: u8 = 2;

/// The largest packet, header included, that is handed to encryption.
pub const RTP_PACKET_MAX_SIZE: usize = 1460;

/// Length of the fixed RTP header in bytes.
pub const RTP_HEADER_LEN: usize = 12;

/// Dynamic payload type of Opus audio.
pub const RTP_OPUS_PROFILE_TYPE: u8 = 120;

/// Dynamic payload type of AV1 video.
pub const RTP_AV1_PROFILE_TYPE: u8 = 101;

/// Dynamic payload type of retransmitted AV1 video.
pub const RTP_AV1_RTX_PROFILE_TYPE: u8 = 102;

/// Dynamic payload type of H.264 video.
pub const RTP_H264_PROFILE_TYPE: u8 = 103;

/// Dynamic payload type of retransmitted H.264 video.
pub const RTP_H264_RTX_PROFILE_TYPE: u8 = 104;

/// Dynamic payload type of VP8 video.
pub const RTP_VP8_PROFILE_TYPE: u8 = 105;

/// Dynamic payload type of retransmitted VP8 video.
pub const RTP_VP8_RTX_PROFILE_TYPE: u8 = 106;

/// Dynamic payload type of VP9 video.
pub const RTP_VP9_PROFILE_TYPE: u8 = 107;

/// Dynamic payload type of retransmitted VP9 video.
pub const RTP_VP9_RTX_PROFILE_TYPE: u8 = 108;

} // verus!
