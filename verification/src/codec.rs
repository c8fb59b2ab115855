//! The codecs of the transport and their RTP payload types.

use crate::bytes::bytes_equal;
use crate::constants::{
    RTP_AV1_PROFILE_TYPE, RTP_H264_PROFILE_TYPE, RTP_OPUS_PROFILE_TYPE, RTP_VP8_PROFILE_TYPE,
    RTP_VP9_PROFILE_TYPE,
};
use crate::rtp::PayloadType;
use vstd::prelude::*;
use vstd::utf8::encode_utf8_decode_utf8;

verus! {

/// The two streams of a session.
#[derive(Clone, Copy, Debug, PartialEq, Eq, Structural)]
pub enum StreamKind {
    /// The video stream.
    Video,
    /// The audio stream.
    Audio,
}

/// A codec that the transport carries.
#[derive(Clone, Copy, Debug, PartialEq, Eq, Structural)]
pub enum Codec {
    /// AV1 video, `video/x-av1`.
    Av1,
    /// H.264 video, `video/x-h264`.
    H264,
    /// VP8 video, `video/x-vp8`.
    Vp8,
    /// VP9 video, `video/x-vp9`.
    Vp9,
    /// Opus audio, `audio/x-opus`.
    Opus,
}

/// The media type names no codec of the transport.
#[derive(Clone, Copy, Debug, PartialEq, Eq)]
pub struct UnsupportedCodec;

impl Codec {
    /// The media type under which the codec is negotiated.
    pub open spec fn spec_name(self) -> Seq<char> {
        match self {
            Codec::Av1 => "video/x-av1"@,
            Codec::H264 => "video/x-h264"@,
            Codec::Vp8 => "video/x-vp8"@,
            Codec::Vp9 => "video/x-vp9"@,
            Codec::Opus => "audio/x-opus"@,
        }
    }

    /// The RTP payload type of the codec.
    pub open spec fn spec_payload_type(self) -> u8 {
        match self {
            Codec::Av1 => RTP_AV1_PROFILE_TYPE,
            Codec::H264 => RTP_H264_PROFILE_TYPE,
            Codec::Vp8 => RTP_VP8_PROFILE_TYPE,
            Codec::Vp9 => RTP_VP9_PROFILE_TYPE,
            Codec::Opus => RTP_OPUS_PROFILE_TYPE,
        }
    }

    /// The stream that carries the codec.
    pub open spec fn spec_kind(self) -> StreamKind {
        match self {
            Codec::Opus => StreamKind::Audio,
            _ => StreamKind::Video,
        }
    }

    /// The codec that is negotiated under the media type `name`, if any.
    pub open spec fn of_name(name: Seq<char>) -> Option<Codec> {
        if name == Codec::Av1.spec_name() {
            Some(Codec::Av1)
        } else if name == Codec::H264.spec_name() {
            Some(Codec::H264)
        } else if name == Codec::Vp8.spec_name() {
            Some(Codec::Vp8)
        } else if name == Codec::Vp9.spec_name() {
            Some(Codec::Vp9)
        } else if name == Codec::Opus.spec_name() {
            Some(Codec::Opus)
        } else {
            None
        }
    }

    /// The media type under which the codec is negotiated.
    pub fn name(self) -> (name: &'static str)
        ensures
            name@ == self.spec_name(),
    {
        match self {
            Codec::Av1 => "video/x-av1",
            Codec::H264 => "video/x-h264",
            Codec::Vp8 => "video/x-vp8",
            Codec::Vp9 => "video/x-vp9",
            Codec::Opus => "audio/x-opus",
        }
    }

    /// The RTP payload type of the codec.
    pub fn payload_type(self) -> (payload_type: PayloadType)
        ensures
            payload_type@ == self.spec_payload_type(),
    {
        match self {
            Codec::Av1 => PayloadType::from_code(RTP_AV1_PROFILE_TYPE),
            Codec::H264 => PayloadType::from_code(RTP_H264_PROFILE_TYPE),
            Codec::Vp8 => PayloadType::from_code(RTP_VP8_PROFILE_TYPE),
            Codec::Vp9 => PayloadType::from_code(RTP_VP9_PROFILE_TYPE),
            Codec::Opus => PayloadType::from_code(RTP_OPUS_PROFILE_TYPE),
        }
    }

    /// The stream that carries the codec.
    pub fn kind(self) -> (kind: StreamKind)
        ensures
            kind == self.spec_kind(),
    {
        match self {
            Codec::Opus => StreamKind::Audio,
            _ => StreamKind::Video,
        }
    }

    /// The codec that is negotiated under the media type `name`, if any.
    pub fn from_name(name: &str) -> (codec: Option<Codec>)
        ensures
            codec == Codec::of_name(name@),
    {
        if same_text(name, Codec::Av1.name()) {
            Some(Codec::Av1)
        } else if same_text(name, Codec::H264.name()) {
            Some(Codec::H264)
        } else if same_text(name, Codec::Vp8.name()) {
            Some(Codec::Vp8)
        } else if same_text(name, Codec::Vp9.name()) {
            Some(Codec::Vp9)
        } else if same_text(name, Codec::Opus.name()) {
            Some(Codec::Opus)
        } else {
            None
        }
    }
}

/// Whether two strings hold the same text.
pub fn same_text(left: &str, right: &str) -> (same: bool)
    ensures
        same <==> left@ == right@,
{
    let same: bool = bytes_equal(left.as_bytes(), right.as_bytes());
    proof {
        if same {
            encode_utf8_decode_utf8(left@);
            encode_utf8_decode_utf8(right@);
        }
    }
    same
}

/// The payload type of the codec that is negotiated under `codec_name`.
/// Fails for every name but the five of `Codec`.
pub fn resolve(codec_name: &str) -> (payload_type: Result<PayloadType, UnsupportedCodec>)
    ensures
        match Codec::of_name(codec_name@) {
            Some(codec) => payload_type matches Ok(p) && p@ == codec.spec_payload_type(),
            None => payload_type is Err,
        },
{
    match Codec::from_name(codec_name) {
        Some(codec) => Ok(codec.payload_type()),
        None => Err(UnsupportedCodec),
    }
}

/// Two codecs never share a payload type.
pub proof fn lemma_payload_types_distinct(first: Codec, second: Codec)
    ensures
        first != second ==> first.spec_payload_type() != second.spec_payload_type(),
        96 <= first.spec_payload_type() <= 127,
{
}

/// Each codec is found under its own media type, so `resolve` gives each of
/// the five names the payload type of its codec, and the five differ.
pub proof fn lemma_names_resolve(codec: Codec)
    ensures
        Codec::of_name(codec.spec_name()) == Some(codec),
{
    reveal_strlit("video/x-av1");
    reveal_strlit("video/x-h264");
    reveal_strlit("video/x-vp8");
    reveal_strlit("video/x-vp9");
    reveal_strlit("audio/x-opus");
    let av1 = Codec::Av1.spec_name();
    let h264 = Codec::H264.spec_name();
    let vp8 = Codec::Vp8.spec_name();
    let vp9 = Codec::Vp9.spec_name();
    let opus = Codec::Opus.spec_name();
    assert(av1[8] == 'a' && vp8[8] == 'v' && vp9[8] == 'v');
    assert(vp8[10] == '8' && vp9[10] == '9');
    assert(h264[0] == 'v' && opus[0] == 'a');
}

} // verus!
