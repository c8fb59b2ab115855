use discordstreamer::codec::{resolve, same_text, Codec, StreamKind, UnsupportedCodec};
use discordstreamer::constants::{
    RTP_AV1_PROFILE_TYPE, RTP_AV1_RTX_PROFILE_TYPE, RTP_H264_PROFILE_TYPE,
    RTP_H264_RTX_PROFILE_TYPE, RTP_OPUS_PROFILE_TYPE, RTP_PACKET_MAX_SIZE, RTP_VERSION,
    RTP_VP8_PROFILE_TYPE, RTP_VP8_RTX_PROFILE_TYPE, RTP_VP9_PROFILE_TYPE,
    RTP_VP9_RTX_PROFILE_TYPE,
};

#[test]
fn resolve_gives_each_codec_its_payload_type() {
    assert_eq!(resolve("video/x-av1").unwrap().code(), 101);
    assert_eq!(resolve("video/x-h264").unwrap().code(), 103);
    assert_eq!(resolve("video/x-vp8").unwrap().code(), 105);
    assert_eq!(resolve("video/x-vp9").unwrap().code(), 107);
    assert_eq!(resolve("audio/x-opus").unwrap().code(), 120);
}

#[test]
fn resolve_is_stable_and_distinct() {
    let names = ["video/x-av1", "video/x-h264", "video/x-vp8", "video/x-vp9", "audio/x-opus"];
    for (i, first) in names.iter().enumerate() {
        assert_eq!(resolve(first), resolve(first));
        for second in names.iter().skip(i + 1) {
            assert_ne!(resolve(first).unwrap().code(), resolve(second).unwrap().code());
        }
    }
}

#[test]
fn resolve_refuses_other_names() {
    assert_eq!(resolve("video/x-h265"), Err(UnsupportedCodec));
    assert_eq!(resolve(""), Err(UnsupportedCodec));
    assert_eq!(resolve("video/x-h264 "), Err(UnsupportedCodec));
    assert_eq!(resolve("VIDEO/X-H264"), Err(UnsupportedCodec));
    assert_eq!(resolve("video/x-vp"), Err(UnsupportedCodec));
    assert_eq!(resolve("vidéo/x-vp8"), Err(UnsupportedCodec));
}

#[test]
fn codec_names_and_kinds() {
    let codecs = [Codec::Av1, Codec::H264, Codec::Vp8, Codec::Vp9, Codec::Opus];
    for codec in codecs {
        assert_eq!(Codec::from_name(codec.name()), Some(codec));
        assert_eq!(resolve(codec.name()).unwrap(), codec.payload_type());
    }
    assert_eq!(Codec::H264.name(), "video/x-h264");
    assert_eq!(Codec::Opus.name(), "audio/x-opus");
    assert_eq!(Codec::Opus.kind(), StreamKind::Audio);
    assert_eq!(Codec::Av1.kind(), StreamKind::Video);
    assert_eq!(Codec::H264.kind(), StreamKind::Video);
    assert_eq!(Codec::Vp8.kind(), StreamKind::Video);
    assert_eq!(Codec::Vp9.kind(), StreamKind::Video);
    assert_eq!(Codec::from_name("audio/opus"), None);
}

#[test]
fn same_text_compares_whole_strings() {
    assert!(same_text("abc", "abc"));
    assert!(same_text("", ""));
    assert!(!same_text("abc", "abd"));
    assert!(!same_text("abc", "ab"));
    assert!(!same_text("ab", "abc"));
}

#[test]
fn constants_of_the_wire_format() {
    assert_eq!(RTP_VERSION, 2);
    assert_eq!(RTP_PACKET_MAX_SIZE, 1460);
    assert_eq!(RTP_OPUS_PROFILE_TYPE, 120);
    assert_eq!(RTP_AV1_PROFILE_TYPE, 101);
    assert_eq!(RTP_AV1_RTX_PROFILE_TYPE, 102);
    assert_eq!(RTP_H264_PROFILE_TYPE, 103);
    assert_eq!(RTP_H264_RTX_PROFILE_TYPE, 104);
    assert_eq!(RTP_VP8_PROFILE_TYPE, 105);
    assert_eq!(RTP_VP8_RTX_PROFILE_TYPE, 106);
    assert_eq!(RTP_VP9_PROFILE_TYPE, 107);
    assert_eq!(RTP_VP9_RTX_PROFILE_TYPE, 108);
}
