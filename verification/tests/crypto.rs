use discordstreamer::codec::Codec;
use discordstreamer::crypto::{
    CryptoMode, CryptoSession, CryptoState, DecryptionFailure, EncryptionFailure,
    InvalidKeyLength, KEY_SIZE, NONCE_SIZE, TAG_SIZE,
};
use discordstreamer::rtp::RtpPacket;
use xsalsa20poly1305::{AeadInPlace, Key, KeyInit, Nonce, XSalsa20Poly1305};

fn reference_seal(key: &[u8; 32], nonce: &[u8; 24], plaintext: &[u8]) -> (Vec<u8>, Vec<u8>) {
    let cipher = XSalsa20Poly1305::new(Key::from_slice(key));
    let mut buffer = plaintext.to_vec();
    let tag = cipher
        .encrypt_in_place_detached(Nonce::from_slice(nonce), b"", &mut buffer)
        .unwrap();
    (buffer, tag.to_vec())
}

fn packet_with_room(frame: &[u8], room: u16) -> RtpPacket {
    RtpPacket::build(frame, Codec::H264.payload_type(), 0x0102, 0x0A0B_0C0D, 42, room).unwrap()
}

#[test]
fn sizes_of_the_cipher() {
    assert_eq!(KEY_SIZE, 32);
    assert_eq!(NONCE_SIZE, 24);
    assert_eq!(TAG_SIZE, 16);
    assert_eq!(KEY_SIZE, xsalsa20poly1305::KEY_SIZE);
    assert_eq!(NONCE_SIZE, xsalsa20poly1305::NONCE_SIZE);
    assert_eq!(TAG_SIZE, xsalsa20poly1305::TAG_SIZE);
}

#[test]
fn suffix_lengths_and_overheads() {
    assert_eq!(CryptoMode::Normal.payload_suffix_len(), 0);
    assert_eq!(CryptoMode::Suffix.payload_suffix_len(), 24);
    assert_eq!(CryptoMode::Lite.payload_suffix_len(), 4);
    assert_eq!(CryptoMode::Normal.payload_overhead(), 16);
    assert_eq!(CryptoMode::Suffix.payload_overhead(), 40);
    assert_eq!(CryptoMode::Lite.payload_overhead(), 20);
}

#[test]
fn state_starts_in_its_mode() {
    assert_eq!(CryptoState::new(CryptoMode::Normal), CryptoState::Normal);
    assert_eq!(CryptoState::new(CryptoMode::Suffix), CryptoState::Suffix);
    assert_eq!(CryptoState::new(CryptoMode::Lite), CryptoState::Lite(0));
    assert_eq!(CryptoState::Normal.kind(), CryptoMode::Normal);
    assert_eq!(CryptoState::Suffix.kind(), CryptoMode::Suffix);
    assert_eq!(CryptoState::Lite(77).kind(), CryptoMode::Lite);
}

#[test]
fn normal_nonce_is_the_padded_header() {
    let packet = packet_with_room(&[1, 2, 3], 16);
    let mut state = CryptoState::Normal;
    let (nonce, suffix) = state.derive(&packet);
    let mut expected = [0u8; 24];
    expected[..12].copy_from_slice(&packet.header);
    assert_eq!(nonce, expected);
    assert_eq!(&nonce[..12], &[0x80, 103, 1, 2, 0x0A, 0x0B, 0x0C, 0x0D, 0, 0, 0, 42]);
    assert!(suffix.is_empty());
    assert_eq!(state, CryptoState::Normal);
    assert_eq!(state.derive(&packet).0, expected);
}

#[test]
fn lite_nonce_is_the_padded_counter() {
    let packet = packet_with_room(&[1, 2, 3], 20);
    let mut state = CryptoState::Lite(0x0102_0304);
    let (nonce, suffix) = state.derive(&packet);
    let mut expected = [0u8; 24];
    expected[..4].copy_from_slice(&[1, 2, 3, 4]);
    assert_eq!(nonce, expected);
    assert_eq!(suffix, vec![1, 2, 3, 4]);
    assert_eq!(state, CryptoState::Lite(0x0102_0305));
}

#[test]
fn lite_counter_wraps_to_zero() {
    let packet = packet_with_room(&[], 20);
    let mut state = CryptoState::Lite(u32::MAX);
    let (nonce, suffix) = state.derive(&packet);
    assert_eq!(suffix, vec![255, 255, 255, 255]);
    assert_eq!(&nonce[..4], &[255, 255, 255, 255]);
    assert_eq!(&nonce[4..], &[0u8; 20]);
    assert_eq!(state, CryptoState::Lite(0));
    let (_, suffix) = state.derive(&packet);
    assert_eq!(suffix, vec![0, 0, 0, 0]);
    assert_eq!(state, CryptoState::Lite(1));
}

#[test]
fn suffix_nonce_is_the_given_entropy() {
    let packet = packet_with_room(&[1], 40);
    let mut state = CryptoState::Suffix;
    let entropy: [u8; 24] = core::array::from_fn(|i| i as u8 + 1);
    let (nonce, suffix) = state.derive_with(&packet, entropy);
    assert_eq!(nonce, entropy);
    assert_eq!(suffix, entropy.to_vec());
    assert_eq!(state, CryptoState::Suffix);
}

#[test]
fn suffix_nonce_is_fresh_each_time() {
    let packet = packet_with_room(&[1], 40);
    let mut state = CryptoState::Suffix;
    let (first, first_suffix) = state.derive(&packet);
    let (second, second_suffix) = state.derive(&packet);
    assert_eq!(first_suffix, first.to_vec());
    assert_eq!(second_suffix, second.to_vec());
    assert_ne!(first, second);
}

#[test]
fn derive_with_ignores_entropy_outside_suffix_mode() {
    let packet = packet_with_room(&[1], 40);
    let mut normal = CryptoState::Normal;
    assert_eq!(normal.derive_with(&packet, [9; 24]), normal.derive_with(&packet, [0; 24]));
    let mut first = CryptoState::Lite(5);
    let mut second = CryptoState::Lite(5);
    assert_eq!(first.derive_with(&packet, [9; 24]), second.derive_with(&packet, [0; 24]));
}

#[test]
fn encrypt_matches_the_cipher_and_lays_out_the_packet() {
    let key: [u8; 32] = core::array::from_fn(|i| i as u8);
    let nonce: [u8; 24] = core::array::from_fn(|i| 100 + i as u8);
    let frame = [10u8, 20, 30, 40, 50];
    for (mode, suffix_len) in
        [(CryptoMode::Normal, 0usize), (CryptoMode::Suffix, 24), (CryptoMode::Lite, 4)]
    {
        let mut packet = packet_with_room(&frame, 60);
        let header = packet.header;
        let total = mode.encrypt_in_place(&mut packet, &key, &nonce, frame.len()).unwrap();
        assert_eq!(total, 12 + 5 + 16 + suffix_len);
        let (ciphertext, tag) = reference_seal(&key, &nonce, &frame);
        assert_ne!(ciphertext, frame.to_vec());
        assert_eq!(packet.header, header);
        assert_eq!(&packet.body[..5], &ciphertext[..]);
        assert_eq!(&packet.body[5..21], &tag[..]);
        assert_eq!(&packet.body[21..21 + suffix_len], &nonce[..suffix_len]);
        assert_eq!(&packet.body[21 + suffix_len..], &vec![0u8; 65 - 21 - suffix_len][..]);
        assert_eq!(packet.body.len(), 65);
    }
}

#[test]
fn encrypt_needs_room_for_tag_and_suffix() {
    let key = [0u8; 32];
    let nonce = [0u8; 24];
    let frame = [1u8, 2, 3, 4];
    for mode in [CryptoMode::Normal, CryptoMode::Suffix, CryptoMode::Lite] {
        let overhead = mode.payload_overhead() as u16;
        let mut exact = packet_with_room(&frame, overhead);
        assert_eq!(
            mode.encrypt_in_place(&mut exact, &key, &nonce, 4),
            Ok(12 + 4 + usize::from(overhead))
        );

        let mut short = packet_with_room(&frame, overhead - 1);
        let before = short.clone();
        assert_eq!(mode.encrypt_in_place(&mut short, &key, &nonce, 4), Err(EncryptionFailure));
        assert_eq!(short, before);

        let mut packet = packet_with_room(&frame, overhead);
        let before = packet.clone();
        assert_eq!(mode.encrypt_in_place(&mut packet, &key, &nonce, 5), Err(EncryptionFailure));
        assert_eq!(
            mode.encrypt_in_place(&mut packet, &key, &nonce, usize::MAX),
            Err(EncryptionFailure)
        );
        assert_eq!(packet, before);
    }
}

#[test]
fn encrypt_an_empty_payload() {
    let key = [3u8; 32];
    let nonce = [4u8; 24];
    let mut packet = packet_with_room(&[], 16);
    assert_eq!(CryptoMode::Normal.encrypt_in_place(&mut packet, &key, &nonce, 0), Ok(28));
    let (ciphertext, tag) = reference_seal(&key, &nonce, &[]);
    assert!(ciphertext.is_empty());
    assert_eq!(packet.body, tag);
}

#[test]
fn round_trip_in_every_mode() {
    let key: [u8; 32] = core::array::from_fn(|i| 7 * i as u8 + 1);
    let frame: Vec<u8> = (0u8..200).collect();
    for mode in [CryptoMode::Normal, CryptoMode::Suffix, CryptoMode::Lite] {
        let mut sender = CryptoSession::new(&key, mode).unwrap();
        let receiver = CryptoSession::new(&key, mode).unwrap();
        assert_eq!(sender.kind(), mode);
        for _ in 0..3 {
            let mut packet = packet_with_room(&frame, mode.payload_overhead() as u16);
            let total = sender.seal(&mut packet, frame.len()).unwrap();
            assert_eq!(total, 12 + 200 + mode.payload_overhead());
            let wire = packet.to_bytes(total);
            assert_ne!(&wire[12..212], &frame[..]);

            let mut received = RtpPacket::from_bytes(&wire).unwrap();
            assert_eq!(receiver.open(&mut received), Ok(200));
            assert_eq!(&received.body[..200], &frame[..]);
            assert_eq!(received.header, packet.header);
            assert_eq!(&received.body[200..], &wire[212..]);
        }
    }
}

#[test]
fn round_trip_with_a_given_nonce() {
    let key = [0x42u8; 32];
    let frame = [5u8, 4, 3, 2, 1];
    let nonce: [u8; 24] = core::array::from_fn(|i| 3 * i as u8);
    let mut packet = packet_with_room(&frame, 40);
    let total = CryptoMode::Suffix.encrypt_in_place(&mut packet, &key, &nonce, 5).unwrap();
    let mut received = RtpPacket::from_bytes(&packet.to_bytes(total)).unwrap();
    assert_eq!(CryptoMode::Suffix.decrypt_in_place(&mut received, &key), Ok(5));
    assert_eq!(&received.body[..5], &frame[..]);

    let mut lite_nonce = [0u8; 24];
    lite_nonce[..4].copy_from_slice(&[0, 0, 1, 0]);
    let mut packet = packet_with_room(&frame, 20);
    let total = CryptoMode::Lite.encrypt_in_place(&mut packet, &key, &lite_nonce, 5).unwrap();
    let mut received = RtpPacket::from_bytes(&packet.to_bytes(total)).unwrap();
    assert_eq!(CryptoMode::Lite.decrypt_in_place(&mut received, &key), Ok(5));
    assert_eq!(&received.body[..5], &frame[..]);
}

#[test]
fn decrypt_refuses_what_was_tampered_with() {
    let key = [1u8; 32];
    let frame = [1u8, 2, 3, 4, 5, 6];
    for mode in [CryptoMode::Normal, CryptoMode::Suffix, CryptoMode::Lite] {
        let mut sender = CryptoSession::new(&key, mode).unwrap();
        let mut packet = packet_with_room(&frame, mode.payload_overhead() as u16);
        let total = sender.seal(&mut packet, frame.len()).unwrap();
        let wire = packet.to_bytes(total);
        // Only the Normal mode takes its nonce from the header.
        let first = if mode == CryptoMode::Normal { 0 } else { 12 };
        for position in first..wire.len() {
            let mut changed = wire.clone();
            changed[position] ^= 0x01;
            let mut received = RtpPacket::from_bytes(&changed).unwrap();
            let before = received.clone();
            assert_eq!(mode.decrypt_in_place(&mut received, &key), Err(DecryptionFailure));
            assert_eq!(received, before);
        }
        let mut received = RtpPacket::from_bytes(&wire).unwrap();
        assert_eq!(mode.decrypt_in_place(&mut received, &[2u8; 32]), Err(DecryptionFailure));
    }
}

#[test]
fn decrypt_refuses_what_is_too_short() {
    let key = [1u8; 32];
    for mode in [CryptoMode::Normal, CryptoMode::Suffix, CryptoMode::Lite] {
        let short = vec![0u8; 12 + mode.payload_overhead() - 1];
        let mut received = RtpPacket::from_bytes(&short).unwrap();
        assert_eq!(mode.decrypt_in_place(&mut received, &key), Err(DecryptionFailure));
        assert_eq!(received.to_bytes(usize::MAX), short);
    }
}

#[test]
fn decrypt_with_another_mode_fails() {
    let key = [9u8; 32];
    let frame = [1u8; 50];
    let mut sender = CryptoSession::new(&key, CryptoMode::Lite).unwrap();
    let mut packet = packet_with_room(&frame, 20);
    let total = sender.seal(&mut packet, 50).unwrap();
    let wire = packet.to_bytes(total);
    let mut received = RtpPacket::from_bytes(&wire).unwrap();
    assert_eq!(CryptoMode::Normal.decrypt_in_place(&mut received, &key), Err(DecryptionFailure));
    assert_eq!(CryptoMode::Suffix.decrypt_in_place(&mut received, &key), Err(DecryptionFailure));
    assert_eq!(CryptoMode::Lite.decrypt_in_place(&mut received, &key), Ok(50));
}

#[test]
fn session_needs_a_key_of_32_bytes() {
    assert!(CryptoSession::new(&[0u8; 32], CryptoMode::Normal).is_ok());
    assert_eq!(CryptoSession::new(&[0u8; 31], CryptoMode::Normal).err(), Some(InvalidKeyLength));
    assert_eq!(CryptoSession::new(&[0u8; 33], CryptoMode::Lite).err(), Some(InvalidKeyLength));
    assert_eq!(CryptoSession::new(&[], CryptoMode::Suffix).err(), Some(InvalidKeyLength));
}

#[test]
fn session_lite_counts_across_packets() {
    let key = [0u8; 32];
    let mut session = CryptoSession::new(&key, CryptoMode::Lite).unwrap();
    for expected in 0u32..5 {
        let mut packet = packet_with_room(&[1, 2, 3], 20);
        let total = session.seal(&mut packet, 3).unwrap();
        assert_eq!(total, 12 + 3 + 16 + 4);
        let wire = packet.to_bytes(total);
        assert_eq!(&wire[total - 4..], &expected.to_be_bytes());
    }
}

#[test]
fn session_failure_consumes_no_nonce() {
    let key = [0u8; 32];
    let mut session = CryptoSession::new(&key, CryptoMode::Lite).unwrap();
    let mut short = packet_with_room(&[1, 2, 3], 19);
    let before = short.clone();
    assert_eq!(session.seal(&mut short, 3), Err(EncryptionFailure));
    assert_eq!(short, before);
    let mut packet = packet_with_room(&[1, 2, 3], 20);
    let total = session.seal(&mut packet, 3).unwrap();
    assert_eq!(&packet.to_bytes(total)[total - 4..], &[0, 0, 0, 0]);
}

#[test]
fn session_normal_seals_under_the_header() {
    let key: [u8; 32] = core::array::from_fn(|i| 255 - i as u8);
    let frame = [11u8, 22, 33];
    let mut session = CryptoSession::new(&key, CryptoMode::Normal).unwrap();
    let mut packet = packet_with_room(&frame, 16);
    let mut nonce = [0u8; 24];
    nonce[..12].copy_from_slice(&packet.header);
    let total = session.seal(&mut packet, 3).unwrap();
    assert_eq!(total, 31);
    let (ciphertext, tag) = reference_seal(&key, &nonce, &frame);
    let wire = packet.to_bytes(total);
    assert_eq!(&wire[12..15], &ciphertext[..]);
    assert_eq!(&wire[15..31], &tag[..]);
}

#[test]
fn wiped_session_seals_under_the_zero_key() {
    let key = [0xA5u8; 32];
    let frame = [1u8, 2, 3];
    let mut session = CryptoSession::new(&key, CryptoMode::Lite).unwrap();
    let mut packet = packet_with_room(&frame, 20);
    session.seal(&mut packet, 3).unwrap();
    session.wipe();
    assert_eq!(session.state(), CryptoState::Lite(1));

    let mut packet = packet_with_room(&frame, 20);
    let total = session.seal(&mut packet, 3).unwrap();
    let wire = packet.to_bytes(total);
    let mut received = RtpPacket::from_bytes(&wire).unwrap();
    assert_eq!(CryptoMode::Lite.decrypt_in_place(&mut received, &key), Err(DecryptionFailure));
    assert_eq!(CryptoMode::Lite.decrypt_in_place(&mut received, &[0u8; 32]), Ok(3));
    assert_eq!(&received.body[..3], &frame[..]);
}
