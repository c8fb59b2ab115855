//! Nonce strategies and the XSalsa20-Poly1305 layer.
//!
//! A sealed packet is the RTP header in the clear, the ciphertext of the
//! payload, the 16-byte tag, and the bytes from which the receiver rebuilds
//! the nonce: none, the random nonce itself, or a 4-byte counter.

use crate::bytes::{be32, be32_bytes, copy_into, lemma_be32_injective, overwritten, zeros};
use crate::constants::RTP_HEADER_LEN;
use crate::rtp::RtpPacket;
use vstd::prelude::*;
use vstd::slice::{slice_subrange, slice_to_vec};
use xsalsa20poly1305::aead::OsRng;
use xsalsa20poly1305::{AeadInPlace, Key, KeyInit, Nonce, Tag, XSalsa20Poly1305};

verus! {

/// Length of the symmetric key in bytes.
pub const KEY_SIZE: usize = 32;

/// Length of the cipher's nonce in bytes.
pub const NONCE_SIZE: usize = 24;

/// Length of the authentication tag in bytes.
pub const TAG_SIZE: usize = 16;

/// The error of the cipher, `xsalsa20poly1305::Error`. It carries no
/// detail, and nothing is read from it.
#[verifier::external_type_specification]
#[verifier::external_body]
pub struct ExCipherError(xsalsa20poly1305::Error);

/// What `XSalsa20Poly1305::encrypt_in_place_detached` makes of a plaintext
/// under a key and a nonce, without associated data: the ciphertext and the
/// tag.
pub uninterp spec fn sealed(key: Seq<u8>, nonce: Seq<u8>, plaintext: Seq<u8>) -> (Seq<u8>, Seq<u8>);

/// What `XSalsa20Poly1305::decrypt_in_place_detached` makes of a ciphertext
/// and a tag under a key and a nonce, without associated data: the plaintext,
/// or nothing where the tag does not authenticate the ciphertext.
pub uninterp spec fn opened(key: Seq<u8>, nonce: Seq<u8>, ciphertext: Seq<u8>, tag: Seq<u8>) -> Option<Seq<u8>>;

/// Trusted: calls `XSalsa20Poly1305::encrypt_in_place_detached` with a
/// cipher made from `key` and with no associated data. The call applies the
/// key stream to the buffer, which keeps its length, and returns the
/// Poly1305 tag of the ciphertext; it fails only where associated data is
/// given. Opening that ciphertext with that tag under the same key and
/// nonce finds the tag in order, applies the same key stream once more, and
/// so gives the plaintext back.
#[verifier::external_body]
fn seal_detached(key: &[u8; KEY_SIZE], nonce: &[u8; NONCE_SIZE], buffer: &mut [u8]) -> (tag: Result<
    [u8; TAG_SIZE],
    xsalsa20poly1305::Error,
>)
    ensures
        tag is Ok,
        final(buffer)@.len() == old(buffer)@.len(),
        tag matches Ok(t) ==> {
            &&& final(buffer)@ == sealed(key@, nonce@, old(buffer)@).0
            &&& t@ == sealed(key@, nonce@, old(buffer)@).1
            &&& opened(key@, nonce@, final(buffer)@, t@) == Some(old(buffer)@)
        },
{
    let cipher = XSalsa20Poly1305::new(Key::from_slice(key));
    match cipher.encrypt_in_place_detached(Nonce::from_slice(nonce), b"", buffer) {
        Ok(tag) => Ok(tag.into()),
        Err(error) => Err(error),
    }
}

/// Trusted: calls `XSalsa20Poly1305::decrypt_in_place_detached` with a
/// cipher made from `key` and with no associated data. The call computes
/// the tag of the ciphertext and compares it with `tag`: where they agree
/// it applies the key stream to the buffer, which then holds the
/// plaintext; where they differ it fails and leaves the buffer as it was.
#[verifier::external_body]
fn open_detached(
    key: &[u8; KEY_SIZE],
    nonce: &[u8; NONCE_SIZE],
    buffer: &mut [u8],
    tag: &[u8; TAG_SIZE],
) -> (outcome: Result<(), xsalsa20poly1305::Error>)
    ensures
        final(buffer)@.len() == old(buffer)@.len(),
        match opened(key@, nonce@, old(buffer)@, tag@) {
            Some(plaintext) => outcome is Ok && final(buffer)@ == plaintext,
            None => outcome is Err && final(buffer)@ == old(buffer)@,
        },
{
    let cipher = XSalsa20Poly1305::new(Key::from_slice(key));
    cipher.decrypt_in_place_detached(Nonce::from_slice(nonce), b"", buffer, Tag::from_slice(tag))
}

/// Trusted: calls `XSalsa20Poly1305::generate_nonce` with the operating
/// system's random generator, which fills 24 bytes. Nothing is claimed of
/// the bytes. The call does not return where the operating system has no
/// random bytes to give.
#[verifier::external_body]
fn fresh_nonce() -> (nonce: [u8; NONCE_SIZE]) {
    XSalsa20Poly1305::generate_nonce(&mut OsRng).into()
}

/// The packet could not be sealed: it has no room for the declared payload,
/// the tag and the nonce suffix.
#[derive(Clone, Copy, Debug, PartialEq, Eq)]
pub struct EncryptionFailure;

/// The packet could not be opened: it is too short, or its tag does not
/// authenticate it.
#[derive(Clone, Copy, Debug, PartialEq, Eq)]
pub struct DecryptionFailure;

/// The key does not have `KEY_SIZE` bytes.
#[derive(Clone, Copy, Debug, PartialEq, Eq)]
pub struct InvalidKeyLength;

/// `prefix` followed by as many zero bytes as fill a nonce.
pub open spec fn padded(prefix: Seq<u8>) -> Seq<u8>
    recommends
        prefix.len() <= NONCE_SIZE,
{
    prefix + zeros((NONCE_SIZE - prefix.len()) as nat)
}

/// How the nonce of a packet is chosen and carried to the receiver.
#[derive(Clone, Copy, Debug, PartialEq, Eq, Structural)]
pub enum CryptoMode {
    /// The nonce is the RTP header, padded. Nothing is appended.
    ///
    /// Known limit: the nonce is only as unique as the header. Under one
    /// key a nonce repeats as soon as a packet of the same source and
    /// payload type carries a sequence number and a timestamp that were
    /// used together before, which a wrapped sequence counter makes
    /// possible. A session in this mode has to end before that.
    Normal,
    /// The nonce is 24 fresh random bytes, appended to the packet.
    Suffix,
    /// The nonce is a 32-bit counter, padded. The counter's 4 bytes are
    /// appended to the packet. The counter belongs to the session, not to
    /// a stream, and repeats after 2^32 packets: a session in this mode has
    /// to end before that.
    Lite,
}

/// The nonce strategy together with what it remembers between packets.
#[derive(Clone, Copy, Debug, PartialEq, Eq, Structural)]
pub enum CryptoState {
    /// See `CryptoMode::Normal`.
    Normal,
    /// See `CryptoMode::Suffix`.
    Suffix,
    /// See `CryptoMode::Lite`. Holds the counter of the next packet.
    Lite(u32),
}

/// The bytes that a sealed packet carries behind the tag: the first
/// `payload_suffix_len` bytes of the nonce.
pub open spec fn suffix_of(mode: CryptoMode, nonce: Seq<u8>) -> Seq<u8> {
    nonce.subrange(0, mode.spec_payload_suffix_len() as int)
}

/// The nonce that a receiver rebuilds from a packet's header and suffix.
pub open spec fn nonce_of(mode: CryptoMode, header: Seq<u8>, suffix: Seq<u8>) -> Seq<u8> {
    match mode {
        CryptoMode::Normal => padded(header),
        CryptoMode::Suffix => padded(suffix),
        CryptoMode::Lite => padded(suffix),
    }
}

/// Whether a receiver that knows the mode rebuilds `nonce` from the header
/// and from the suffix that `nonce` leaves in the packet.
pub open spec fn recoverable(mode: CryptoMode, header: Seq<u8>, nonce: Seq<u8>) -> bool {
    nonce_of(mode, header, suffix_of(mode, nonce)) == nonce
}

/// The nonce of the next packet: the padded header, the random bytes
/// `entropy`, or the padded counter.
pub open spec fn nonce_for(state: CryptoState, header: Seq<u8>, entropy: Seq<u8>) -> Seq<u8> {
    match state {
        CryptoState::Normal => padded(header),
        CryptoState::Suffix => entropy,
        CryptoState::Lite(counter) => padded(be32(counter)),
    }
}

/// The sealed packet: header, ciphertext, tag, and nonce suffix.
pub open spec fn sealed_packet(
    mode: CryptoMode,
    key: Seq<u8>,
    nonce: Seq<u8>,
    header: Seq<u8>,
    plaintext: Seq<u8>,
) -> Seq<u8> {
    header + sealed(key, nonce, plaintext).0 + sealed(key, nonce, plaintext).1 + suffix_of(
        mode,
        nonce,
    )
}

/// The nonce that a receiver rebuilds from the bytes of a sealed packet.
pub open spec fn recovered_nonce(mode: CryptoMode, wire: Seq<u8>) -> Seq<u8> {
    nonce_of(
        mode,
        wire.subrange(0, RTP_HEADER_LEN as int),
        wire.subrange(wire.len() - mode.spec_payload_suffix_len(), wire.len() as int),
    )
}

/// The plaintext of a sealed packet: what the cipher opens between header
/// and tag under the rebuilt nonce, or nothing where the packet is too short
/// or the tag does not authenticate it.
pub open spec fn opened_packet(mode: CryptoMode, key: Seq<u8>, wire: Seq<u8>) -> Option<Seq<u8>> {
    if wire.len() < RTP_HEADER_LEN + mode.spec_payload_overhead() {
        None
    } else {
        let end = wire.len() - mode.spec_payload_suffix_len();
        opened(
            key,
            recovered_nonce(mode, wire),
            wire.subrange(RTP_HEADER_LEN as int, end - TAG_SIZE),
            wire.subrange(end - TAG_SIZE, end),
        )
    }
}

/// The nonce that starts with the bytes of `prefix`.
fn pad_nonce(prefix: &[u8]) -> (nonce: [u8; NONCE_SIZE])
    requires
        prefix@.len() <= NONCE_SIZE,
    ensures
        nonce@ == padded(prefix@),
{
    let mut nonce: [u8; NONCE_SIZE] = [0u8; NONCE_SIZE];
    let mut i: usize = 0;
    while i < prefix.len()
        invariant
            i <= prefix@.len() <= NONCE_SIZE,
            nonce@ =~= prefix@.subrange(0, i as int) + zeros((NONCE_SIZE - i) as nat),
        decreases prefix@.len() - i,
    {
        nonce[i] = prefix[i];
        i = i + 1;
    }
    nonce
}

/// The tag that is held in 16 bytes of a buffer.
fn tag_at(buffer: &[u8], at: usize) -> (tag: [u8; TAG_SIZE])
    requires
        at + TAG_SIZE <= buffer@.len(),
    ensures
        tag@ == buffer@.subrange(at as int, at + TAG_SIZE),
{
    let mut tag: [u8; TAG_SIZE] = [0u8; TAG_SIZE];
    let len: usize = buffer.len();
    let mut i: usize = 0;
    while i < TAG_SIZE
        invariant
            i <= TAG_SIZE,
            at + TAG_SIZE <= len == buffer@.len(),
            tag@.subrange(0, i as int) =~= buffer@.subrange(at as int, at + i),
        decreases TAG_SIZE - i,
    {
        tag[i] = buffer[at + i];
        i = i + 1;
    }
    tag
}

impl CryptoMode {
    /// Number of bytes that a sealed packet carries behind the tag.
    pub open spec fn spec_payload_suffix_len(self) -> usize {
        match self {
            CryptoMode::Normal => 0,
            CryptoMode::Suffix => NONCE_SIZE,
            CryptoMode::Lite => 4,
        }
    }

    /// Number of bytes that sealing adds to the payload: tag and suffix.
    pub open spec fn spec_payload_overhead(self) -> usize {
        (TAG_SIZE + self.spec_payload_suffix_len()) as usize
    }

    /// Number of bytes that a sealed packet carries behind the tag: 0, 24
    /// or 4.
    #[verifier::when_used_as_spec(spec_payload_suffix_len)]
    pub fn payload_suffix_len(self) -> (len: usize)
        ensures
            len == self.spec_payload_suffix_len(),
    {
        match self {
            CryptoMode::Normal => 0,
            CryptoMode::Suffix => NONCE_SIZE,
            CryptoMode::Lite => 4,
        }
    }

    /// Number of bytes that sealing adds to the payload: 16, 40 or 20.
    #[verifier::when_used_as_spec(spec_payload_overhead)]
    pub fn payload_overhead(self) -> (len: usize)
        ensures
            len == self.spec_payload_overhead(),
            len == TAG_SIZE + self.spec_payload_suffix_len(),
    {
        TAG_SIZE + self.payload_suffix_len()
    }

    /// Seals the first `plaintext_len` bytes of the body in place and
    /// writes the tag and the nonce suffix behind them. Returns the length
    /// of the sealed packet, header included. Fails, and changes nothing,
    /// where the body is too short for payload, tag and suffix.
    pub fn encrypt_in_place(
        self,
        packet: &mut RtpPacket,
        key: &[u8; KEY_SIZE],
        nonce: &[u8; NONCE_SIZE],
        plaintext_len: usize,
    ) -> (total: Result<usize, EncryptionFailure>)
        requires
            old(packet)@.len() <= usize::MAX,
        ensures
            total is Ok <==> plaintext_len + self.spec_payload_overhead() <= old(packet).body@.len(),
            total is Err ==> final(packet).header == old(packet).header && final(packet).body@
                == old(packet).body@,
            total matches Ok(n) ==> {
                let plaintext = old(packet).body@.subrange(0, plaintext_len as int);
                &&& n == RTP_HEADER_LEN + plaintext_len + self.spec_payload_overhead()
                &&& final(packet).header == old(packet).header
                &&& final(packet).body@.len() == old(packet).body@.len()
                &&& final(packet)@.subrange(0, n as int) == sealed_packet(
                    self,
                    key@,
                    nonce@,
                    old(packet).header@,
                    plaintext,
                )
                &&& final(packet)@.subrange(n as int, final(packet)@.len() as int) == old(
                    packet,
                )@.subrange(n as int, old(packet)@.len() as int)
                &&& recoverable(self, old(packet).header@, nonce@) ==> opened_packet(
                    self,
                    key@,
                    final(packet)@.subrange(0, n as int),
                ) == Some(plaintext)
            },
    {
        let overhead: usize = self.payload_overhead();
        let len: usize = packet.body.len();
        if len < overhead || plaintext_len > len - overhead {
            return Err(EncryptionFailure);
        }
        let suffix_start: usize = plaintext_len + TAG_SIZE;
        let n: usize = RTP_HEADER_LEN + plaintext_len + overhead;
        let ghost before = packet.body@;
        let ghost header = packet.header@;
        let ghost plaintext = before.subrange(0, plaintext_len as int);
        let (body, _tail) = packet.body.as_mut_slice().split_at_mut(plaintext_len);
        let outcome = seal_detached(key, nonce, body);
        match outcome {
            Err(_) => Err(EncryptionFailure),
            Ok(tag) => {
                copy_into(&mut packet.body, plaintext_len, tag.as_slice());
                let suffix = slice_subrange(nonce.as_slice(), 0, self.payload_suffix_len());
                copy_into(&mut packet.body, suffix_start, suffix);
                proof {
                    let wire = packet@.subrange(0, n as int);
                    assert(wire =~= sealed_packet(self, key@, nonce@, header, plaintext));
                    if recoverable(self, header, nonce@) {
                        lemma_sealed_packet_opens(self, key@, nonce@, header, plaintext);
                    }
                }
                Ok(n)
            },
        }
    }

    /// Opens a sealed packet in place: rebuilds the nonce from the packet,
    /// checks the tag, and replaces the ciphertext at the start of the body
    /// by the plaintext. Returns the plaintext's length. Fails, and changes
    /// nothing, where the packet is too short or the tag does not
    /// authenticate it.
    pub fn decrypt_in_place(self, packet: &mut RtpPacket, key: &[u8; KEY_SIZE]) -> (len: Result<
        usize,
        DecryptionFailure,
    >)
        ensures
            final(packet).header == old(packet).header,
            match opened_packet(self, key@, old(packet)@) {
                Some(plaintext) => {
                    &&& len == Ok::<usize, DecryptionFailure>(plaintext.len() as usize)
                    &&& plaintext.len() + self.spec_payload_overhead() == old(packet).body@.len()
                    &&& final(packet).body@ == overwritten(old(packet).body@, 0, plaintext)
                },
                None => len is Err && final(packet).body@ == old(packet).body@,
            },
    {
        let suffix_len: usize = self.payload_suffix_len();
        let len: usize = packet.body.len();
        if len < TAG_SIZE + suffix_len {
            return Err(DecryptionFailure);
        }
        let end: usize = len - suffix_len;
        let tag_start: usize = end - TAG_SIZE;
        let nonce: [u8; NONCE_SIZE] = match self {
            CryptoMode::Normal => pad_nonce(packet.header.as_slice()),
            _ => pad_nonce(slice_subrange(packet.body.as_slice(), end, len)),
        };
        let tag: [u8; TAG_SIZE] = tag_at(packet.body.as_slice(), tag_start);
        let ghost before = packet.body@;
        let ghost wire = packet@;
        let ghost ciphertext = before.subrange(0, tag_start as int);
        proof {
            assert(wire.subrange(0, RTP_HEADER_LEN as int) =~= packet.header@);
            assert(wire.subrange(wire.len() - suffix_len, wire.len() as int) =~= before.subrange(
                end as int,
                len as int,
            ));
            assert(wire.subrange(RTP_HEADER_LEN as int, wire.len() - suffix_len - TAG_SIZE)
                =~= ciphertext);
            assert(wire.subrange(wire.len() - suffix_len - TAG_SIZE, wire.len() - suffix_len)
                =~= tag@);
        }
        let (body, _tail) = packet.body.as_mut_slice().split_at_mut(tag_start);
        match open_detached(key, &nonce, body, &tag) {
            Ok(()) => Ok(tag_start),
            Err(_) => Err(DecryptionFailure),
        }
    }
}

impl CryptoState {
    /// The state in which a session of the given mode starts: a Lite
    /// session counts from 0.
    pub open spec fn spec_new(mode: CryptoMode) -> CryptoState {
        match mode {
            CryptoMode::Normal => CryptoState::Normal,
            CryptoMode::Suffix => CryptoState::Suffix,
            CryptoMode::Lite => CryptoState::Lite(0),
        }
    }

    /// The mode of this state.
    pub open spec fn spec_kind(self) -> CryptoMode {
        match self {
            CryptoState::Normal => CryptoMode::Normal,
            CryptoState::Suffix => CryptoMode::Suffix,
            CryptoState::Lite(_) => CryptoMode::Lite,
        }
    }

    /// The state after one nonce was derived: a Lite counter is one higher,
    /// and 0 after the largest 32-bit value.
    pub open spec fn stepped(self) -> CryptoState {
        match self {
            CryptoState::Normal => CryptoState::Normal,
            CryptoState::Suffix => CryptoState::Suffix,
            CryptoState::Lite(counter) => CryptoState::Lite(
                if counter == u32::MAX {
                    0
                } else {
                    (counter + 1) as u32
                },
            ),
        }
    }

    /// The state after `n` nonces were derived.
    pub open spec fn stepped_by(self, n: nat) -> CryptoState
        decreases n,
    {
        if n == 0 {
            self
        } else {
            self.stepped_by((n - 1) as nat).stepped()
        }
    }

    /// The state in which a session of the given mode starts.
    #[verifier::when_used_as_spec(spec_new)]
    pub fn new(mode: CryptoMode) -> (state: CryptoState)
        ensures
            state == CryptoState::spec_new(mode),
    {
        match mode {
            CryptoMode::Normal => CryptoState::Normal,
            CryptoMode::Suffix => CryptoState::Suffix,
            CryptoMode::Lite => CryptoState::Lite(0),
        }
    }

    /// The mode of this state.
    #[verifier::when_used_as_spec(spec_kind)]
    pub fn kind(self) -> (mode: CryptoMode)
        ensures
            mode == self.spec_kind(),
    {
        match self {
            CryptoState::Normal => CryptoMode::Normal,
            CryptoState::Suffix => CryptoMode::Suffix,
            CryptoState::Lite(_) => CryptoMode::Lite,
        }
    }

    /// Derives the nonce of the next packet and the suffix that carries it,
    /// with `entropy` as the random bytes of the Suffix mode, and steps the
    /// state.
    pub fn derive_with(&mut self, packet: &RtpPacket, entropy: [u8; NONCE_SIZE]) -> (derived: (
        [u8; NONCE_SIZE],
        Vec<u8>,
    ))
        ensures
            derived.0@ == nonce_for(*old(self), packet.header@, entropy@),
            derived.1@ == suffix_of(old(self).spec_kind(), derived.0@),
            recoverable(old(self).spec_kind(), packet.header@, derived.0@),
            *final(self) == old(self).stepped(),
    {
        let mode: CryptoMode = self.kind();
        let nonce: [u8; NONCE_SIZE] = match self {
            CryptoState::Normal => pad_nonce(packet.header.as_slice()),
            CryptoState::Suffix => entropy,
            CryptoState::Lite(counter) => {
                let current: u32 = *counter;
                *counter = if current == u32::MAX {
                    0
                } else {
                    current + 1
                };
                let bytes: [u8; 4] = be32_bytes(current);
                pad_nonce(bytes.as_slice())
            },
        };
        let suffix: Vec<u8> = slice_to_vec(
            slice_subrange(nonce.as_slice(), 0, mode.payload_suffix_len()),
        );
        proof {
            lemma_derived_nonce_recoverable(*old(self), packet.header@, entropy@);
        }
        (nonce, suffix)
    }

    /// Derives the nonce of the next packet and the suffix that carries it,
    /// and steps the state. The Suffix mode draws 24 fresh random bytes.
    pub fn derive(&mut self, packet: &RtpPacket) -> (derived: ([u8; NONCE_SIZE], Vec<u8>))
        ensures
            exists|entropy: Seq<u8>|
                entropy.len() == NONCE_SIZE && derived.0@ == #[trigger] nonce_for(
                    *old(self),
                    packet.header@,
                    entropy,
                ),
            derived.1@ == suffix_of(old(self).spec_kind(), derived.0@),
            recoverable(old(self).spec_kind(), packet.header@, derived.0@),
            *final(self) == old(self).stepped(),
    {
        let entropy: [u8; NONCE_SIZE] = match self {
            CryptoState::Suffix => fresh_nonce(),
            _ => [0u8; NONCE_SIZE],
        };
        self.derive_with(packet, entropy)
    }
}

/// The encryption context of one connected session: the key, the nonce
/// strategy, and what the strategy remembers between packets. Both streams
/// of a session seal their packets through the one context, so a Lite
/// counter is never used twice.
pub struct CryptoSession {
    key: [u8; KEY_SIZE],
    state: CryptoState,
}

impl CryptoSession {
    /// The key of the session.
    pub closed spec fn key(&self) -> Seq<u8> {
        self.key@
    }

    /// The nonce strategy and its memory.
    pub closed spec fn spec_state(&self) -> CryptoState {
        self.state
    }

    /// The nonce strategy.
    pub open spec fn spec_kind(&self) -> CryptoMode {
        self.spec_state().spec_kind()
    }

    /// A session under `key` that starts in the given mode. Fails where the
    /// key does not have `KEY_SIZE` bytes.
    pub fn new(key: &[u8], mode: CryptoMode) -> (session: Result<CryptoSession, InvalidKeyLength>)
        ensures
            session is Ok <==> key@.len() == KEY_SIZE,
            session matches Ok(s) ==> s.key() == key@ && s.spec_state() == CryptoState::spec_new(mode),
    {
        if key.len() != KEY_SIZE {
            return Err(InvalidKeyLength);
        }
        let mut bytes: [u8; KEY_SIZE] = [0u8; KEY_SIZE];
        let mut i: usize = 0;
        while i < KEY_SIZE
            invariant
                i <= KEY_SIZE == key@.len(),
                bytes@.subrange(0, i as int) =~= key@.subrange(0, i as int),
            decreases KEY_SIZE - i,
        {
            bytes[i] = key[i];
            i = i + 1;
        }
        assert(key@ =~= key@.subrange(0, KEY_SIZE as int));
        Ok(CryptoSession { key: bytes, state: CryptoState::new(mode) })
    }

    /// The nonce strategy.
    #[verifier::when_used_as_spec(spec_kind)]
    pub fn kind(&self) -> (mode: CryptoMode)
        ensures
            mode == self.spec_kind(),
    {
        self.state.kind()
    }

    /// The nonce strategy and its memory. A host reads the Lite counter
    /// here to see a wrap coming: past the wrap the counter repeats, and
    /// the session must end before it does.
    #[verifier::when_used_as_spec(spec_state)]
    pub fn state(&self) -> (state: CryptoState)
        ensures
            state == self.spec_state(),
    {
        self.state
    }

    /// Overwrites the key with zero bytes. A session is wiped when it ends,
    /// and seals nothing that its peer can open afterwards.
    pub fn wipe(&mut self)
        ensures
            final(self).key() == zeros(KEY_SIZE as nat),
            final(self).spec_state() == old(self).spec_state(),
    {
        self.key = [0u8; KEY_SIZE];
    }

    /// Seals the first `plaintext_len` bytes of the body under the nonce of
    /// the next packet: derives the nonce, steps the strategy, and encrypts
    /// in place. Returns the length of the sealed packet. Fails, and
    /// changes neither packet nor session, where the body is too short for
    /// payload, tag and suffix.
    pub fn seal(&mut self, packet: &mut RtpPacket, plaintext_len: usize) -> (total: Result<
        usize,
        EncryptionFailure,
    >)
        requires
            old(packet)@.len() <= usize::MAX,
        ensures
            final(self).key() == old(self).key(),
            final(packet).header == old(packet).header,
            final(packet).body@.len() == old(packet).body@.len(),
            total is Ok <==> plaintext_len + old(self).spec_kind().spec_payload_overhead() <= old(
                packet,
            ).body@.len(),
            total is Err ==> final(self).spec_state() == old(self).spec_state() && final(packet).body@
                == old(packet).body@,
            total matches Ok(n) ==> {
                let plaintext = old(packet).body@.subrange(0, plaintext_len as int);
                let mode = old(self).spec_kind();
                &&& n == RTP_HEADER_LEN + plaintext_len + mode.spec_payload_overhead()
                &&& final(self).spec_state() == old(self).spec_state().stepped()
                &&& exists|entropy: Seq<u8>|
                    entropy.len() == NONCE_SIZE && final(packet)@.subrange(0, n as int)
                        == sealed_packet(
                        mode,
                        old(self).key(),
                        #[trigger] nonce_for(old(self).spec_state(), old(packet).header@, entropy),
                        old(packet).header@,
                        plaintext,
                    )
                &&& final(packet)@.subrange(n as int, final(packet)@.len() as int) == old(
                    packet,
                )@.subrange(n as int, old(packet)@.len() as int)
                &&& opened_packet(mode, old(self).key(), final(packet)@.subrange(0, n as int))
                    == Some(plaintext)
            },
    {
        let mode: CryptoMode = self.state.kind();
        let overhead: usize = mode.payload_overhead();
        if packet.body.len() < overhead || plaintext_len > packet.body.len() - overhead {
            return Err(EncryptionFailure);
        }
        let (nonce, _suffix) = self.state.derive(packet);
        mode.encrypt_in_place(packet, &self.key, &nonce, plaintext_len)
    }

    /// Opens a packet that a session with the same key and mode sealed. See
    /// `CryptoMode::decrypt_in_place`.
    pub fn open(&self, packet: &mut RtpPacket) -> (len: Result<usize, DecryptionFailure>)
        ensures
            final(packet).header == old(packet).header,
            match opened_packet(self.spec_kind(), self.key(), old(packet)@) {
                Some(plaintext) => {
                    &&& len == Ok::<usize, DecryptionFailure>(plaintext.len() as usize)
                    &&& plaintext.len() + self.spec_kind().spec_payload_overhead() == old(
                        packet,
                    ).body@.len()
                    &&& final(packet).body@ == overwritten(old(packet).body@, 0, plaintext)
                },
                None => len is Err && final(packet).body@ == old(packet).body@,
            },
    {
        self.state.kind().decrypt_in_place(packet, &self.key)
    }
}

/// The receiver rebuilds from a sealed packet the nonce under which it was
/// sealed, whatever the cipher made of the payload: from the header in the
/// Normal mode, from the suffix in the other two.
pub proof fn lemma_nonce_recovered(
    mode: CryptoMode,
    key: Seq<u8>,
    nonce: Seq<u8>,
    header: Seq<u8>,
    plaintext: Seq<u8>,
)
    requires
        header.len() == RTP_HEADER_LEN,
        nonce.len() == NONCE_SIZE,
        recoverable(mode, header, nonce),
    ensures
        recovered_nonce(mode, sealed_packet(mode, key, nonce, header, plaintext)) == nonce,
{
    let wire = sealed_packet(mode, key, nonce, header, plaintext);
    let suffix_len = mode.spec_payload_suffix_len();
    assert(wire.subrange(0, RTP_HEADER_LEN as int) =~= header);
    assert(wire.subrange(wire.len() - suffix_len, wire.len() as int) =~= suffix_of(mode, nonce));
}

/// Whether the cipher seals `plaintext` faithfully under `key` and `nonce`:
/// the ciphertext is as long as the plaintext, the tag has `TAG_SIZE` bytes,
/// and the two open to the plaintext. Every call of the cipher establishes
/// this of what it sealed.
pub open spec fn seals_faithfully(key: Seq<u8>, nonce: Seq<u8>, plaintext: Seq<u8>) -> bool {
    let (ciphertext, tag) = sealed(key, nonce, plaintext);
    &&& ciphertext.len() == plaintext.len()
    &&& tag.len() == TAG_SIZE
    &&& opened(key, nonce, ciphertext, tag) == Some(plaintext)
}

/// Round trip: a packet sealed under a key, a mode and a nonce that the
/// mode lets the receiver rebuild opens, under the same key and mode, to the
/// payload that was sealed, byte for byte. Sealing adds the tag and the
/// suffix to the length and nothing else.
pub proof fn lemma_sealed_packet_opens(
    mode: CryptoMode,
    key: Seq<u8>,
    nonce: Seq<u8>,
    header: Seq<u8>,
    plaintext: Seq<u8>,
)
    requires
        header.len() == RTP_HEADER_LEN,
        nonce.len() == NONCE_SIZE,
        recoverable(mode, header, nonce),
        seals_faithfully(key, nonce, plaintext),
    ensures
        sealed_packet(mode, key, nonce, header, plaintext).len() == RTP_HEADER_LEN
            + plaintext.len() + mode.spec_payload_overhead(),
        opened_packet(mode, key, sealed_packet(mode, key, nonce, header, plaintext)) == Some(
            plaintext,
        ),
{
    let wire = sealed_packet(mode, key, nonce, header, plaintext);
    let (ciphertext, tag) = sealed(key, nonce, plaintext);
    lemma_nonce_recovered(mode, key, nonce, header, plaintext);
    let end = wire.len() - mode.spec_payload_suffix_len();
    assert(wire.subrange(RTP_HEADER_LEN as int, end - TAG_SIZE) =~= ciphertext);
    assert(wire.subrange(end - TAG_SIZE, end) =~= tag);
}

/// Every nonce that a state derives can be rebuilt by the receiver.
pub proof fn lemma_derived_nonce_recoverable(state: CryptoState, header: Seq<u8>, entropy: Seq<u8>)
    requires
        header.len() == RTP_HEADER_LEN,
        entropy.len() == NONCE_SIZE,
    ensures
        nonce_for(state, header, entropy).len() == NONCE_SIZE,
        recoverable(state.spec_kind(), header, nonce_for(state, header, entropy)),
{
    let nonce = nonce_for(state, header, entropy);
    let mode = state.spec_kind();
    match state {
        CryptoState::Normal => {},
        CryptoState::Suffix => {
            assert(padded(suffix_of(mode, nonce)) =~= nonce);
        },
        CryptoState::Lite(counter) => {
            assert(suffix_of(mode, nonce) =~= be32(counter));
        },
    }
}

/// A prefix can be read back from its padded form.
pub proof fn lemma_padded_injective(first: Seq<u8>, second: Seq<u8>)
    requires
        first.len() == second.len() <= NONCE_SIZE,
    ensures
        padded(first).len() == NONCE_SIZE,
        padded(first) == padded(second) ==> first == second,
{
    if padded(first) == padded(second) {
        assert(first =~= padded(first).subrange(0, first.len() as int));
        assert(second =~= padded(second).subrange(0, second.len() as int));
    }
}

/// A Lite session that started at `counter` holds, after `n` packets, the
/// counter plus `n`, reduced modulo 2^32.
pub proof fn lemma_lite_counter_after(counter: u32, n: nat)
    ensures
        CryptoState::Lite(counter).stepped_by(n) == CryptoState::Lite(
            ((counter + n) % 0x1_0000_0000) as u32,
        ),
    decreases n,
{
    if n > 0 {
        lemma_lite_counter_after(counter, (n - 1) as nat);
    }
}

/// A Lite session never uses a nonce twice within 2^32 packets, whatever
/// the packets hold.
pub proof fn lemma_lite_nonces_never_repeat(
    counter: u32,
    first: nat,
    second: nat,
    first_header: Seq<u8>,
    second_header: Seq<u8>,
    entropy: Seq<u8>,
)
    requires
        first < second < first + 0x1_0000_0000,
    ensures
        nonce_for(CryptoState::Lite(counter).stepped_by(first), first_header, entropy) != nonce_for(
            CryptoState::Lite(counter).stepped_by(second),
            second_header,
            entropy,
        ),
{
    lemma_lite_counter_after(counter, first);
    lemma_lite_counter_after(counter, second);
    let a = ((counter + first) % 0x1_0000_0000) as u32;
    let b = ((counter + second) % 0x1_0000_0000) as u32;
    lemma_be32_injective(a, b);
    lemma_padded_injective(be32(a), be32(b));
}

/// In the Normal mode two packets share a nonce only where they share the
/// whole header: packets of one stream get different nonces as long as
/// sequence number or timestamp differ.
pub proof fn lemma_normal_nonces_follow_headers(
    first_header: Seq<u8>,
    second_header: Seq<u8>,
    entropy: Seq<u8>,
)
    requires
        first_header.len() == RTP_HEADER_LEN,
        second_header.len() == RTP_HEADER_LEN,
    ensures
        nonce_for(CryptoState::Normal, first_header, entropy) == nonce_for(
            CryptoState::Normal,
            second_header,
            entropy,
        ) <==> first_header == second_header,
{
    lemma_padded_injective(first_header, second_header);
}

} // verus!
