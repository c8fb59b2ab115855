//! The streamer: session set-up from properties, and the path of one frame
//! from encoder output to sealed packet.

use crate::codec::{Codec, StreamKind, UnsupportedCodec};
use crate::constants::{RTP_HEADER_LEN, RTP_PACKET_MAX_SIZE, RTP_VERSION};
use crate::crypto::{
    nonce_for, opened_packet, sealed_packet, CryptoMode, CryptoSession, CryptoState,
    EncryptionFailure, InvalidKeyLength, KEY_SIZE, NONCE_SIZE,
};
use crate::rtp::{header_bytes, FrameTooLarge, RtpPacket};
use crate::sequence::{successor, SequenceCounter};
use vstd::prelude::*;

verus! {

/// Ticks per second of the video clock.
pub const VIDEO_CLOCK_RATE: u32 = 90_000;

/// A frame rate as numerator and denominator.
#[derive(Clone, Copy, Debug, PartialEq, Eq, Structural)]
pub struct Fraction {
    /// Frames.
    pub numer: i32,
    /// Seconds.
    pub denom: i32,
}

impl Fraction {
    /// Whole frames per second: the quotient, rounded down, of a positive
    /// numerator and a positive denominator, where it is at least 1.
    pub open spec fn spec_frames_per_second(self) -> Option<u32> {
        if self.numer > 0 && self.denom > 0 && self.numer >= self.denom {
            Some((self.numer / self.denom) as u32)
        } else {
            None
        }
    }

    /// Ticks of the video clock per frame: `VIDEO_CLOCK_RATE` divided by
    /// the whole frames per second, rounded down.
    pub open spec fn spec_timestamp_step(self) -> Option<u32> {
        match self.spec_frames_per_second() {
            Some(fps) => Some((VIDEO_CLOCK_RATE / fps) as u32),
            None => None,
        }
    }

    /// Whole frames per second, or nothing where numerator or denominator
    /// is not positive or the rate is below one frame per second.
    #[verifier::when_used_as_spec(spec_frames_per_second)]
    pub fn frames_per_second(self) -> (fps: Option<u32>)
        ensures
            fps == self.spec_frames_per_second(),
            fps matches Some(n) ==> n >= 1,
    {
        if self.numer > 0 && self.denom > 0 && self.numer >= self.denom {
            let fps: i32 = self.numer / self.denom;
            assert(fps >= 1) by (nonlinear_arith)
                requires
                    fps == self.numer / self.denom,
                    self.denom > 0,
                    self.numer >= self.denom,
            ;
            Some(fps as u32)
        } else {
            None
        }
    }

    /// Ticks of the video clock per frame, or nothing where
    /// `frames_per_second` gives nothing.
    #[verifier::when_used_as_spec(spec_timestamp_step)]
    pub fn timestamp_step(self) -> (step: Option<u32>)
        ensures
            step == self.spec_timestamp_step(),
    {
        match self.frames_per_second() {
            Some(fps) => Some(VIDEO_CLOCK_RATE / fps),
            None => None,
        }
    }
}

/// The sum of a timestamp and a step, reduced modulo 2^32.
pub open spec fn spec_advance_timestamp(timestamp: u32, step: u32) -> u32 {
    ((timestamp + step) % 0x1_0000_0000) as u32
}

/// The sum of a timestamp and a step, reduced modulo 2^32.
#[verifier::when_used_as_spec(spec_advance_timestamp)]
pub fn advance_timestamp(timestamp: u32, step: u32) -> (next: u32)
    ensures
        next == spec_advance_timestamp(timestamp, step),
{
    let room: u32 = u32::MAX - timestamp;
    if step > room {
        step - room - 1
    } else {
        timestamp + step
    }
}

/// What a session is configured with before it starts. The key is in
/// here, so the properties are never printed.
#[derive(PartialEq, Eq)]
pub struct Props {
    /// The symmetric key.
    pub crypto_key: Option<Vec<u8>>,
    /// The nonce strategy.
    pub crypto_mode: CryptoMode,
    /// Where the packets go.
    pub address: Option<String>,
    /// Synchronization source of the video stream.
    pub video_ssrc: Option<u32>,
    /// Synchronization source of the audio stream.
    pub audio_ssrc: Option<u32>,
}

/// Why a session cannot start.
#[derive(Clone, Copy, Debug, PartialEq, Eq, Structural)]
pub enum ConfigError {
    /// No key was given.
    MissingKey,
    /// The key does not have `KEY_SIZE` bytes.
    InvalidKeyLength,
    /// No address was given.
    MissingAddress,
    /// No synchronization source was given for the video stream.
    MissingVideoSsrc,
    /// No synchronization source was given for the audio stream.
    MissingAudioSsrc,
}

impl From<InvalidKeyLength> for ConfigError {
    fn from(error: InvalidKeyLength) -> (tagged: ConfigError) {
        ConfigError::InvalidKeyLength
    }
}

impl vstd::std_specs::convert::FromSpecImpl<InvalidKeyLength> for ConfigError {
    open spec fn obeys_from_spec() -> bool {
        true
    }

    open spec fn from_spec(error: InvalidKeyLength) -> ConfigError {
        ConfigError::InvalidKeyLength
    }
}

/// How the host files a configuration error.
#[derive(Clone, Copy, Debug, PartialEq, Eq, Structural)]
pub enum ResourceError {
    /// Something that the session needs was not given.
    NotFound,
    /// Something was given and cannot be used.
    Failed,
}

impl ConfigError {
    /// How the host files the error: what is missing is not found, a key
    /// of the wrong length has failed.
    pub open spec fn spec_resource_error(self) -> ResourceError {
        match self {
            ConfigError::InvalidKeyLength => ResourceError::Failed,
            _ => ResourceError::NotFound,
        }
    }

    /// How the host files the error.
    #[verifier::when_used_as_spec(spec_resource_error)]
    pub fn resource_error(self) -> (class: ResourceError)
        ensures
            class == self.spec_resource_error(),
    {
        match self {
            ConfigError::InvalidKeyLength => ResourceError::Failed,
            _ => ResourceError::NotFound,
        }
    }

    /// The text of the error.
    pub open spec fn spec_message(self) -> Seq<char> {
        match self {
            ConfigError::MissingKey => "No crypto key provided"@,
            ConfigError::InvalidKeyLength => "Crypto key must be 32 bytes long"@,
            ConfigError::MissingAddress => "No address provided"@,
            ConfigError::MissingVideoSsrc => "No video SSRC provided"@,
            ConfigError::MissingAudioSsrc => "No audio SSRC provided"@,
        }
    }

    /// The text of the error.
    pub fn message(self) -> (text: &'static str)
        ensures
            text@ == self.spec_message(),
    {
        match self {
            ConfigError::MissingKey => "No crypto key provided",
            ConfigError::InvalidKeyLength => "Crypto key must be 32 bytes long",
            ConfigError::MissingAddress => "No address provided",
            ConfigError::MissingVideoSsrc => "No video SSRC provided",
            ConfigError::MissingAudioSsrc => "No audio SSRC provided",
        }
    }
}

impl Default for Props {
    /// Nothing is set, and the nonce strategy is Lite.
    fn default() -> (props: Props)
        ensures
            props.crypto_key is None,
            props.crypto_mode == CryptoMode::Lite,
            props.address is None,
            props.video_ssrc is None,
            props.audio_ssrc is None,
    {
        Props {
            crypto_key: None,
            crypto_mode: CryptoMode::Lite,
            address: None,
            video_ssrc: None,
            audio_ssrc: None,
        }
    }
}

impl Props {
    /// What is wrong with key or address, the key first.
    pub open spec fn transport_error(&self) -> Option<ConfigError> {
        match self.crypto_key {
            None => Some(ConfigError::MissingKey),
            Some(key) => if key@.len() != KEY_SIZE {
                Some(ConfigError::InvalidKeyLength)
            } else if self.address is None {
                Some(ConfigError::MissingAddress)
            } else {
                None
            },
        }
    }

    /// The first thing that keeps a session from starting: key, address,
    /// video source, audio source, in this order.
    pub open spec fn config_error(&self) -> Option<ConfigError> {
        if self.transport_error() is Some {
            self.transport_error()
        } else if self.video_ssrc is None {
            Some(ConfigError::MissingVideoSsrc)
        } else if self.audio_ssrc is None {
            Some(ConfigError::MissingAudioSsrc)
        } else {
            None
        }
    }

    /// The address to connect to, once key and address are in order: a
    /// caller that opens the connection itself asks this first, so that a
    /// missing key is reported before any connection is tried.
    pub fn checked_address(&self) -> (address: Result<&String, ConfigError>)
        ensures
            match self.transport_error() {
                Some(error) => address == Err::<&String, ConfigError>(error),
                None => address matches Ok(a) && Some(*a) == self.address,
            },
    {
        match &self.crypto_key {
            None => Err(ConfigError::MissingKey),
            Some(key) => {
                if key.len() != KEY_SIZE {
                    Err(ConfigError::InvalidKeyLength)
                } else {
                    match &self.address {
                        None => Err(ConfigError::MissingAddress),
                        Some(address) => Ok(address),
                    }
                }
            },
        }
    }
}

/// What a running session holds.
pub struct State {
    /// Key and nonce strategy.
    pub session: CryptoSession,
    /// Where the packets go.
    pub address: String,
    /// Synchronization source of the video stream.
    pub video_ssrc: u32,
    /// Synchronization source of the audio stream.
    pub audio_ssrc: u32,
}

impl State {
    /// Whether this is the state in which a session with the given
    /// properties starts: their key, their mode before any packet, their
    /// address and sources.
    pub open spec fn starts_from(&self, props: &Props) -> bool {
        &&& self.session.key() == props.crypto_key->Some_0@
        &&& self.session.spec_state() == CryptoState::spec_new(props.crypto_mode)
        &&& self.address@ == props.address->Some_0@
        &&& Some(self.video_ssrc) == props.video_ssrc
        &&& Some(self.audio_ssrc) == props.audio_ssrc
    }

    /// Starts a session from the properties, or says what is missing. No
    /// session starts under a key that was not given in full.
    pub fn from_props(props: &Props) -> (state: Result<State, ConfigError>)
        ensures
            match props.config_error() {
                Some(error) => state matches Err(e) && e == error,
                None => state matches Ok(s) && s.starts_from(props),
            },
    {
        let address: &String = match props.checked_address() {
            Ok(address) => address,
            Err(error) => {
                return Err(error);
            },
        };
        let session: CryptoSession = match &props.crypto_key {
            Some(key) => match CryptoSession::new(key.as_slice(), props.crypto_mode) {
                Ok(session) => session,
                Err(error) => {
                    return Err(ConfigError::from(error));
                },
            },
            None => {
                return Err(ConfigError::MissingKey);
            },
        };
        let video_ssrc: u32 = match props.video_ssrc {
            Some(ssrc) => ssrc,
            None => {
                return Err(ConfigError::MissingVideoSsrc);
            },
        };
        let audio_ssrc: u32 = match props.audio_ssrc {
            Some(ssrc) => ssrc,
            None => {
                return Err(ConfigError::MissingAudioSsrc);
            },
        };
        Ok(State { session, address: address.clone(), video_ssrc, audio_ssrc })
    }
}

/// Why a frame was dropped. The stream goes on after each of these.
#[derive(Clone, Copy, Debug, PartialEq, Eq, Structural)]
pub enum PacketizeError {
    /// No session is running.
    NoSession,
    /// The media type names no video codec of the transport.
    UnsupportedCodec,
    /// The frame rate is not a positive number of whole frames per second.
    InvalidFramerate,
    /// The frame does not fit in one packet.
    FrameTooLarge,
    /// The packet buffer was too small to seal.
    EncryptionFailure,
    /// Audio is not packetized.
    NotSupported,
}

impl From<UnsupportedCodec> for PacketizeError {
    fn from(error: UnsupportedCodec) -> (tagged: PacketizeError) {
        PacketizeError::UnsupportedCodec
    }
}

impl vstd::std_specs::convert::FromSpecImpl<UnsupportedCodec> for PacketizeError {
    open spec fn obeys_from_spec() -> bool {
        true
    }

    open spec fn from_spec(error: UnsupportedCodec) -> PacketizeError {
        PacketizeError::UnsupportedCodec
    }
}

impl From<FrameTooLarge> for PacketizeError {
    fn from(error: FrameTooLarge) -> (tagged: PacketizeError) {
        PacketizeError::FrameTooLarge
    }
}

impl vstd::std_specs::convert::FromSpecImpl<FrameTooLarge> for PacketizeError {
    open spec fn obeys_from_spec() -> bool {
        true
    }

    open spec fn from_spec(error: FrameTooLarge) -> PacketizeError {
        PacketizeError::FrameTooLarge
    }
}

impl From<EncryptionFailure> for PacketizeError {
    fn from(error: EncryptionFailure) -> (tagged: PacketizeError) {
        PacketizeError::EncryptionFailure
    }
}

impl vstd::std_specs::convert::FromSpecImpl<EncryptionFailure> for PacketizeError {
    open spec fn obeys_from_spec() -> bool {
        true
    }

    open spec fn from_spec(error: EncryptionFailure) -> PacketizeError {
        PacketizeError::EncryptionFailure
    }
}

/// The changes of the host's state that matter to the streamer.
#[derive(Clone, Copy, Debug, PartialEq, Eq, Structural)]
pub enum StateChange {
    /// The host gets ready: the session starts.
    NullToReady,
    /// The host shuts down: the session ends.
    ReadyToNull,
    /// Any other change.
    Other,
}

/// The streamer of one element: its properties, the running session if
/// there is one, and the counters of its two streams.
pub struct DiscordStreamer {
    /// The running session.
    pub state: Option<State>,
    /// The properties from which the next session starts.
    pub props: Props,
    /// Sequence numbers of the video stream.
    pub video_sequence: SequenceCounter,
    /// Sequence numbers of the audio stream.
    pub audio_sequence: SequenceCounter,
    /// Timestamp of the last video packet.
    pub video_timestamp: u32,
}

impl DiscordStreamer {
    /// The first reason, if any, for which a video frame is dropped: no
    /// session, an unknown or non-video codec, a bad frame rate, a frame
    /// that is too large.
    pub open spec fn video_failure(
        &self,
        frame: Seq<u8>,
        encoding_name: Seq<char>,
        framerate: Fraction,
    ) -> Option<PacketizeError> {
        if self.state is None {
            Some(PacketizeError::NoSession)
        } else if !(Codec::of_name(encoding_name) matches Some(codec) && codec.spec_kind()
            == StreamKind::Video) {
            Some(PacketizeError::UnsupportedCodec)
        } else if framerate.spec_timestamp_step() is None {
            Some(PacketizeError::InvalidFramerate)
        } else if frame.len() + RTP_HEADER_LEN > RTP_PACKET_MAX_SIZE {
            Some(PacketizeError::FrameTooLarge)
        } else {
            None
        }
    }

    /// The header of the next video packet.
    pub open spec fn video_header(&self, encoding_name: Seq<char>, framerate: Fraction) -> Seq<u8> {
        header_bytes(
            RTP_VERSION,
            Codec::of_name(encoding_name)->Some_0.spec_payload_type(),
            self.video_sequence.current(),
            spec_advance_timestamp(self.video_timestamp, framerate.spec_timestamp_step()->Some_0),
            self.state->Some_0.video_ssrc,
        )
    }

    /// A streamer without properties and without session, whose streams
    /// start at sequence number 0.
    pub fn new() -> (streamer: DiscordStreamer)
        ensures
            streamer.state is None,
            streamer.props.crypto_key is None,
            streamer.props.crypto_mode == CryptoMode::Lite,
            streamer.props.address is None,
            streamer.props.video_ssrc is None,
            streamer.props.audio_ssrc is None,
            streamer.video_sequence.current() == 0,
            streamer.audio_sequence.current() == 0,
            streamer.video_timestamp == 0,
    {
        DiscordStreamer {
            state: None,
            props: Props::default(),
            video_sequence: SequenceCounter::new(),
            audio_sequence: SequenceCounter::new(),
            video_timestamp: 0,
        }
    }

    /// The next sequence number of the video stream.
    pub fn get_video_sequence(&mut self) -> (sequence: u16)
        ensures
            sequence == old(self).video_sequence.current(),
            final(self).video_sequence == old(self).video_sequence.advanced(),
            final(self).video_sequence.current() == successor(sequence),
            final(self).audio_sequence == old(self).audio_sequence,
            final(self).state == old(self).state,
            final(self).props == old(self).props,
            final(self).video_timestamp == old(self).video_timestamp,
    {
        self.video_sequence.next()
    }

    /// The next sequence number of the audio stream.
    pub fn get_audio_sequence(&mut self) -> (sequence: u16)
        ensures
            sequence == old(self).audio_sequence.current(),
            final(self).audio_sequence == old(self).audio_sequence.advanced(),
            final(self).audio_sequence.current() == successor(sequence),
            final(self).video_sequence == old(self).video_sequence,
            final(self).state == old(self).state,
            final(self).props == old(self).props,
            final(self).video_timestamp == old(self).video_timestamp,
    {
        self.audio_sequence.next()
    }

    /// Follows a change of the host's state: starts the session from the
    /// properties when the host gets ready, and refuses the change where
    /// they are incomplete; ends the session when the host shuts down.
    pub fn change_state(&mut self, transition: StateChange) -> (outcome: Result<(), ConfigError>)
        ensures
            final(self).props == old(self).props,
            final(self).video_sequence == old(self).video_sequence,
            final(self).audio_sequence == old(self).audio_sequence,
            final(self).video_timestamp == old(self).video_timestamp,
            match transition {
                StateChange::NullToReady => match old(self).props.config_error() {
                    Some(error) => outcome == Err::<(), ConfigError>(error) && final(self).state
                        == old(self).state,
                    None => outcome is Ok && (final(self).state matches Some(s) && s.starts_from(
                        &old(self).props,
                    )),
                },
                StateChange::ReadyToNull => outcome is Ok && final(self).state is None,
                StateChange::Other => outcome is Ok && final(self).state == old(self).state,
            },
    {
        match transition {
            StateChange::NullToReady => {
                match State::from_props(&self.props) {
                    Ok(state) => {
                        self.state = Some(state);
                        Ok(())
                    },
                    Err(error) => Err(error),
                }
            },
            StateChange::ReadyToNull => {
                match &mut self.state {
                    Some(state) => {
                        state.session.wipe();
                    },
                    None => {},
                }
                self.state = None;
                Ok(())
            },
            StateChange::Other => Ok(()),
        }
    }

    /// Packetizes one encoded video frame: resolves the codec, takes the
    /// next sequence number, advances the timestamp by the frame's share of
    /// the video clock and stamps the packet with the new value, builds the
    /// packet and seals it. Returns the bytes to send: the header in the
    /// clear, ciphertext, tag and nonce suffix. A frame that is dropped
    /// leaves the streamer as it was: it takes no sequence number and no
    /// nonce.
    pub fn video_sink_chain(&mut self, frame: &[u8], encoding_name: &str, framerate: Fraction) -> (sent:
        Result<Vec<u8>, PacketizeError>)
        ensures
            final(self).props == old(self).props,
            final(self).audio_sequence == old(self).audio_sequence,
            match old(self).video_failure(frame@, encoding_name@, framerate) {
                Some(error) => {
                    &&& sent matches Err(e) && e == error
                    &&& final(self).video_sequence == old(self).video_sequence
                    &&& final(self).video_timestamp == old(self).video_timestamp
                    &&& final(self).state == old(self).state
                },
                None => {
                    let before = old(self).state->Some_0;
                    let mode = before.session.spec_kind();
                    let header = old(self).video_header(encoding_name@, framerate);
                    &&& sent matches Ok(bytes) && {
                        &&& bytes@.len() == RTP_HEADER_LEN + frame@.len()
                            + mode.spec_payload_overhead()
                        &&& bytes@.subrange(0, RTP_HEADER_LEN as int) == header
                        &&& exists|entropy: Seq<u8>|
                            entropy.len() == NONCE_SIZE && bytes@ == sealed_packet(
                                mode,
                                before.session.key(),
                                #[trigger] nonce_for(before.session.spec_state(), header, entropy),
                                header,
                                frame@,
                            )
                        &&& opened_packet(mode, before.session.key(), bytes@) == Some(frame@)
                    }
                    &&& final(self).video_sequence == old(self).video_sequence.advanced()
                    &&& final(self).video_sequence.current() == successor(
                        old(self).video_sequence.current(),
                    )
                    &&& final(self).video_timestamp == spec_advance_timestamp(
                        old(self).video_timestamp,
                        framerate.spec_timestamp_step()->Some_0,
                    )
                    &&& final(self).state matches Some(after) && {
                        &&& after.session.key() == before.session.key()
                        &&& after.session.spec_state() == before.session.spec_state().stepped()
                        &&& after.address == before.address
                        &&& after.video_ssrc == before.video_ssrc
                        &&& after.audio_ssrc == before.audio_ssrc
                    }
                },
            },
    {
        if self.state.is_none() {
            return Err(PacketizeError::NoSession);
        }
        let codec: Codec = match Codec::from_name(encoding_name) {
            Some(codec) => codec,
            None => {
                return Err(PacketizeError::UnsupportedCodec);
            },
        };
        if codec.kind() != StreamKind::Video {
            return Err(PacketizeError::UnsupportedCodec);
        }
        let step: u32 = match framerate.timestamp_step() {
            Some(step) => step,
            None => {
                return Err(PacketizeError::InvalidFramerate);
            },
        };
        if frame.len() > RTP_PACKET_MAX_SIZE - RTP_HEADER_LEN {
            return Err(PacketizeError::FrameTooLarge);
        }
        match &mut self.state {
            None => Err(PacketizeError::NoSession),
            Some(state) => {
                let mode: CryptoMode = state.session.kind();
                let timestamp: u32 = advance_timestamp(self.video_timestamp, step);
                let sequence: u16 = self.video_sequence.peek();
                let built = RtpPacket::build(
                    frame,
                    codec.payload_type(),
                    sequence,
                    timestamp,
                    state.video_ssrc,
                    mode.payload_overhead() as u16,
                );
                let mut packet: RtpPacket = match built {
                    Ok(packet) => packet,
                    Err(error) => {
                        return Err(PacketizeError::from(error));
                    },
                };
                assert(packet.body@.subrange(0, frame@.len() as int) =~= frame@);
                let ghost header = packet.header@;
                let ghost key = state.session.key();
                let ghost strategy = state.session.spec_state();
                assert(header == old(self).video_header(encoding_name@, framerate));
                match state.session.seal(&mut packet, frame.len()) {
                    Err(error) => Err(PacketizeError::from(error)),
                    Ok(total) => {
                        let _ = self.video_sequence.next();
                        self.video_timestamp = timestamp;
                        let bytes: Vec<u8> = packet.to_bytes(total);
                        proof {
                            let entropy = choose|entropy: Seq<u8>|
                                entropy.len() == NONCE_SIZE && bytes@ == sealed_packet(
                                    mode,
                                    key,
                                    #[trigger] nonce_for(strategy, header, entropy),
                                    header,
                                    frame@,
                                );
                            assert(bytes@ == sealed_packet(
                                mode,
                                key,
                                nonce_for(strategy, header, entropy),
                                header,
                                frame@,
                            ));
                            assert(bytes@.subrange(0, RTP_HEADER_LEN as int) =~= header);
                        }
                        Ok(bytes)
                    },
                }
            },
        }
    }

    /// Audio is not packetized: every frame is refused, and nothing
    /// changes.
    pub fn audio_sink_chain(&self, _frame: &[u8]) -> (sent: Result<Vec<u8>, PacketizeError>)
        ensures
            sent matches Err(e) && e == PacketizeError::NotSupported,
    {
        Err(PacketizeError::NotSupported)
    }
}

} // verus!
