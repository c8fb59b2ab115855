//! Packetizes encoded media frames into RTP packets and seals them with
//! XSalsa20-Poly1305 for a Discord-style voice and video transport.
//!
//! Every function of this crate is verified with Verus. The few items that
//! call into `discortp` or `xsalsa20poly1305` are marked as trusted in their
//! documentation; everything else is proved from their contracts.

pub mod bytes;
pub mod codec;
pub mod constants;
pub mod crypto;
pub mod discordstreamer;
pub mod rtp;
pub mod sequence;
