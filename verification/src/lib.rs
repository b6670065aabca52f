//! Camera toolkit library: SOME/IP camera configuration messages, RTP media
//! depacketisation, a Stonkam AVTP parser, serial framing and TCP settings.
pub mod wire;
pub mod shared_bytes;
pub mod text;
pub mod someip;
pub mod rtp;
pub mod serial;
pub mod stonkam_avtp;
pub mod tcp;
pub mod render;
pub mod ssh;
