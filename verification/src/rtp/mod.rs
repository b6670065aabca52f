//! RTP depacketisation.
pub mod error;
pub mod payload_type;
pub mod packet;
pub mod h264;
pub mod h265;
pub mod fragments;
pub mod mjpeg;
pub mod decoder;
