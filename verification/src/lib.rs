//! Front end of an MPEG audio (MP3) decoder: frame synchronization, header
//! decoding against the bitrate and sampling-rate tables, and decoding of the
//! variable-layout side-information block that precedes each frame's
//! compressed payload.

pub mod bitcursor;
pub mod decoder;
pub mod error;
pub mod frame;
pub mod header;
pub mod side_info;
pub mod tables;
