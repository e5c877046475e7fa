//! Typed MMC commands: each produces a fixed-length CDB, declares its
//! response-buffer allocation length, and owns a decoder for the bytes that
//! come back.

pub mod get_configuration;
pub mod inquiry;
pub mod read_capacity;
pub mod read_cd;
pub mod read_track_info;
pub mod start_stop_unit;
pub mod toc;
