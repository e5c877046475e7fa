//! SCSI Multimedia Command (MMC) protocol engine: typed command encoding into
//! Command Descriptor Blocks, response decoding, sense-code error
//! classification, a self-describing feature-descriptor parser, and an
//! LBA/MSF address model with exact bounds and conversion semantics.

pub mod addressing;
pub mod cdb;
pub mod commands;
pub mod error;
pub mod features;
pub mod transport;
pub mod util;
