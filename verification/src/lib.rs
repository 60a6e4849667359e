//! Codec for a binary, length-prefixed request/response protocol (MSP)
//! spoken between a controller and a remote device over a byte-oriented
//! transport. Two wire revisions are supported: V1 (one-byte command and
//! length fields, XOR checksum) and V2 (two-byte little-endian command and
//! length fields, CRC-8/DVB-S2 checksum).

pub mod checksum;
pub mod commands;
pub mod data;
pub mod laws;
pub mod packet;
pub mod parser;
