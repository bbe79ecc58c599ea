//! Module to work with a btrfs send stream
pub mod tlv;
pub mod command;
pub mod handler;
pub mod crc;
pub mod stream;
pub mod send;
pub mod receive;
