//! Btrfs subvolume operations.
pub mod info;
pub mod search;
pub mod vol_args;
pub mod walk;

pub use info::{SubvolInfo, Timespec};
