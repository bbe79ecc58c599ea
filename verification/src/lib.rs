//! A library for working with the btrfs filesystem: tree items, tree searches, subvolume and
//! device bookkeeping, and the btrfs send stream format.
//!
//! The system calls themselves (ioctls, file creation, reading a stream) are performed by the
//! caller; this crate holds the decisions and the parsing that surround them.
pub mod bytes;
pub mod consts;
pub mod error;
pub mod flags;

pub use error::{Error, ErrorKind, IoResult, ReceiveError};
pub use flags::Flags;
pub mod send_stream;
pub mod tree_search;
pub mod util;
pub mod subvol;
pub mod fs;
pub mod dev;
pub mod bindgen_names;
