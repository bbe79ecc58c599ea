//! Send commands passed to the handler.
use super::tlv::{
    attr_bytes, attr_range, attr_range_v2, attr_start, data_start_v2, kind_error,
    lemma_tlv_attrs_last, lemma_tlv_v2_last, parse_attrs, parse_attrs_v2,
    schema_slot_from, slot_valid, tlv_attrs, tlv_v2, AttrKind, ScanV2, SendAttr,
};
use crate::bytes::{le32, le64, read_le32, read_le64, Uuid};
use crate::consts;
use crate::error::{Error, IoResult, ReceiveError};
use vstd::prelude::*;
use vstd::slice::slice_subrange;

verus! {

/// Seconds and nanoseconds of a timestamp attribute.
#[derive(Debug, Clone, Copy, PartialEq, Eq, Structural)]
pub struct Timespec {
    pub tv_sec: i64,
    pub tv_nsec: i64,
}

/// The timestamp stored at `p[i..i + 12]`: a little-endian `u64` of seconds followed by a
/// little-endian `u32` of nanoseconds.
pub open spec fn spec_timespec(p: Seq<u8>, i: int) -> Timespec {
    Timespec { tv_sec: le64(p, i) as i64, tv_nsec: le32(p, i + 8) as i64 }
}

fn read_timespec(p: &[u8], i: usize) -> (r: Timespec)
    requires
        i + 12 <= p.len(),
    ensures
        r == spec_timespec(p@, i as int),
{
    let sec = read_le64(p, i);
    let nsec = read_le32(p, i + 8);
    Timespec { tv_sec: #[verifier::truncate] (sec as i64), tv_nsec: nsec as i64 }
}

/// Implemented by all send commands
pub trait SendCmd<'a>: Sized {
    /// The unique command ID, for each send command.
    const KEY: u16;

    /// Whether [`SendCmd::parse_tlv`] may be called on the payload `p`.
    spec fn parse_requires(p: Seq<u8>) -> bool;

    /// The error that parsing the payload `p` reports, if it fails.
    spec fn spec_parse_error(p: Seq<u8>) -> Option<ReceiveError>;

    /// Whether `c` is the command that the payload `p` holds.
    spec fn spec_parsed(p: Seq<u8>, c: Self) -> bool;

    /// Parses the send stream and constructs the send command.
    fn parse_tlv(stream: &'a [u8]) -> (r: IoResult<Self>)
        requires
            Self::parse_requires(stream@),
        ensures
            r matches Ok(c) ==> Self::spec_parse_error(stream@) is None && Self::spec_parsed(
                stream@,
                c,
            ),
            r matches Err(e) ==> Self::spec_parse_error(stream@) matches Some(re) && e
                == Error::Receive(re),
    ;
}

/// Implemented by commands that have the `data` attribute.
///
/// Send commands that have a `data` attribute implement this trait because the `data` attribute is
/// handled differently in a version 2 send stream: it has no length and runs to the end of the
/// command.
pub trait SendDataCmd<'a>: SendCmd<'a> {
    /// Whether [`SendDataCmd::parse_tlv_v2`] may be called on the payload `p`: an attribute type
    /// that stands at the end of the payload without its length is not accepted.
    spec fn parse_v2_requires(p: Seq<u8>) -> bool;

    /// The error that parsing the version 2 payload `p` reports, if it fails.
    spec fn spec_parse_v2_error(p: Seq<u8>) -> Option<ReceiveError>;

    /// Whether `c` is the command that the version 2 payload `p` holds.
    spec fn spec_parsed_v2(p: Seq<u8>, c: Self) -> bool;

    /// Parses the send stream and constructs the send command.
    fn parse_tlv_v2(stream: &'a [u8]) -> (r: IoResult<Self>)
        requires
            Self::parse_v2_requires(stream@),
        ensures
            r matches Ok(c) ==> Self::spec_parse_v2_error(stream@) is None
                && Self::spec_parsed_v2(stream@, c),
            r matches Err(e) ==> Self::spec_parse_v2_error(stream@) matches Some(re) && e
                == Error::Receive(re),
    ;
}

/// Handled by, [`StreamHandler::subvol()`](super::handler::StreamHandler::subvol)
#[derive(Debug, Clone, Copy)]
pub struct SubvolCmd<'a> {
    pub path: &'a [u8],
    pub ctransid: u64,
    pub uuid: Uuid,
}

impl<'a> SubvolCmd<'a> {
    /// Attribute types of this command and how their values decode, in field order.
    pub open spec fn spec_schema() -> Seq<(u16, AttrKind)> {
        seq![(15u16, AttrKind::Bytes), (2u16, AttrKind::U64), (1u16, AttrKind::Uuid)]
    }
}

impl<'a> SendCmd<'a> for SubvolCmd<'a> {
    const KEY: u16 = consts::BTRFS_SEND_C_SUBVOL;

    open spec fn parse_requires(p: Seq<u8>) -> bool {
        true
    }

    open spec fn spec_parse_error(p: Seq<u8>) -> Option<ReceiveError> {
        match tlv_attrs(p, Self::spec_schema()) {
            Ok(_) => None,
            Err(e) => Some(e),
        }
    }

    open spec fn spec_parsed(p: Seq<u8>, c: Self) -> bool {
        match tlv_attrs(p, Self::spec_schema()) {
            Ok(v) => {
                c.path@ == p.subrange(v[0].0 as int, v[0].1 as int)
                    && c.ctransid == le64(p, v[1].0 as int)
                    && c.uuid@ == p.subrange(v[2].0 as int, v[2].0 + 16)
            },
            Err(_) => false,
        }
    }

    fn parse_tlv(payload: &'a [u8]) -> (r: IoResult<Self>) {
        let schema = [(15u16, AttrKind::Bytes), (2u16, AttrKind::U64), (1u16, AttrKind::Uuid)];
        assert(schema@ =~= Self::spec_schema());
        match parse_attrs(payload, schema.as_slice()) {
            Err(e) => Err(Error::Receive(e)),
            Ok(v) => {
                proof {
                    assert(forall|i: int| 0 <= i < v@.len() ==> slot_valid(payload@, schema@[i].1, #[trigger] v@[i]));
                }
                let path = slice_subrange(payload, v[0].0, v[0].1);
                let ctransid = read_le64(payload, v[1].0);
                let uuid = Uuid::read(payload, v[2].0);
                Ok(SubvolCmd { path, ctransid, uuid })
            },
        }
    }
}

/// Handled by, [`StreamHandler::snapshot()`](super::handler::StreamHandler::snapshot)
#[derive(Debug, Clone, Copy)]
pub struct SnapshotCmd<'a> {
    pub path: &'a [u8],
    pub uuid: Uuid,
    pub ctransid: u64,
    pub clone_uuid: Uuid,
    pub clone_ctransid: u64,
}

impl<'a> SnapshotCmd<'a> {
    /// Attribute types of this command and how their values decode, in field order.
    pub open spec fn spec_schema() -> Seq<(u16, AttrKind)> {
        seq![(15u16, AttrKind::Bytes), (1u16, AttrKind::Uuid), (2u16, AttrKind::U64), (20u16, AttrKind::Uuid), (21u16, AttrKind::U64)]
    }
}

impl<'a> SendCmd<'a> for SnapshotCmd<'a> {
    const KEY: u16 = consts::BTRFS_SEND_C_SNAPSHOT;

    open spec fn parse_requires(p: Seq<u8>) -> bool {
        true
    }

    open spec fn spec_parse_error(p: Seq<u8>) -> Option<ReceiveError> {
        match tlv_attrs(p, Self::spec_schema()) {
            Ok(_) => None,
            Err(e) => Some(e),
        }
    }

    open spec fn spec_parsed(p: Seq<u8>, c: Self) -> bool {
        match tlv_attrs(p, Self::spec_schema()) {
            Ok(v) => {
                c.path@ == p.subrange(v[0].0 as int, v[0].1 as int)
                    && c.uuid@ == p.subrange(v[1].0 as int, v[1].0 + 16)
                    && c.ctransid == le64(p, v[2].0 as int)
                    && c.clone_uuid@ == p.subrange(v[3].0 as int, v[3].0 + 16)
                    && c.clone_ctransid == le64(p, v[4].0 as int)
            },
            Err(_) => false,
        }
    }

    fn parse_tlv(payload: &'a [u8]) -> (r: IoResult<Self>) {
        let schema = [(15u16, AttrKind::Bytes), (1u16, AttrKind::Uuid), (2u16, AttrKind::U64), (20u16, AttrKind::Uuid), (21u16, AttrKind::U64)];
        assert(schema@ =~= Self::spec_schema());
        match parse_attrs(payload, schema.as_slice()) {
            Err(e) => Err(Error::Receive(e)),
            Ok(v) => {
                proof {
                    assert(forall|i: int| 0 <= i < v@.len() ==> slot_valid(payload@, schema@[i].1, #[trigger] v@[i]));
                }
                let path = slice_subrange(payload, v[0].0, v[0].1);
                let uuid = Uuid::read(payload, v[1].0);
                let ctransid = read_le64(payload, v[2].0);
                let clone_uuid = Uuid::read(payload, v[3].0);
                let clone_ctransid = read_le64(payload, v[4].0);
                Ok(SnapshotCmd { path, uuid, ctransid, clone_uuid, clone_ctransid })
            },
        }
    }
}

/// Handled by, [`StreamHandler::mkfile()`](super::handler::StreamHandler::mkfile)
#[derive(Debug, Clone, Copy)]
pub struct MkfileCmd<'a> {
    pub path: &'a [u8],
    pub ino: u64,
}

impl<'a> MkfileCmd<'a> {
    /// Attribute types of this command and how their values decode, in field order.
    pub open spec fn spec_schema() -> Seq<(u16, AttrKind)> {
        seq![(15u16, AttrKind::Bytes), (3u16, AttrKind::U64)]
    }
}

impl<'a> SendCmd<'a> for MkfileCmd<'a> {
    const KEY: u16 = consts::BTRFS_SEND_C_MKFILE;

    open spec fn parse_requires(p: Seq<u8>) -> bool {
        true
    }

    open spec fn spec_parse_error(p: Seq<u8>) -> Option<ReceiveError> {
        match tlv_attrs(p, Self::spec_schema()) {
            Ok(_) => None,
            Err(e) => Some(e),
        }
    }

    open spec fn spec_parsed(p: Seq<u8>, c: Self) -> bool {
        match tlv_attrs(p, Self::spec_schema()) {
            Ok(v) => {
                c.path@ == p.subrange(v[0].0 as int, v[0].1 as int)
                    && c.ino == le64(p, v[1].0 as int)
            },
            Err(_) => false,
        }
    }

    fn parse_tlv(payload: &'a [u8]) -> (r: IoResult<Self>) {
        let schema = [(15u16, AttrKind::Bytes), (3u16, AttrKind::U64)];
        assert(schema@ =~= Self::spec_schema());
        match parse_attrs(payload, schema.as_slice()) {
            Err(e) => Err(Error::Receive(e)),
            Ok(v) => {
                proof {
                    assert(forall|i: int| 0 <= i < v@.len() ==> slot_valid(payload@, schema@[i].1, #[trigger] v@[i]));
                }
                let path = slice_subrange(payload, v[0].0, v[0].1);
                let ino = read_le64(payload, v[1].0);
                Ok(MkfileCmd { path, ino })
            },
        }
    }
}

/// Handled by, [`StreamHandler::mkdir()`](super::handler::StreamHandler::mkdir)
#[derive(Debug, Clone, Copy)]
pub struct MkdirCmd<'a> {
    pub path: &'a [u8],
    pub ino: u64,
}

impl<'a> MkdirCmd<'a> {
    /// Attribute types of this command and how their values decode, in field order.
    pub open spec fn spec_schema() -> Seq<(u16, AttrKind)> {
        seq![(15u16, AttrKind::Bytes), (3u16, AttrKind::U64)]
    }
}

impl<'a> SendCmd<'a> for MkdirCmd<'a> {
    const KEY: u16 = consts::BTRFS_SEND_C_MKDIR;

    open spec fn parse_requires(p: Seq<u8>) -> bool {
        true
    }

    open spec fn spec_parse_error(p: Seq<u8>) -> Option<ReceiveError> {
        match tlv_attrs(p, Self::spec_schema()) {
            Ok(_) => None,
            Err(e) => Some(e),
        }
    }

    open spec fn spec_parsed(p: Seq<u8>, c: Self) -> bool {
        match tlv_attrs(p, Self::spec_schema()) {
            Ok(v) => {
                c.path@ == p.subrange(v[0].0 as int, v[0].1 as int)
                    && c.ino == le64(p, v[1].0 as int)
            },
            Err(_) => false,
        }
    }

    fn parse_tlv(payload: &'a [u8]) -> (r: IoResult<Self>) {
        let schema = [(15u16, AttrKind::Bytes), (3u16, AttrKind::U64)];
        assert(schema@ =~= Self::spec_schema());
        match parse_attrs(payload, schema.as_slice()) {
            Err(e) => Err(Error::Receive(e)),
            Ok(v) => {
                proof {
                    assert(forall|i: int| 0 <= i < v@.len() ==> slot_valid(payload@, schema@[i].1, #[trigger] v@[i]));
                }
                let path = slice_subrange(payload, v[0].0, v[0].1);
                let ino = read_le64(payload, v[1].0);
                Ok(MkdirCmd { path, ino })
            },
        }
    }
}

/// Handled by, [`StreamHandler::mknod()`](super::handler::StreamHandler::mknod)
#[derive(Debug, Clone, Copy)]
pub struct MknodCmd<'a> {
    pub path: &'a [u8],
    pub mode: u64,
    pub rdev: u64,
}

impl<'a> MknodCmd<'a> {
    /// Attribute types of this command and how their values decode, in field order.
    pub open spec fn spec_schema() -> Seq<(u16, AttrKind)> {
        seq![(15u16, AttrKind::Bytes), (5u16, AttrKind::U64), (8u16, AttrKind::U64)]
    }
}

impl<'a> SendCmd<'a> for MknodCmd<'a> {
    const KEY: u16 = consts::BTRFS_SEND_C_MKNOD;

    open spec fn parse_requires(p: Seq<u8>) -> bool {
        true
    }

    open spec fn spec_parse_error(p: Seq<u8>) -> Option<ReceiveError> {
        match tlv_attrs(p, Self::spec_schema()) {
            Ok(_) => None,
            Err(e) => Some(e),
        }
    }

    open spec fn spec_parsed(p: Seq<u8>, c: Self) -> bool {
        match tlv_attrs(p, Self::spec_schema()) {
            Ok(v) => {
                c.path@ == p.subrange(v[0].0 as int, v[0].1 as int)
                    && c.mode == le64(p, v[1].0 as int)
                    && c.rdev == le64(p, v[2].0 as int)
            },
            Err(_) => false,
        }
    }

    fn parse_tlv(payload: &'a [u8]) -> (r: IoResult<Self>) {
        let schema = [(15u16, AttrKind::Bytes), (5u16, AttrKind::U64), (8u16, AttrKind::U64)];
        assert(schema@ =~= Self::spec_schema());
        match parse_attrs(payload, schema.as_slice()) {
            Err(e) => Err(Error::Receive(e)),
            Ok(v) => {
                proof {
                    assert(forall|i: int| 0 <= i < v@.len() ==> slot_valid(payload@, schema@[i].1, #[trigger] v@[i]));
                }
                let path = slice_subrange(payload, v[0].0, v[0].1);
                let mode = read_le64(payload, v[1].0);
                let rdev = read_le64(payload, v[2].0);
                Ok(MknodCmd { path, mode, rdev })
            },
        }
    }
}

/// Handled by, [`StreamHandler::mkfifo()`](super::handler::StreamHandler::mkfifo)
#[derive(Debug, Clone, Copy)]
pub struct MkfifoCmd<'a> {
    pub path: &'a [u8],
    pub ino: u64,
}

impl<'a> MkfifoCmd<'a> {
    /// Attribute types of this command and how their values decode, in field order.
    pub open spec fn spec_schema() -> Seq<(u16, AttrKind)> {
        seq![(15u16, AttrKind::Bytes), (3u16, AttrKind::U64)]
    }
}

impl<'a> SendCmd<'a> for MkfifoCmd<'a> {
    const KEY: u16 = consts::BTRFS_SEND_C_MKFIFO;

    open spec fn parse_requires(p: Seq<u8>) -> bool {
        true
    }

    open spec fn spec_parse_error(p: Seq<u8>) -> Option<ReceiveError> {
        match tlv_attrs(p, Self::spec_schema()) {
            Ok(_) => None,
            Err(e) => Some(e),
        }
    }

    open spec fn spec_parsed(p: Seq<u8>, c: Self) -> bool {
        match tlv_attrs(p, Self::spec_schema()) {
            Ok(v) => {
                c.path@ == p.subrange(v[0].0 as int, v[0].1 as int)
                    && c.ino == le64(p, v[1].0 as int)
            },
            Err(_) => false,
        }
    }

    fn parse_tlv(payload: &'a [u8]) -> (r: IoResult<Self>) {
        let schema = [(15u16, AttrKind::Bytes), (3u16, AttrKind::U64)];
        assert(schema@ =~= Self::spec_schema());
        match parse_attrs(payload, schema.as_slice()) {
            Err(e) => Err(Error::Receive(e)),
            Ok(v) => {
                proof {
                    assert(forall|i: int| 0 <= i < v@.len() ==> slot_valid(payload@, schema@[i].1, #[trigger] v@[i]));
                }
                let path = slice_subrange(payload, v[0].0, v[0].1);
                let ino = read_le64(payload, v[1].0);
                Ok(MkfifoCmd { path, ino })
            },
        }
    }
}

/// Handled by, [`StreamHandler::mksock()`](super::handler::StreamHandler::mksock)
#[derive(Debug, Clone, Copy)]
pub struct MksockCmd<'a> {
    pub path: &'a [u8],
    pub ino: u64,
}

impl<'a> MksockCmd<'a> {
    /// Attribute types of this command and how their values decode, in field order.
    pub open spec fn spec_schema() -> Seq<(u16, AttrKind)> {
        seq![(15u16, AttrKind::Bytes), (3u16, AttrKind::U64)]
    }
}

impl<'a> SendCmd<'a> for MksockCmd<'a> {
    const KEY: u16 = consts::BTRFS_SEND_C_MKSOCK;

    open spec fn parse_requires(p: Seq<u8>) -> bool {
        true
    }

    open spec fn spec_parse_error(p: Seq<u8>) -> Option<ReceiveError> {
        match tlv_attrs(p, Self::spec_schema()) {
            Ok(_) => None,
            Err(e) => Some(e),
        }
    }

    open spec fn spec_parsed(p: Seq<u8>, c: Self) -> bool {
        match tlv_attrs(p, Self::spec_schema()) {
            Ok(v) => {
                c.path@ == p.subrange(v[0].0 as int, v[0].1 as int)
                    && c.ino == le64(p, v[1].0 as int)
            },
            Err(_) => false,
        }
    }

    fn parse_tlv(payload: &'a [u8]) -> (r: IoResult<Self>) {
        let schema = [(15u16, AttrKind::Bytes), (3u16, AttrKind::U64)];
        assert(schema@ =~= Self::spec_schema());
        match parse_attrs(payload, schema.as_slice()) {
            Err(e) => Err(Error::Receive(e)),
            Ok(v) => {
                proof {
                    assert(forall|i: int| 0 <= i < v@.len() ==> slot_valid(payload@, schema@[i].1, #[trigger] v@[i]));
                }
                let path = slice_subrange(payload, v[0].0, v[0].1);
                let ino = read_le64(payload, v[1].0);
                Ok(MksockCmd { path, ino })
            },
        }
    }
}

/// Handled by, [`StreamHandler::symlink()`](super::handler::StreamHandler::symlink)
#[derive(Debug, Clone, Copy)]
pub struct SymlinkCmd<'a> {
    pub path: &'a [u8],
    pub ino: u64,
    pub path_link: &'a [u8],
}

impl<'a> SymlinkCmd<'a> {
    /// Attribute types of this command and how their values decode, in field order.
    pub open spec fn spec_schema() -> Seq<(u16, AttrKind)> {
        seq![(15u16, AttrKind::Bytes), (3u16, AttrKind::U64), (17u16, AttrKind::Bytes)]
    }
}

impl<'a> SendCmd<'a> for SymlinkCmd<'a> {
    const KEY: u16 = consts::BTRFS_SEND_C_SYMLINK;

    open spec fn parse_requires(p: Seq<u8>) -> bool {
        true
    }

    open spec fn spec_parse_error(p: Seq<u8>) -> Option<ReceiveError> {
        match tlv_attrs(p, Self::spec_schema()) {
            Ok(_) => None,
            Err(e) => Some(e),
        }
    }

    open spec fn spec_parsed(p: Seq<u8>, c: Self) -> bool {
        match tlv_attrs(p, Self::spec_schema()) {
            Ok(v) => {
                c.path@ == p.subrange(v[0].0 as int, v[0].1 as int)
                    && c.ino == le64(p, v[1].0 as int)
                    && c.path_link@ == p.subrange(v[2].0 as int, v[2].1 as int)
            },
            Err(_) => false,
        }
    }

    fn parse_tlv(payload: &'a [u8]) -> (r: IoResult<Self>) {
        let schema = [(15u16, AttrKind::Bytes), (3u16, AttrKind::U64), (17u16, AttrKind::Bytes)];
        assert(schema@ =~= Self::spec_schema());
        match parse_attrs(payload, schema.as_slice()) {
            Err(e) => Err(Error::Receive(e)),
            Ok(v) => {
                proof {
                    assert(forall|i: int| 0 <= i < v@.len() ==> slot_valid(payload@, schema@[i].1, #[trigger] v@[i]));
                }
                let path = slice_subrange(payload, v[0].0, v[0].1);
                let ino = read_le64(payload, v[1].0);
                let path_link = slice_subrange(payload, v[2].0, v[2].1);
                Ok(SymlinkCmd { path, ino, path_link })
            },
        }
    }
}

/// Handled by, [`StreamHandler::rename()`](super::handler::StreamHandler::rename)
#[derive(Debug, Clone, Copy)]
pub struct RenameCmd<'a> {
    pub path: &'a [u8],
    pub path_to: &'a [u8],
}

impl<'a> RenameCmd<'a> {
    /// Attribute types of this command and how their values decode, in field order.
    pub open spec fn spec_schema() -> Seq<(u16, AttrKind)> {
        seq![(15u16, AttrKind::Bytes), (16u16, AttrKind::Bytes)]
    }
}

impl<'a> SendCmd<'a> for RenameCmd<'a> {
    const KEY: u16 = consts::BTRFS_SEND_C_RENAME;

    open spec fn parse_requires(p: Seq<u8>) -> bool {
        true
    }

    open spec fn spec_parse_error(p: Seq<u8>) -> Option<ReceiveError> {
        match tlv_attrs(p, Self::spec_schema()) {
            Ok(_) => None,
            Err(e) => Some(e),
        }
    }

    open spec fn spec_parsed(p: Seq<u8>, c: Self) -> bool {
        match tlv_attrs(p, Self::spec_schema()) {
            Ok(v) => {
                c.path@ == p.subrange(v[0].0 as int, v[0].1 as int)
                    && c.path_to@ == p.subrange(v[1].0 as int, v[1].1 as int)
            },
            Err(_) => false,
        }
    }

    fn parse_tlv(payload: &'a [u8]) -> (r: IoResult<Self>) {
        let schema = [(15u16, AttrKind::Bytes), (16u16, AttrKind::Bytes)];
        assert(schema@ =~= Self::spec_schema());
        match parse_attrs(payload, schema.as_slice()) {
            Err(e) => Err(Error::Receive(e)),
            Ok(v) => {
                proof {
                    assert(forall|i: int| 0 <= i < v@.len() ==> slot_valid(payload@, schema@[i].1, #[trigger] v@[i]));
                }
                let path = slice_subrange(payload, v[0].0, v[0].1);
                let path_to = slice_subrange(payload, v[1].0, v[1].1);
                Ok(RenameCmd { path, path_to })
            },
        }
    }
}

/// Handled by, [`StreamHandler::link()`](super::handler::StreamHandler::link)
#[derive(Debug, Clone, Copy)]
pub struct LinkCmd<'a> {
    pub path: &'a [u8],
    pub path_link: &'a [u8],
}

impl<'a> LinkCmd<'a> {
    /// Attribute types of this command and how their values decode, in field order.
    pub open spec fn spec_schema() -> Seq<(u16, AttrKind)> {
        seq![(15u16, AttrKind::Bytes), (17u16, AttrKind::Bytes)]
    }
}

impl<'a> SendCmd<'a> for LinkCmd<'a> {
    const KEY: u16 = consts::BTRFS_SEND_C_LINK;

    open spec fn parse_requires(p: Seq<u8>) -> bool {
        true
    }

    open spec fn spec_parse_error(p: Seq<u8>) -> Option<ReceiveError> {
        match tlv_attrs(p, Self::spec_schema()) {
            Ok(_) => None,
            Err(e) => Some(e),
        }
    }

    open spec fn spec_parsed(p: Seq<u8>, c: Self) -> bool {
        match tlv_attrs(p, Self::spec_schema()) {
            Ok(v) => {
                c.path@ == p.subrange(v[0].0 as int, v[0].1 as int)
                    && c.path_link@ == p.subrange(v[1].0 as int, v[1].1 as int)
            },
            Err(_) => false,
        }
    }

    fn parse_tlv(payload: &'a [u8]) -> (r: IoResult<Self>) {
        let schema = [(15u16, AttrKind::Bytes), (17u16, AttrKind::Bytes)];
        assert(schema@ =~= Self::spec_schema());
        match parse_attrs(payload, schema.as_slice()) {
            Err(e) => Err(Error::Receive(e)),
            Ok(v) => {
                proof {
                    assert(forall|i: int| 0 <= i < v@.len() ==> slot_valid(payload@, schema@[i].1, #[trigger] v@[i]));
                }
                let path = slice_subrange(payload, v[0].0, v[0].1);
                let path_link = slice_subrange(payload, v[1].0, v[1].1);
                Ok(LinkCmd { path, path_link })
            },
        }
    }
}

/// Handled by, [`StreamHandler::unlink()`](super::handler::StreamHandler::unlink)
#[derive(Debug, Clone, Copy)]
pub struct UnlinkCmd<'a> {
    pub path: &'a [u8],
}

impl<'a> UnlinkCmd<'a> {
    /// Attribute types of this command and how their values decode, in field order.
    pub open spec fn spec_schema() -> Seq<(u16, AttrKind)> {
        seq![(15u16, AttrKind::Bytes)]
    }
}

impl<'a> SendCmd<'a> for UnlinkCmd<'a> {
    const KEY: u16 = consts::BTRFS_SEND_C_UNLINK;

    open spec fn parse_requires(p: Seq<u8>) -> bool {
        true
    }

    open spec fn spec_parse_error(p: Seq<u8>) -> Option<ReceiveError> {
        match tlv_attrs(p, Self::spec_schema()) {
            Ok(_) => None,
            Err(e) => Some(e),
        }
    }

    open spec fn spec_parsed(p: Seq<u8>, c: Self) -> bool {
        match tlv_attrs(p, Self::spec_schema()) {
            Ok(v) => {
                c.path@ == p.subrange(v[0].0 as int, v[0].1 as int)
            },
            Err(_) => false,
        }
    }

    fn parse_tlv(payload: &'a [u8]) -> (r: IoResult<Self>) {
        let schema = [(15u16, AttrKind::Bytes)];
        assert(schema@ =~= Self::spec_schema());
        match parse_attrs(payload, schema.as_slice()) {
            Err(e) => Err(Error::Receive(e)),
            Ok(v) => {
                proof {
                    assert(forall|i: int| 0 <= i < v@.len() ==> slot_valid(payload@, schema@[i].1, #[trigger] v@[i]));
                }
                let path = slice_subrange(payload, v[0].0, v[0].1);
                Ok(UnlinkCmd { path })
            },
        }
    }
}

/// Handled by, [`StreamHandler::rmdir()`](super::handler::StreamHandler::rmdir)
#[derive(Debug, Clone, Copy)]
pub struct RmdirCmd<'a> {
    pub path: &'a [u8],
}

impl<'a> RmdirCmd<'a> {
    /// Attribute types of this command and how their values decode, in field order.
    pub open spec fn spec_schema() -> Seq<(u16, AttrKind)> {
        seq![(15u16, AttrKind::Bytes)]
    }
}

impl<'a> SendCmd<'a> for RmdirCmd<'a> {
    const KEY: u16 = consts::BTRFS_SEND_C_RMDIR;

    open spec fn parse_requires(p: Seq<u8>) -> bool {
        true
    }

    open spec fn spec_parse_error(p: Seq<u8>) -> Option<ReceiveError> {
        match tlv_attrs(p, Self::spec_schema()) {
            Ok(_) => None,
            Err(e) => Some(e),
        }
    }

    open spec fn spec_parsed(p: Seq<u8>, c: Self) -> bool {
        match tlv_attrs(p, Self::spec_schema()) {
            Ok(v) => {
                c.path@ == p.subrange(v[0].0 as int, v[0].1 as int)
            },
            Err(_) => false,
        }
    }

    fn parse_tlv(payload: &'a [u8]) -> (r: IoResult<Self>) {
        let schema = [(15u16, AttrKind::Bytes)];
        assert(schema@ =~= Self::spec_schema());
        match parse_attrs(payload, schema.as_slice()) {
            Err(e) => Err(Error::Receive(e)),
            Ok(v) => {
                proof {
                    assert(forall|i: int| 0 <= i < v@.len() ==> slot_valid(payload@, schema@[i].1, #[trigger] v@[i]));
                }
                let path = slice_subrange(payload, v[0].0, v[0].1);
                Ok(RmdirCmd { path })
            },
        }
    }
}

/// Handled by, [`StreamHandler::set_xattr()`](super::handler::StreamHandler::set_xattr)
#[derive(Debug, Clone, Copy)]
pub struct SetXattrCmd<'a> {
    pub path: &'a [u8],
    pub xattr_name: &'a [u8],
    pub xattr_data: &'a [u8],
}

impl<'a> SetXattrCmd<'a> {
    /// Attribute types of this command and how their values decode, in field order.
    pub open spec fn spec_schema() -> Seq<(u16, AttrKind)> {
        seq![(15u16, AttrKind::Bytes), (13u16, AttrKind::Bytes), (14u16, AttrKind::Bytes)]
    }
}

impl<'a> SendCmd<'a> for SetXattrCmd<'a> {
    const KEY: u16 = consts::BTRFS_SEND_C_SET_XATTR;

    open spec fn parse_requires(p: Seq<u8>) -> bool {
        true
    }

    open spec fn spec_parse_error(p: Seq<u8>) -> Option<ReceiveError> {
        match tlv_attrs(p, Self::spec_schema()) {
            Ok(_) => None,
            Err(e) => Some(e),
        }
    }

    open spec fn spec_parsed(p: Seq<u8>, c: Self) -> bool {
        match tlv_attrs(p, Self::spec_schema()) {
            Ok(v) => {
                c.path@ == p.subrange(v[0].0 as int, v[0].1 as int)
                    && c.xattr_name@ == p.subrange(v[1].0 as int, v[1].1 as int)
                    && c.xattr_data@ == p.subrange(v[2].0 as int, v[2].1 as int)
            },
            Err(_) => false,
        }
    }

    fn parse_tlv(payload: &'a [u8]) -> (r: IoResult<Self>) {
        let schema = [(15u16, AttrKind::Bytes), (13u16, AttrKind::Bytes), (14u16, AttrKind::Bytes)];
        assert(schema@ =~= Self::spec_schema());
        match parse_attrs(payload, schema.as_slice()) {
            Err(e) => Err(Error::Receive(e)),
            Ok(v) => {
                proof {
                    assert(forall|i: int| 0 <= i < v@.len() ==> slot_valid(payload@, schema@[i].1, #[trigger] v@[i]));
                }
                let path = slice_subrange(payload, v[0].0, v[0].1);
                let xattr_name = slice_subrange(payload, v[1].0, v[1].1);
                let xattr_data = slice_subrange(payload, v[2].0, v[2].1);
                Ok(SetXattrCmd { path, xattr_name, xattr_data })
            },
        }
    }
}

/// Handled by, [`StreamHandler::remove_xattr()`](super::handler::StreamHandler::remove_xattr)
#[derive(Debug, Clone, Copy)]
pub struct RemoveXattrCmd<'a> {
    pub path: &'a [u8],
    pub xattr_name: &'a [u8],
}

impl<'a> RemoveXattrCmd<'a> {
    /// Attribute types of this command and how their values decode, in field order.
    pub open spec fn spec_schema() -> Seq<(u16, AttrKind)> {
        seq![(15u16, AttrKind::Bytes), (13u16, AttrKind::Bytes)]
    }
}

impl<'a> SendCmd<'a> for RemoveXattrCmd<'a> {
    const KEY: u16 = consts::BTRFS_SEND_C_REMOVE_XATTR;

    open spec fn parse_requires(p: Seq<u8>) -> bool {
        true
    }

    open spec fn spec_parse_error(p: Seq<u8>) -> Option<ReceiveError> {
        match tlv_attrs(p, Self::spec_schema()) {
            Ok(_) => None,
            Err(e) => Some(e),
        }
    }

    open spec fn spec_parsed(p: Seq<u8>, c: Self) -> bool {
        match tlv_attrs(p, Self::spec_schema()) {
            Ok(v) => {
                c.path@ == p.subrange(v[0].0 as int, v[0].1 as int)
                    && c.xattr_name@ == p.subrange(v[1].0 as int, v[1].1 as int)
            },
            Err(_) => false,
        }
    }

    fn parse_tlv(payload: &'a [u8]) -> (r: IoResult<Self>) {
        let schema = [(15u16, AttrKind::Bytes), (13u16, AttrKind::Bytes)];
        assert(schema@ =~= Self::spec_schema());
        match parse_attrs(payload, schema.as_slice()) {
            Err(e) => Err(Error::Receive(e)),
            Ok(v) => {
                proof {
                    assert(forall|i: int| 0 <= i < v@.len() ==> slot_valid(payload@, schema@[i].1, #[trigger] v@[i]));
                }
                let path = slice_subrange(payload, v[0].0, v[0].1);
                let xattr_name = slice_subrange(payload, v[1].0, v[1].1);
                Ok(RemoveXattrCmd { path, xattr_name })
            },
        }
    }
}

/// Handled by, [`StreamHandler::write()`](super::handler::StreamHandler::write)
#[derive(Debug, Clone, Copy)]
pub struct WriteCmd<'a> {
    pub path: &'a [u8],
    pub file_offset: u64,
    pub data: &'a [u8],
}

impl<'a> WriteCmd<'a> {
    /// Attribute types of this command and how their values decode, in field order.
    pub open spec fn spec_schema() -> Seq<(u16, AttrKind)> {
        seq![(15u16, AttrKind::Bytes), (18u16, AttrKind::U64), (19u16, AttrKind::Bytes)]
    }
}

impl<'a> SendCmd<'a> for WriteCmd<'a> {
    const KEY: u16 = consts::BTRFS_SEND_C_WRITE;

    open spec fn parse_requires(p: Seq<u8>) -> bool {
        true
    }

    open spec fn spec_parse_error(p: Seq<u8>) -> Option<ReceiveError> {
        match tlv_attrs(p, Self::spec_schema()) {
            Ok(_) => None,
            Err(e) => Some(e),
        }
    }

    open spec fn spec_parsed(p: Seq<u8>, c: Self) -> bool {
        match tlv_attrs(p, Self::spec_schema()) {
            Ok(v) => {
                c.path@ == p.subrange(v[0].0 as int, v[0].1 as int)
                    && c.file_offset == le64(p, v[1].0 as int)
                    && c.data@ == p.subrange(v[2].0 as int, v[2].1 as int)
            },
            Err(_) => false,
        }
    }

    fn parse_tlv(payload: &'a [u8]) -> (r: IoResult<Self>) {
        let schema = [(15u16, AttrKind::Bytes), (18u16, AttrKind::U64), (19u16, AttrKind::Bytes)];
        assert(schema@ =~= Self::spec_schema());
        match parse_attrs(payload, schema.as_slice()) {
            Err(e) => Err(Error::Receive(e)),
            Ok(v) => {
                proof {
                    assert(forall|i: int| 0 <= i < v@.len() ==> slot_valid(payload@, schema@[i].1, #[trigger] v@[i]));
                }
                let path = slice_subrange(payload, v[0].0, v[0].1);
                let file_offset = read_le64(payload, v[1].0);
                let data = slice_subrange(payload, v[2].0, v[2].1);
                Ok(WriteCmd { path, file_offset, data })
            },
        }
    }
}

/// Handled by, [`StreamHandler::clone()`](super::handler::StreamHandler::clone)
#[derive(Debug, Clone, Copy)]
pub struct CloneCmd<'a> {
    pub path: &'a [u8],
    pub file_offset: u64,
    pub clone_len: u64,
    pub clone_uuid: Uuid,
    pub clone_ctransid: u64,
    pub clone_path: &'a [u8],
    pub clone_offset: u64,
}

impl<'a> CloneCmd<'a> {
    /// Attribute types of this command and how their values decode, in field order.
    pub open spec fn spec_schema() -> Seq<(u16, AttrKind)> {
        seq![(15u16, AttrKind::Bytes), (18u16, AttrKind::U64), (24u16, AttrKind::U64), (20u16, AttrKind::Uuid), (21u16, AttrKind::U64), (22u16, AttrKind::Bytes), (23u16, AttrKind::U64)]
    }
}

impl<'a> SendCmd<'a> for CloneCmd<'a> {
    const KEY: u16 = consts::BTRFS_SEND_C_CLONE;

    open spec fn parse_requires(p: Seq<u8>) -> bool {
        true
    }

    open spec fn spec_parse_error(p: Seq<u8>) -> Option<ReceiveError> {
        match tlv_attrs(p, Self::spec_schema()) {
            Ok(_) => None,
            Err(e) => Some(e),
        }
    }

    open spec fn spec_parsed(p: Seq<u8>, c: Self) -> bool {
        match tlv_attrs(p, Self::spec_schema()) {
            Ok(v) => {
                c.path@ == p.subrange(v[0].0 as int, v[0].1 as int)
                    && c.file_offset == le64(p, v[1].0 as int)
                    && c.clone_len == le64(p, v[2].0 as int)
                    && c.clone_uuid@ == p.subrange(v[3].0 as int, v[3].0 + 16)
                    && c.clone_ctransid == le64(p, v[4].0 as int)
                    && c.clone_path@ == p.subrange(v[5].0 as int, v[5].1 as int)
                    && c.clone_offset == le64(p, v[6].0 as int)
            },
            Err(_) => false,
        }
    }

    fn parse_tlv(payload: &'a [u8]) -> (r: IoResult<Self>) {
        let schema = [(15u16, AttrKind::Bytes), (18u16, AttrKind::U64), (24u16, AttrKind::U64), (20u16, AttrKind::Uuid), (21u16, AttrKind::U64), (22u16, AttrKind::Bytes), (23u16, AttrKind::U64)];
        assert(schema@ =~= Self::spec_schema());
        match parse_attrs(payload, schema.as_slice()) {
            Err(e) => Err(Error::Receive(e)),
            Ok(v) => {
                proof {
                    assert(forall|i: int| 0 <= i < v@.len() ==> slot_valid(payload@, schema@[i].1, #[trigger] v@[i]));
                }
                let path = slice_subrange(payload, v[0].0, v[0].1);
                let file_offset = read_le64(payload, v[1].0);
                let clone_len = read_le64(payload, v[2].0);
                let clone_uuid = Uuid::read(payload, v[3].0);
                let clone_ctransid = read_le64(payload, v[4].0);
                let clone_path = slice_subrange(payload, v[5].0, v[5].1);
                let clone_offset = read_le64(payload, v[6].0);
                Ok(CloneCmd { path, file_offset, clone_len, clone_uuid, clone_ctransid, clone_path, clone_offset })
            },
        }
    }
}

/// Handled by, [`StreamHandler::truncate()`](super::handler::StreamHandler::truncate)
#[derive(Debug, Clone, Copy)]
pub struct TruncateCmd<'a> {
    pub path: &'a [u8],
    pub size: u64,
}

impl<'a> TruncateCmd<'a> {
    /// Attribute types of this command and how their values decode, in field order.
    pub open spec fn spec_schema() -> Seq<(u16, AttrKind)> {
        seq![(15u16, AttrKind::Bytes), (4u16, AttrKind::U64)]
    }
}

impl<'a> SendCmd<'a> for TruncateCmd<'a> {
    const KEY: u16 = consts::BTRFS_SEND_C_TRUNCATE;

    open spec fn parse_requires(p: Seq<u8>) -> bool {
        true
    }

    open spec fn spec_parse_error(p: Seq<u8>) -> Option<ReceiveError> {
        match tlv_attrs(p, Self::spec_schema()) {
            Ok(_) => None,
            Err(e) => Some(e),
        }
    }

    open spec fn spec_parsed(p: Seq<u8>, c: Self) -> bool {
        match tlv_attrs(p, Self::spec_schema()) {
            Ok(v) => {
                c.path@ == p.subrange(v[0].0 as int, v[0].1 as int)
                    && c.size == le64(p, v[1].0 as int)
            },
            Err(_) => false,
        }
    }

    fn parse_tlv(payload: &'a [u8]) -> (r: IoResult<Self>) {
        let schema = [(15u16, AttrKind::Bytes), (4u16, AttrKind::U64)];
        assert(schema@ =~= Self::spec_schema());
        match parse_attrs(payload, schema.as_slice()) {
            Err(e) => Err(Error::Receive(e)),
            Ok(v) => {
                proof {
                    assert(forall|i: int| 0 <= i < v@.len() ==> slot_valid(payload@, schema@[i].1, #[trigger] v@[i]));
                }
                let path = slice_subrange(payload, v[0].0, v[0].1);
                let size = read_le64(payload, v[1].0);
                Ok(TruncateCmd { path, size })
            },
        }
    }
}

/// Handled by, [`StreamHandler::chmod()`](super::handler::StreamHandler::chmod)
#[derive(Debug, Clone, Copy)]
pub struct ChmodCmd<'a> {
    pub path: &'a [u8],
    pub mode: u64,
}

impl<'a> ChmodCmd<'a> {
    /// Attribute types of this command and how their values decode, in field order.
    pub open spec fn spec_schema() -> Seq<(u16, AttrKind)> {
        seq![(15u16, AttrKind::Bytes), (5u16, AttrKind::U64)]
    }
}

impl<'a> SendCmd<'a> for ChmodCmd<'a> {
    const KEY: u16 = consts::BTRFS_SEND_C_CHMOD;

    open spec fn parse_requires(p: Seq<u8>) -> bool {
        true
    }

    open spec fn spec_parse_error(p: Seq<u8>) -> Option<ReceiveError> {
        match tlv_attrs(p, Self::spec_schema()) {
            Ok(_) => None,
            Err(e) => Some(e),
        }
    }

    open spec fn spec_parsed(p: Seq<u8>, c: Self) -> bool {
        match tlv_attrs(p, Self::spec_schema()) {
            Ok(v) => {
                c.path@ == p.subrange(v[0].0 as int, v[0].1 as int)
                    && c.mode == le64(p, v[1].0 as int)
            },
            Err(_) => false,
        }
    }

    fn parse_tlv(payload: &'a [u8]) -> (r: IoResult<Self>) {
        let schema = [(15u16, AttrKind::Bytes), (5u16, AttrKind::U64)];
        assert(schema@ =~= Self::spec_schema());
        match parse_attrs(payload, schema.as_slice()) {
            Err(e) => Err(Error::Receive(e)),
            Ok(v) => {
                proof {
                    assert(forall|i: int| 0 <= i < v@.len() ==> slot_valid(payload@, schema@[i].1, #[trigger] v@[i]));
                }
                let path = slice_subrange(payload, v[0].0, v[0].1);
                let mode = read_le64(payload, v[1].0);
                Ok(ChmodCmd { path, mode })
            },
        }
    }
}

/// Handled by, [`StreamHandler::chown()`](super::handler::StreamHandler::chown)
#[derive(Debug, Clone, Copy)]
pub struct ChownCmd<'a> {
    pub path: &'a [u8],
    pub uid: u64,
    pub gid: u64,
}

impl<'a> ChownCmd<'a> {
    /// Attribute types of this command and how their values decode, in field order.
    pub open spec fn spec_schema() -> Seq<(u16, AttrKind)> {
        seq![(15u16, AttrKind::Bytes), (6u16, AttrKind::U64), (7u16, AttrKind::U64)]
    }
}

impl<'a> SendCmd<'a> for ChownCmd<'a> {
    const KEY: u16 = consts::BTRFS_SEND_C_CHOWN;

    open spec fn parse_requires(p: Seq<u8>) -> bool {
        true
    }

    open spec fn spec_parse_error(p: Seq<u8>) -> Option<ReceiveError> {
        match tlv_attrs(p, Self::spec_schema()) {
            Ok(_) => None,
            Err(e) => Some(e),
        }
    }

    open spec fn spec_parsed(p: Seq<u8>, c: Self) -> bool {
        match tlv_attrs(p, Self::spec_schema()) {
            Ok(v) => {
                c.path@ == p.subrange(v[0].0 as int, v[0].1 as int)
                    && c.uid == le64(p, v[1].0 as int)
                    && c.gid == le64(p, v[2].0 as int)
            },
            Err(_) => false,
        }
    }

    fn parse_tlv(payload: &'a [u8]) -> (r: IoResult<Self>) {
        let schema = [(15u16, AttrKind::Bytes), (6u16, AttrKind::U64), (7u16, AttrKind::U64)];
        assert(schema@ =~= Self::spec_schema());
        match parse_attrs(payload, schema.as_slice()) {
            Err(e) => Err(Error::Receive(e)),
            Ok(v) => {
                proof {
                    assert(forall|i: int| 0 <= i < v@.len() ==> slot_valid(payload@, schema@[i].1, #[trigger] v@[i]));
                }
                let path = slice_subrange(payload, v[0].0, v[0].1);
                let uid = read_le64(payload, v[1].0);
                let gid = read_le64(payload, v[2].0);
                Ok(ChownCmd { path, uid, gid })
            },
        }
    }
}

/// Handled by, [`StreamHandler::utimes()`](super::handler::StreamHandler::utimes)
#[derive(Debug, Clone, Copy)]
pub struct UtimesCmd<'a> {
    pub path: &'a [u8],
    pub atime: Timespec,
    pub mtime: Timespec,
    pub ctime: Timespec,
}

impl<'a> UtimesCmd<'a> {
    /// Attribute types of this command and how their values decode, in field order.
    pub open spec fn spec_schema() -> Seq<(u16, AttrKind)> {
        seq![(15u16, AttrKind::Bytes), (11u16, AttrKind::Timespec), (10u16, AttrKind::Timespec), (9u16, AttrKind::Timespec)]
    }
}

impl<'a> SendCmd<'a> for UtimesCmd<'a> {
    const KEY: u16 = consts::BTRFS_SEND_C_UTIMES;

    open spec fn parse_requires(p: Seq<u8>) -> bool {
        true
    }

    open spec fn spec_parse_error(p: Seq<u8>) -> Option<ReceiveError> {
        match tlv_attrs(p, Self::spec_schema()) {
            Ok(_) => None,
            Err(e) => Some(e),
        }
    }

    open spec fn spec_parsed(p: Seq<u8>, c: Self) -> bool {
        match tlv_attrs(p, Self::spec_schema()) {
            Ok(v) => {
                c.path@ == p.subrange(v[0].0 as int, v[0].1 as int)
                    && c.atime == spec_timespec(p, v[1].0 as int)
                    && c.mtime == spec_timespec(p, v[2].0 as int)
                    && c.ctime == spec_timespec(p, v[3].0 as int)
            },
            Err(_) => false,
        }
    }

    fn parse_tlv(payload: &'a [u8]) -> (r: IoResult<Self>) {
        let schema = [(15u16, AttrKind::Bytes), (11u16, AttrKind::Timespec), (10u16, AttrKind::Timespec), (9u16, AttrKind::Timespec)];
        assert(schema@ =~= Self::spec_schema());
        match parse_attrs(payload, schema.as_slice()) {
            Err(e) => Err(Error::Receive(e)),
            Ok(v) => {
                proof {
                    assert(forall|i: int| 0 <= i < v@.len() ==> slot_valid(payload@, schema@[i].1, #[trigger] v@[i]));
                }
                let path = slice_subrange(payload, v[0].0, v[0].1);
                let atime = read_timespec(payload, v[1].0);
                let mtime = read_timespec(payload, v[2].0);
                let ctime = read_timespec(payload, v[3].0);
                Ok(UtimesCmd { path, atime, mtime, ctime })
            },
        }
    }
}

/// Handled by, [`StreamHandler::end()`](super::handler::StreamHandler::end)
#[derive(Debug, Clone, Copy)]
pub struct EndCmd;

impl<'a> SendCmd<'a> for EndCmd {
    const KEY: u16 = consts::BTRFS_SEND_C_END;

    open spec fn parse_requires(p: Seq<u8>) -> bool {
        true
    }

    open spec fn spec_parse_error(p: Seq<u8>) -> Option<ReceiveError> {
        None
    }

    open spec fn spec_parsed(p: Seq<u8>, c: Self) -> bool {
        true
    }

    fn parse_tlv(_stream: &'a [u8]) -> (r: IoResult<Self>) {
        Ok(EndCmd)
    }
}

/// Handled by, [`StreamHandler::update_extent()`](super::handler::StreamHandler::update_extent)
#[derive(Debug, Clone, Copy)]
pub struct UpdateExtentCmd<'a> {
    pub path: &'a [u8],
    pub file_offset: u64,
    pub size: u64,
}

impl<'a> UpdateExtentCmd<'a> {
    /// Attribute types of this command and how their values decode, in field order.
    pub open spec fn spec_schema() -> Seq<(u16, AttrKind)> {
        seq![(15u16, AttrKind::Bytes), (18u16, AttrKind::U64), (4u16, AttrKind::U64)]
    }
}

impl<'a> SendCmd<'a> for UpdateExtentCmd<'a> {
    const KEY: u16 = consts::BTRFS_SEND_C_UPDATE_EXTENT;

    open spec fn parse_requires(p: Seq<u8>) -> bool {
        true
    }

    open spec fn spec_parse_error(p: Seq<u8>) -> Option<ReceiveError> {
        match tlv_attrs(p, Self::spec_schema()) {
            Ok(_) => None,
            Err(e) => Some(e),
        }
    }

    open spec fn spec_parsed(p: Seq<u8>, c: Self) -> bool {
        match tlv_attrs(p, Self::spec_schema()) {
            Ok(v) => {
                c.path@ == p.subrange(v[0].0 as int, v[0].1 as int)
                    && c.file_offset == le64(p, v[1].0 as int)
                    && c.size == le64(p, v[2].0 as int)
            },
            Err(_) => false,
        }
    }

    fn parse_tlv(payload: &'a [u8]) -> (r: IoResult<Self>) {
        let schema = [(15u16, AttrKind::Bytes), (18u16, AttrKind::U64), (4u16, AttrKind::U64)];
        assert(schema@ =~= Self::spec_schema());
        match parse_attrs(payload, schema.as_slice()) {
            Err(e) => Err(Error::Receive(e)),
            Ok(v) => {
                proof {
                    assert(forall|i: int| 0 <= i < v@.len() ==> slot_valid(payload@, schema@[i].1, #[trigger] v@[i]));
                }
                let path = slice_subrange(payload, v[0].0, v[0].1);
                let file_offset = read_le64(payload, v[1].0);
                let size = read_le64(payload, v[2].0);
                Ok(UpdateExtentCmd { path, file_offset, size })
            },
        }
    }
}

/// Handled by, [`StreamHandler::fallocate()`](super::handler::StreamHandler::fallocate)
#[derive(Debug, Clone, Copy)]
pub struct FallocateCmd<'a> {
    pub path: &'a [u8],
    pub fallocate_mode: u32,
    pub file_offset: u64,
    pub size: u64,
}

impl<'a> FallocateCmd<'a> {
    /// Attribute types of this command and how their values decode, in field order.
    pub open spec fn spec_schema() -> Seq<(u16, AttrKind)> {
        seq![(15u16, AttrKind::Bytes), (25u16, AttrKind::U32), (18u16, AttrKind::U64), (4u16, AttrKind::U64)]
    }
}

impl<'a> SendCmd<'a> for FallocateCmd<'a> {
    const KEY: u16 = consts::BTRFS_SEND_C_FALLOCATE;

    open spec fn parse_requires(p: Seq<u8>) -> bool {
        true
    }

    open spec fn spec_parse_error(p: Seq<u8>) -> Option<ReceiveError> {
        match tlv_attrs(p, Self::spec_schema()) {
            Ok(_) => None,
            Err(e) => Some(e),
        }
    }

    open spec fn spec_parsed(p: Seq<u8>, c: Self) -> bool {
        match tlv_attrs(p, Self::spec_schema()) {
            Ok(v) => {
                c.path@ == p.subrange(v[0].0 as int, v[0].1 as int)
                    && c.fallocate_mode == le32(p, v[1].0 as int)
                    && c.file_offset == le64(p, v[2].0 as int)
                    && c.size == le64(p, v[3].0 as int)
            },
            Err(_) => false,
        }
    }

    fn parse_tlv(payload: &'a [u8]) -> (r: IoResult<Self>) {
        let schema = [(15u16, AttrKind::Bytes), (25u16, AttrKind::U32), (18u16, AttrKind::U64), (4u16, AttrKind::U64)];
        assert(schema@ =~= Self::spec_schema());
        match parse_attrs(payload, schema.as_slice()) {
            Err(e) => Err(Error::Receive(e)),
            Ok(v) => {
                proof {
                    assert(forall|i: int| 0 <= i < v@.len() ==> slot_valid(payload@, schema@[i].1, #[trigger] v@[i]));
                }
                let path = slice_subrange(payload, v[0].0, v[0].1);
                let fallocate_mode = read_le32(payload, v[1].0);
                let file_offset = read_le64(payload, v[2].0);
                let size = read_le64(payload, v[3].0);
                Ok(FallocateCmd { path, fallocate_mode, file_offset, size })
            },
        }
    }
}

/// Handled by, [`StreamHandler::fileattr()`](super::handler::StreamHandler::fileattr)
#[derive(Debug, Clone, Copy)]
pub struct FileattrCmd<'a> {
    pub path: &'a [u8],
    pub fileattr: u64,
}

impl<'a> FileattrCmd<'a> {
    /// Attribute types of this command and how their values decode, in field order.
    pub open spec fn spec_schema() -> Seq<(u16, AttrKind)> {
        seq![(15u16, AttrKind::Bytes), (26u16, AttrKind::U64)]
    }
}

impl<'a> SendCmd<'a> for FileattrCmd<'a> {
    const KEY: u16 = consts::BTRFS_SEND_C_FILEATTR;

    open spec fn parse_requires(p: Seq<u8>) -> bool {
        true
    }

    open spec fn spec_parse_error(p: Seq<u8>) -> Option<ReceiveError> {
        match tlv_attrs(p, Self::spec_schema()) {
            Ok(_) => None,
            Err(e) => Some(e),
        }
    }

    open spec fn spec_parsed(p: Seq<u8>, c: Self) -> bool {
        match tlv_attrs(p, Self::spec_schema()) {
            Ok(v) => {
                c.path@ == p.subrange(v[0].0 as int, v[0].1 as int)
                    && c.fileattr == le64(p, v[1].0 as int)
            },
            Err(_) => false,
        }
    }

    fn parse_tlv(payload: &'a [u8]) -> (r: IoResult<Self>) {
        let schema = [(15u16, AttrKind::Bytes), (26u16, AttrKind::U64)];
        assert(schema@ =~= Self::spec_schema());
        match parse_attrs(payload, schema.as_slice()) {
            Err(e) => Err(Error::Receive(e)),
            Ok(v) => {
                proof {
                    assert(forall|i: int| 0 <= i < v@.len() ==> slot_valid(payload@, schema@[i].1, #[trigger] v@[i]));
                }
                let path = slice_subrange(payload, v[0].0, v[0].1);
                let fileattr = read_le64(payload, v[1].0);
                Ok(FileattrCmd { path, fileattr })
            },
        }
    }
}

impl<'a> WriteCmd<'a> {
    /// Attribute types of a version 2 write command, other than the data attribute.
    pub open spec fn spec_schema_v2() -> Seq<(u16, AttrKind)> {
        seq![(15u16, AttrKind::Bytes), (18u16, AttrKind::U64)]
    }
}

impl<'a> SendDataCmd<'a> for WriteCmd<'a> {
    open spec fn parse_v2_requires(p: Seq<u8>) -> bool {
        !(tlv_v2(p, Self::spec_schema_v2()) is Panic)
    }

    open spec fn spec_parse_v2_error(p: Seq<u8>) -> Option<ReceiveError> {
        match tlv_v2(p, Self::spec_schema_v2()) {
            ScanV2::Fail(e) => Some(e),
            ScanV2::Done(v, d) => if v[0] is Some && v[1] is Some && d is Some {
                None
            } else {
                Some(ReceiveError::MissingAttributes)
            },
            ScanV2::Panic => Some(ReceiveError::MissingAttributes),
        }
    }

    open spec fn spec_parsed_v2(p: Seq<u8>, c: Self) -> bool {
        match tlv_v2(p, Self::spec_schema_v2()) {
            ScanV2::Done(v, d) => {
                &&& v[0] matches Some(s) && c.path@ == p.subrange(s.0 as int, s.1 as int)
                &&& v[1] matches Some(s) && c.file_offset == le64(p, s.0 as int)
                &&& d matches Some(s) && c.data@ == p.subrange(s as int, p.len() as int)
            },
            _ => false,
        }
    }

    fn parse_tlv_v2(payload: &'a [u8]) -> (r: IoResult<Self>) {
        let schema = [(15u16, AttrKind::Bytes), (18u16, AttrKind::U64)];
        assert(schema@ =~= Self::spec_schema_v2());
        match parse_attrs_v2(payload, schema.as_slice()) {
            Err(e) => Err(Error::Receive(e)),
            Ok((v, d)) => {
                proof {
                    assert(v@[0] is Some ==> slot_valid(payload@, schema@[0].1, v@[0].unwrap()));
                    assert(v@[1] is Some ==> slot_valid(payload@, schema@[1].1, v@[1].unwrap()));
                }
                match (v[0], v[1], d) {
                    (Some(path), Some(file_offset), Some(data)) => {
                        let path = slice_subrange(payload, path.0, path.1);
                        let file_offset = read_le64(payload, file_offset.0);
                        let data = slice_subrange(payload, data, payload.len());
                        Ok(WriteCmd { path, file_offset, data })
                    },
                    _ => Err(Error::Receive(ReceiveError::MissingAttributes)),
                }
            },
        }
    }
}

/// Handled by, [`StreamHandler::encoded_write()`](super::handler::StreamHandler::encoded_write)
#[derive(Debug, Clone, Copy)]
pub struct EncodedWriteCmd<'a> {
    pub path: &'a [u8],
    pub file_offset: u64,
    pub unencoded_file_len: u64,
    pub unencoded_len: u64,
    pub unencoded_offset: u64,
    pub compression: Option<u32>,
    pub encryption: Option<u32>,
    pub data: &'a [u8],
}

impl<'a> EncodedWriteCmd<'a> {
    /// Attribute types of an encoded write command, other than the data attribute.
    pub open spec fn spec_schema_v2() -> Seq<(u16, AttrKind)> {
        seq![
            (15u16, AttrKind::Bytes),
            (18u16, AttrKind::U64),
            (27u16, AttrKind::U64),
            (28u16, AttrKind::U64),
            (29u16, AttrKind::U64),
            (30u16, AttrKind::U32),
            (31u16, AttrKind::U32),
        ]
    }
}

/// The `u32` that an optional slot holds, if it is filled.
pub open spec fn spec_opt_le32(p: Seq<u8>, slot: Option<(usize, usize)>) -> Option<u32> {
    match slot {
        Some(s) => Some(le32(p, s.0 as int)),
        None => None,
    }
}

impl<'a> SendCmd<'a> for EncodedWriteCmd<'a> {
    const KEY: u16 = consts::BTRFS_SEND_C_ENCODED_WRITE;

    /// The encoded write command only exists in version 2 streams.
    open spec fn parse_requires(p: Seq<u8>) -> bool {
        false
    }

    open spec fn spec_parse_error(p: Seq<u8>) -> Option<ReceiveError> {
        Some(ReceiveError::UnexpectedCommand)
    }

    open spec fn spec_parsed(p: Seq<u8>, c: Self) -> bool {
        false
    }

    fn parse_tlv(_stream: &'a [u8]) -> (r: IoResult<Self>) {
        Err(Error::Receive(ReceiveError::UnexpectedCommand))
    }
}

impl<'a> SendDataCmd<'a> for EncodedWriteCmd<'a> {
    open spec fn parse_v2_requires(p: Seq<u8>) -> bool {
        !(tlv_v2(p, Self::spec_schema_v2()) is Panic)
    }

    open spec fn spec_parse_v2_error(p: Seq<u8>) -> Option<ReceiveError> {
        match tlv_v2(p, Self::spec_schema_v2()) {
            ScanV2::Fail(e) => Some(e),
            ScanV2::Done(v, d) => if v[0] is Some && v[1] is Some && v[2] is Some && v[3] is Some
                && v[4] is Some && d is Some {
                None
            } else {
                Some(ReceiveError::MissingAttributes)
            },
            ScanV2::Panic => Some(ReceiveError::MissingAttributes),
        }
    }

    open spec fn spec_parsed_v2(p: Seq<u8>, c: Self) -> bool {
        match tlv_v2(p, Self::spec_schema_v2()) {
            ScanV2::Done(v, d) => {
                &&& v[0] matches Some(s) && c.path@ == p.subrange(s.0 as int, s.1 as int)
                &&& v[1] matches Some(s) && c.file_offset == le64(p, s.0 as int)
                &&& v[2] matches Some(s) && c.unencoded_file_len == le64(p, s.0 as int)
                &&& v[3] matches Some(s) && c.unencoded_len == le64(p, s.0 as int)
                &&& v[4] matches Some(s) && c.unencoded_offset == le64(p, s.0 as int)
                &&& c.compression == spec_opt_le32(p, v[5])
                &&& c.encryption == spec_opt_le32(p, v[6])
                &&& d matches Some(s) && c.data@ == p.subrange(s as int, p.len() as int)
            },
            _ => false,
        }
    }

    fn parse_tlv_v2(payload: &'a [u8]) -> (r: IoResult<Self>) {
        let schema = [
            (15u16, AttrKind::Bytes),
            (18u16, AttrKind::U64),
            (27u16, AttrKind::U64),
            (28u16, AttrKind::U64),
            (29u16, AttrKind::U64),
            (30u16, AttrKind::U32),
            (31u16, AttrKind::U32),
        ];
        assert(schema@ =~= Self::spec_schema_v2());
        match parse_attrs_v2(payload, schema.as_slice()) {
            Err(e) => Err(Error::Receive(e)),
            Ok((v, d)) => {
                proof {
                    assert(forall|i: int|
                        0 <= i < 7 && (#[trigger] v@[i]) is Some ==> slot_valid(
                            payload@,
                            schema@[i].1,
                            v@[i].unwrap(),
                        ));
                }
                let compression = match v[5] {
                    Some(s) => {
                        assert(v@[5] is Some);
                        Some(read_le32(payload, s.0))
                    },
                    None => None,
                };
                let encryption = match v[6] {
                    Some(s) => {
                        assert(v@[6] is Some);
                        Some(read_le32(payload, s.0))
                    },
                    None => None,
                };
                match (v[0], v[1], v[2], v[3], v[4], d) {
                    (
                        Some(path),
                        Some(file_offset),
                        Some(unencoded_file_len),
                        Some(unencoded_len),
                        Some(unencoded_offset),
                        Some(data),
                    ) => {
                        assert(v@[0] is Some && v@[1] is Some && v@[2] is Some && v@[3] is Some
                            && v@[4] is Some);
                        let path = slice_subrange(payload, path.0, path.1);
                        let file_offset = read_le64(payload, file_offset.0);
                        let unencoded_file_len = read_le64(payload, unencoded_file_len.0);
                        let unencoded_len = read_le64(payload, unencoded_len.0);
                        let unencoded_offset = read_le64(payload, unencoded_offset.0);
                        let data = slice_subrange(payload, data, payload.len());
                        Ok(EncodedWriteCmd {
                            path,
                            file_offset,
                            unencoded_file_len,
                            unencoded_len,
                            unencoded_offset,
                            compression,
                            encryption,
                            data,
                        })
                    },
                    _ => Err(Error::Receive(ReceiveError::MissingAttributes)),
                }
            },
        }
    }
}



/// Each field of a subvolume command is read from the last attribute of the type that names it: `path` from `PATH`, `ctransid` from `CTRANSID`, `uuid` from `UUID`.
pub proof fn lemma_subvol_fields(p: Seq<u8>, c: SubvolCmd)
    requires
        SubvolCmd::spec_parsed(p, c),
    ensures
        attr_range(p, SendAttr::PATH as u16) is Some,
        attr_range(p, SendAttr::CTRANSID as u16) is Some,
        attr_range(p, SendAttr::UUID as u16) is Some,
        c.path@ == attr_bytes(p, SendAttr::PATH as u16),
        c.ctransid == le64(p, attr_start(p, SendAttr::CTRANSID as u16)),
        c.uuid@ == p.subrange(attr_start(p, SendAttr::UUID as u16), attr_start(p, SendAttr::UUID as u16) + 16),
{
    let sc = SubvolCmd::spec_schema();
    reveal_with_fuel(schema_slot_from, 4);
    lemma_tlv_attrs_last(p, sc, 0);
    lemma_tlv_attrs_last(p, sc, 1);
    lemma_tlv_attrs_last(p, sc, 2);
}

/// Each field of a snapshot command is read from the last attribute of the type that names it: `path` from `PATH`, `uuid` from `UUID`, `ctransid` from `CTRANSID`, `clone_uuid` from `CLONE_UUID`, `clone_ctransid` from `CLONE_CTRANSID`.
pub proof fn lemma_snapshot_fields(p: Seq<u8>, c: SnapshotCmd)
    requires
        SnapshotCmd::spec_parsed(p, c),
    ensures
        attr_range(p, SendAttr::PATH as u16) is Some,
        attr_range(p, SendAttr::UUID as u16) is Some,
        attr_range(p, SendAttr::CTRANSID as u16) is Some,
        attr_range(p, SendAttr::CLONE_UUID as u16) is Some,
        attr_range(p, SendAttr::CLONE_CTRANSID as u16) is Some,
        c.path@ == attr_bytes(p, SendAttr::PATH as u16),
        c.uuid@ == p.subrange(attr_start(p, SendAttr::UUID as u16), attr_start(p, SendAttr::UUID as u16) + 16),
        c.ctransid == le64(p, attr_start(p, SendAttr::CTRANSID as u16)),
        c.clone_uuid@ == p.subrange(attr_start(p, SendAttr::CLONE_UUID as u16), attr_start(p, SendAttr::CLONE_UUID as u16) + 16),
        c.clone_ctransid == le64(p, attr_start(p, SendAttr::CLONE_CTRANSID as u16)),
{
    let sc = SnapshotCmd::spec_schema();
    reveal_with_fuel(schema_slot_from, 6);
    lemma_tlv_attrs_last(p, sc, 0);
    lemma_tlv_attrs_last(p, sc, 1);
    lemma_tlv_attrs_last(p, sc, 2);
    lemma_tlv_attrs_last(p, sc, 3);
    lemma_tlv_attrs_last(p, sc, 4);
}

/// Each field of a command that creates a file is read from the last attribute of the type that names it: `path` from `PATH`, `ino` from `INO`.
pub proof fn lemma_mkfile_fields(p: Seq<u8>, c: MkfileCmd)
    requires
        MkfileCmd::spec_parsed(p, c),
    ensures
        attr_range(p, SendAttr::PATH as u16) is Some,
        attr_range(p, SendAttr::INO as u16) is Some,
        c.path@ == attr_bytes(p, SendAttr::PATH as u16),
        c.ino == le64(p, attr_start(p, SendAttr::INO as u16)),
{
    let sc = MkfileCmd::spec_schema();
    reveal_with_fuel(schema_slot_from, 3);
    lemma_tlv_attrs_last(p, sc, 0);
    lemma_tlv_attrs_last(p, sc, 1);
}

/// Each field of a command that creates a directory is read from the last attribute of the type that names it: `path` from `PATH`, `ino` from `INO`.
pub proof fn lemma_mkdir_fields(p: Seq<u8>, c: MkdirCmd)
    requires
        MkdirCmd::spec_parsed(p, c),
    ensures
        attr_range(p, SendAttr::PATH as u16) is Some,
        attr_range(p, SendAttr::INO as u16) is Some,
        c.path@ == attr_bytes(p, SendAttr::PATH as u16),
        c.ino == le64(p, attr_start(p, SendAttr::INO as u16)),
{
    let sc = MkdirCmd::spec_schema();
    reveal_with_fuel(schema_slot_from, 3);
    lemma_tlv_attrs_last(p, sc, 0);
    lemma_tlv_attrs_last(p, sc, 1);
}

/// Each field of a command that creates a device node is read from the last attribute of the type that names it: `path` from `PATH`, `mode` from `MODE`, `rdev` from `RDEV`.
pub proof fn lemma_mknod_fields(p: Seq<u8>, c: MknodCmd)
    requires
        MknodCmd::spec_parsed(p, c),
    ensures
        attr_range(p, SendAttr::PATH as u16) is Some,
        attr_range(p, SendAttr::MODE as u16) is Some,
        attr_range(p, SendAttr::RDEV as u16) is Some,
        c.path@ == attr_bytes(p, SendAttr::PATH as u16),
        c.mode == le64(p, attr_start(p, SendAttr::MODE as u16)),
        c.rdev == le64(p, attr_start(p, SendAttr::RDEV as u16)),
{
    let sc = MknodCmd::spec_schema();
    reveal_with_fuel(schema_slot_from, 4);
    lemma_tlv_attrs_last(p, sc, 0);
    lemma_tlv_attrs_last(p, sc, 1);
    lemma_tlv_attrs_last(p, sc, 2);
}

/// Each field of a command that creates a fifo is read from the last attribute of the type that names it: `path` from `PATH`, `ino` from `INO`.
pub proof fn lemma_mkfifo_fields(p: Seq<u8>, c: MkfifoCmd)
    requires
        MkfifoCmd::spec_parsed(p, c),
    ensures
        attr_range(p, SendAttr::PATH as u16) is Some,
        attr_range(p, SendAttr::INO as u16) is Some,
        c.path@ == attr_bytes(p, SendAttr::PATH as u16),
        c.ino == le64(p, attr_start(p, SendAttr::INO as u16)),
{
    let sc = MkfifoCmd::spec_schema();
    reveal_with_fuel(schema_slot_from, 3);
    lemma_tlv_attrs_last(p, sc, 0);
    lemma_tlv_attrs_last(p, sc, 1);
}

/// Each field of a command that creates a socket is read from the last attribute of the type that names it: `path` from `PATH`, `ino` from `INO`.
pub proof fn lemma_mksock_fields(p: Seq<u8>, c: MksockCmd)
    requires
        MksockCmd::spec_parsed(p, c),
    ensures
        attr_range(p, SendAttr::PATH as u16) is Some,
        attr_range(p, SendAttr::INO as u16) is Some,
        c.path@ == attr_bytes(p, SendAttr::PATH as u16),
        c.ino == le64(p, attr_start(p, SendAttr::INO as u16)),
{
    let sc = MksockCmd::spec_schema();
    reveal_with_fuel(schema_slot_from, 3);
    lemma_tlv_attrs_last(p, sc, 0);
    lemma_tlv_attrs_last(p, sc, 1);
}

/// Each field of a symlink command is read from the last attribute of the type that names it: `path` from `PATH`, `ino` from `INO`, `path_link` from `PATH_LINK`.
pub proof fn lemma_symlink_fields(p: Seq<u8>, c: SymlinkCmd)
    requires
        SymlinkCmd::spec_parsed(p, c),
    ensures
        attr_range(p, SendAttr::PATH as u16) is Some,
        attr_range(p, SendAttr::INO as u16) is Some,
        attr_range(p, SendAttr::PATH_LINK as u16) is Some,
        c.path@ == attr_bytes(p, SendAttr::PATH as u16),
        c.ino == le64(p, attr_start(p, SendAttr::INO as u16)),
        c.path_link@ == attr_bytes(p, SendAttr::PATH_LINK as u16),
{
    let sc = SymlinkCmd::spec_schema();
    reveal_with_fuel(schema_slot_from, 4);
    lemma_tlv_attrs_last(p, sc, 0);
    lemma_tlv_attrs_last(p, sc, 1);
    lemma_tlv_attrs_last(p, sc, 2);
}

/// Each field of a rename command is read from the last attribute of the type that names it: `path` from `PATH`, `path_to` from `PATH_TO`.
pub proof fn lemma_rename_fields(p: Seq<u8>, c: RenameCmd)
    requires
        RenameCmd::spec_parsed(p, c),
    ensures
        attr_range(p, SendAttr::PATH as u16) is Some,
        attr_range(p, SendAttr::PATH_TO as u16) is Some,
        c.path@ == attr_bytes(p, SendAttr::PATH as u16),
        c.path_to@ == attr_bytes(p, SendAttr::PATH_TO as u16),
{
    let sc = RenameCmd::spec_schema();
    reveal_with_fuel(schema_slot_from, 3);
    lemma_tlv_attrs_last(p, sc, 0);
    lemma_tlv_attrs_last(p, sc, 1);
}

/// Each field of a link command is read from the last attribute of the type that names it: `path` from `PATH`, `path_link` from `PATH_LINK`.
pub proof fn lemma_link_fields(p: Seq<u8>, c: LinkCmd)
    requires
        LinkCmd::spec_parsed(p, c),
    ensures
        attr_range(p, SendAttr::PATH as u16) is Some,
        attr_range(p, SendAttr::PATH_LINK as u16) is Some,
        c.path@ == attr_bytes(p, SendAttr::PATH as u16),
        c.path_link@ == attr_bytes(p, SendAttr::PATH_LINK as u16),
{
    let sc = LinkCmd::spec_schema();
    reveal_with_fuel(schema_slot_from, 3);
    lemma_tlv_attrs_last(p, sc, 0);
    lemma_tlv_attrs_last(p, sc, 1);
}

/// Each field of an unlink command is read from the last attribute of the type that names it: `path` from `PATH`.
pub proof fn lemma_unlink_fields(p: Seq<u8>, c: UnlinkCmd)
    requires
        UnlinkCmd::spec_parsed(p, c),
    ensures
        attr_range(p, SendAttr::PATH as u16) is Some,
        c.path@ == attr_bytes(p, SendAttr::PATH as u16),
{
    let sc = UnlinkCmd::spec_schema();
    reveal_with_fuel(schema_slot_from, 2);
    lemma_tlv_attrs_last(p, sc, 0);
}

/// Each field of a command that removes a directory is read from the last attribute of the type that names it: `path` from `PATH`.
pub proof fn lemma_rmdir_fields(p: Seq<u8>, c: RmdirCmd)
    requires
        RmdirCmd::spec_parsed(p, c),
    ensures
        attr_range(p, SendAttr::PATH as u16) is Some,
        c.path@ == attr_bytes(p, SendAttr::PATH as u16),
{
    let sc = RmdirCmd::spec_schema();
    reveal_with_fuel(schema_slot_from, 2);
    lemma_tlv_attrs_last(p, sc, 0);
}

/// Each field of a command that sets an extended attribute is read from the last attribute of the type that names it: `path` from `PATH`, `xattr_name` from `XATTR_NAME`, `xattr_data` from `XATTR_DATA`.
pub proof fn lemma_set_xattr_fields(p: Seq<u8>, c: SetXattrCmd)
    requires
        SetXattrCmd::spec_parsed(p, c),
    ensures
        attr_range(p, SendAttr::PATH as u16) is Some,
        attr_range(p, SendAttr::XATTR_NAME as u16) is Some,
        attr_range(p, SendAttr::XATTR_DATA as u16) is Some,
        c.path@ == attr_bytes(p, SendAttr::PATH as u16),
        c.xattr_name@ == attr_bytes(p, SendAttr::XATTR_NAME as u16),
        c.xattr_data@ == attr_bytes(p, SendAttr::XATTR_DATA as u16),
{
    let sc = SetXattrCmd::spec_schema();
    reveal_with_fuel(schema_slot_from, 4);
    lemma_tlv_attrs_last(p, sc, 0);
    lemma_tlv_attrs_last(p, sc, 1);
    lemma_tlv_attrs_last(p, sc, 2);
}

/// Each field of a command that removes an extended attribute is read from the last attribute of the type that names it: `path` from `PATH`, `xattr_name` from `XATTR_NAME`.
pub proof fn lemma_remove_xattr_fields(p: Seq<u8>, c: RemoveXattrCmd)
    requires
        RemoveXattrCmd::spec_parsed(p, c),
    ensures
        attr_range(p, SendAttr::PATH as u16) is Some,
        attr_range(p, SendAttr::XATTR_NAME as u16) is Some,
        c.path@ == attr_bytes(p, SendAttr::PATH as u16),
        c.xattr_name@ == attr_bytes(p, SendAttr::XATTR_NAME as u16),
{
    let sc = RemoveXattrCmd::spec_schema();
    reveal_with_fuel(schema_slot_from, 3);
    lemma_tlv_attrs_last(p, sc, 0);
    lemma_tlv_attrs_last(p, sc, 1);
}

/// Each field of a version 1 write command is read from the last attribute of the type that names it: `path` from `PATH`, `file_offset` from `FILE_OFFSET`, `data` from `DATA`.
pub proof fn lemma_write_fields(p: Seq<u8>, c: WriteCmd)
    requires
        WriteCmd::spec_parsed(p, c),
    ensures
        attr_range(p, SendAttr::PATH as u16) is Some,
        attr_range(p, SendAttr::FILE_OFFSET as u16) is Some,
        attr_range(p, SendAttr::DATA as u16) is Some,
        c.path@ == attr_bytes(p, SendAttr::PATH as u16),
        c.file_offset == le64(p, attr_start(p, SendAttr::FILE_OFFSET as u16)),
        c.data@ == attr_bytes(p, SendAttr::DATA as u16),
{
    let sc = WriteCmd::spec_schema();
    reveal_with_fuel(schema_slot_from, 4);
    lemma_tlv_attrs_last(p, sc, 0);
    lemma_tlv_attrs_last(p, sc, 1);
    lemma_tlv_attrs_last(p, sc, 2);
}

/// Each field of a clone command is read from the last attribute of the type that names it: `path` from `PATH`, `file_offset` from `FILE_OFFSET`, `clone_len` from `CLONE_LEN`, `clone_uuid` from `CLONE_UUID`, `clone_ctransid` from `CLONE_CTRANSID`, `clone_path` from `CLONE_PATH`, `clone_offset` from `CLONE_OFFSET`.
pub proof fn lemma_clone_fields(p: Seq<u8>, c: CloneCmd)
    requires
        CloneCmd::spec_parsed(p, c),
    ensures
        attr_range(p, SendAttr::PATH as u16) is Some,
        attr_range(p, SendAttr::FILE_OFFSET as u16) is Some,
        attr_range(p, SendAttr::CLONE_LEN as u16) is Some,
        attr_range(p, SendAttr::CLONE_UUID as u16) is Some,
        attr_range(p, SendAttr::CLONE_CTRANSID as u16) is Some,
        attr_range(p, SendAttr::CLONE_PATH as u16) is Some,
        attr_range(p, SendAttr::CLONE_OFFSET as u16) is Some,
        c.path@ == attr_bytes(p, SendAttr::PATH as u16),
        c.file_offset == le64(p, attr_start(p, SendAttr::FILE_OFFSET as u16)),
        c.clone_len == le64(p, attr_start(p, SendAttr::CLONE_LEN as u16)),
        c.clone_uuid@ == p.subrange(attr_start(p, SendAttr::CLONE_UUID as u16), attr_start(p, SendAttr::CLONE_UUID as u16) + 16),
        c.clone_ctransid == le64(p, attr_start(p, SendAttr::CLONE_CTRANSID as u16)),
        c.clone_path@ == attr_bytes(p, SendAttr::CLONE_PATH as u16),
        c.clone_offset == le64(p, attr_start(p, SendAttr::CLONE_OFFSET as u16)),
{
    let sc = CloneCmd::spec_schema();
    reveal_with_fuel(schema_slot_from, 8);
    lemma_tlv_attrs_last(p, sc, 0);
    lemma_tlv_attrs_last(p, sc, 1);
    lemma_tlv_attrs_last(p, sc, 2);
    lemma_tlv_attrs_last(p, sc, 3);
    lemma_tlv_attrs_last(p, sc, 4);
    lemma_tlv_attrs_last(p, sc, 5);
    lemma_tlv_attrs_last(p, sc, 6);
}

/// Each field of a truncate command is read from the last attribute of the type that names it: `path` from `PATH`, `size` from `SIZE`.
pub proof fn lemma_truncate_fields(p: Seq<u8>, c: TruncateCmd)
    requires
        TruncateCmd::spec_parsed(p, c),
    ensures
        attr_range(p, SendAttr::PATH as u16) is Some,
        attr_range(p, SendAttr::SIZE as u16) is Some,
        c.path@ == attr_bytes(p, SendAttr::PATH as u16),
        c.size == le64(p, attr_start(p, SendAttr::SIZE as u16)),
{
    let sc = TruncateCmd::spec_schema();
    reveal_with_fuel(schema_slot_from, 3);
    lemma_tlv_attrs_last(p, sc, 0);
    lemma_tlv_attrs_last(p, sc, 1);
}

/// Each field of a chmod command is read from the last attribute of the type that names it: `path` from `PATH`, `mode` from `MODE`.
pub proof fn lemma_chmod_fields(p: Seq<u8>, c: ChmodCmd)
    requires
        ChmodCmd::spec_parsed(p, c),
    ensures
        attr_range(p, SendAttr::PATH as u16) is Some,
        attr_range(p, SendAttr::MODE as u16) is Some,
        c.path@ == attr_bytes(p, SendAttr::PATH as u16),
        c.mode == le64(p, attr_start(p, SendAttr::MODE as u16)),
{
    let sc = ChmodCmd::spec_schema();
    reveal_with_fuel(schema_slot_from, 3);
    lemma_tlv_attrs_last(p, sc, 0);
    lemma_tlv_attrs_last(p, sc, 1);
}

/// Each field of a chown command is read from the last attribute of the type that names it: `path` from `PATH`, `uid` from `UID`, `gid` from `GID`.
pub proof fn lemma_chown_fields(p: Seq<u8>, c: ChownCmd)
    requires
        ChownCmd::spec_parsed(p, c),
    ensures
        attr_range(p, SendAttr::PATH as u16) is Some,
        attr_range(p, SendAttr::UID as u16) is Some,
        attr_range(p, SendAttr::GID as u16) is Some,
        c.path@ == attr_bytes(p, SendAttr::PATH as u16),
        c.uid == le64(p, attr_start(p, SendAttr::UID as u16)),
        c.gid == le64(p, attr_start(p, SendAttr::GID as u16)),
{
    let sc = ChownCmd::spec_schema();
    reveal_with_fuel(schema_slot_from, 4);
    lemma_tlv_attrs_last(p, sc, 0);
    lemma_tlv_attrs_last(p, sc, 1);
    lemma_tlv_attrs_last(p, sc, 2);
}

/// Each field of a utimes command is read from the last attribute of the type that names it: `path` from `PATH`, `atime` from `ATIME`, `mtime` from `MTIME`, `ctime` from `CTIME`.
pub proof fn lemma_utimes_fields(p: Seq<u8>, c: UtimesCmd)
    requires
        UtimesCmd::spec_parsed(p, c),
    ensures
        attr_range(p, SendAttr::PATH as u16) is Some,
        attr_range(p, SendAttr::ATIME as u16) is Some,
        attr_range(p, SendAttr::MTIME as u16) is Some,
        attr_range(p, SendAttr::CTIME as u16) is Some,
        c.path@ == attr_bytes(p, SendAttr::PATH as u16),
        c.atime == spec_timespec(p, attr_start(p, SendAttr::ATIME as u16)),
        c.mtime == spec_timespec(p, attr_start(p, SendAttr::MTIME as u16)),
        c.ctime == spec_timespec(p, attr_start(p, SendAttr::CTIME as u16)),
{
    let sc = UtimesCmd::spec_schema();
    reveal_with_fuel(schema_slot_from, 5);
    lemma_tlv_attrs_last(p, sc, 0);
    lemma_tlv_attrs_last(p, sc, 1);
    lemma_tlv_attrs_last(p, sc, 2);
    lemma_tlv_attrs_last(p, sc, 3);
}

/// Each field of an update extent command is read from the last attribute of the type that names it: `path` from `PATH`, `file_offset` from `FILE_OFFSET`, `size` from `SIZE`.
pub proof fn lemma_update_extent_fields(p: Seq<u8>, c: UpdateExtentCmd)
    requires
        UpdateExtentCmd::spec_parsed(p, c),
    ensures
        attr_range(p, SendAttr::PATH as u16) is Some,
        attr_range(p, SendAttr::FILE_OFFSET as u16) is Some,
        attr_range(p, SendAttr::SIZE as u16) is Some,
        c.path@ == attr_bytes(p, SendAttr::PATH as u16),
        c.file_offset == le64(p, attr_start(p, SendAttr::FILE_OFFSET as u16)),
        c.size == le64(p, attr_start(p, SendAttr::SIZE as u16)),
{
    let sc = UpdateExtentCmd::spec_schema();
    reveal_with_fuel(schema_slot_from, 4);
    lemma_tlv_attrs_last(p, sc, 0);
    lemma_tlv_attrs_last(p, sc, 1);
    lemma_tlv_attrs_last(p, sc, 2);
}

/// Each field of a fallocate command is read from the last attribute of the type that names it: `path` from `PATH`, `fallocate_mode` from `FALLOCATE_MODE`, `file_offset` from `FILE_OFFSET`, `size` from `SIZE`.
pub proof fn lemma_fallocate_fields(p: Seq<u8>, c: FallocateCmd)
    requires
        FallocateCmd::spec_parsed(p, c),
    ensures
        attr_range(p, SendAttr::PATH as u16) is Some,
        attr_range(p, SendAttr::FALLOCATE_MODE as u16) is Some,
        attr_range(p, SendAttr::FILE_OFFSET as u16) is Some,
        attr_range(p, SendAttr::SIZE as u16) is Some,
        c.path@ == attr_bytes(p, SendAttr::PATH as u16),
        c.fallocate_mode == le32(p, attr_start(p, SendAttr::FALLOCATE_MODE as u16)),
        c.file_offset == le64(p, attr_start(p, SendAttr::FILE_OFFSET as u16)),
        c.size == le64(p, attr_start(p, SendAttr::SIZE as u16)),
{
    let sc = FallocateCmd::spec_schema();
    reveal_with_fuel(schema_slot_from, 5);
    lemma_tlv_attrs_last(p, sc, 0);
    lemma_tlv_attrs_last(p, sc, 1);
    lemma_tlv_attrs_last(p, sc, 2);
    lemma_tlv_attrs_last(p, sc, 3);
}

/// Each field of a file attribute command is read from the last attribute of the type that names it: `path` from `PATH`, `fileattr` from `FILEATTR`.
pub proof fn lemma_fileattr_fields(p: Seq<u8>, c: FileattrCmd)
    requires
        FileattrCmd::spec_parsed(p, c),
    ensures
        attr_range(p, SendAttr::PATH as u16) is Some,
        attr_range(p, SendAttr::FILEATTR as u16) is Some,
        c.path@ == attr_bytes(p, SendAttr::PATH as u16),
        c.fileattr == le64(p, attr_start(p, SendAttr::FILEATTR as u16)),
{
    let sc = FileattrCmd::spec_schema();
    reveal_with_fuel(schema_slot_from, 3);
    lemma_tlv_attrs_last(p, sc, 0);
    lemma_tlv_attrs_last(p, sc, 1);
}

/// Each field of a version 2 write command is read from the last attribute before the data that
/// names it, `path` from `PATH` and `file_offset` from `FILE_OFFSET`, and the data runs from
/// just after the type of the data attribute to the end of the payload.
pub proof fn lemma_write_v2_fields(p: Seq<u8>, c: WriteCmd)
    requires
        WriteCmd::spec_parsed_v2(p, c),
    ensures
        attr_range_v2(p, SendAttr::PATH as u16) is Some,
        attr_range_v2(p, SendAttr::FILE_OFFSET as u16) is Some,
        data_start_v2(p) is Some,
        c.path@ == p.subrange(attr_range_v2(p, SendAttr::PATH as u16).unwrap().0 as int, attr_range_v2(p, SendAttr::PATH as u16).unwrap().1 as int),
        c.file_offset == le64(p, attr_range_v2(p, SendAttr::FILE_OFFSET as u16).unwrap().0 as int),
        c.data@ == p.subrange(data_start_v2(p).unwrap() as int, p.len() as int),
{
    let sc = WriteCmd::spec_schema_v2();
    reveal_with_fuel(schema_slot_from, 3);
    lemma_tlv_v2_last(p, sc, 0);
    lemma_tlv_v2_last(p, sc, 1);
}

/// The `u32` value of the last attribute of type `ty` before the data of the version 2 data
/// command `p`, if it holds one.
pub open spec fn attr_opt_u32_v2(p: Seq<u8>, ty: u16) -> Option<u32> {
    match attr_range_v2(p, ty) {
        Some(s) => Some(le32(p, s.0 as int)),
        None => None,
    }
}

/// Each field of an encoded write command is read from the last attribute before the data that
/// names it: `path` from `PATH`, `file_offset` from `FILE_OFFSET`, the unencoded sizes from
/// `UNENCODED_FILE_LEN`, `UNENCODED_LEN` and `UNENCODED_OFFSET`, and the optional `compression`
/// and `encryption` from `COMPRESSION` and `ENCRYPTION`; the data runs from just after the type
/// of the data attribute to the end of the payload.
pub proof fn lemma_encoded_write_v2_fields(p: Seq<u8>, c: EncodedWriteCmd)
    requires
        EncodedWriteCmd::spec_parsed_v2(p, c),
    ensures
        attr_range_v2(p, SendAttr::PATH as u16) is Some,
        attr_range_v2(p, SendAttr::FILE_OFFSET as u16) is Some,
        attr_range_v2(p, SendAttr::UNENCODED_FILE_LEN as u16) is Some,
        attr_range_v2(p, SendAttr::UNENCODED_LEN as u16) is Some,
        attr_range_v2(p, SendAttr::UNENCODED_OFFSET as u16) is Some,
        data_start_v2(p) is Some,
        c.path@ == p.subrange(attr_range_v2(p, SendAttr::PATH as u16).unwrap().0 as int, attr_range_v2(p, SendAttr::PATH as u16).unwrap().1 as int),
        c.file_offset == le64(p, attr_range_v2(p, SendAttr::FILE_OFFSET as u16).unwrap().0 as int),
        c.unencoded_file_len == le64(p, attr_range_v2(p, SendAttr::UNENCODED_FILE_LEN as u16).unwrap().0 as int),
        c.unencoded_len == le64(p, attr_range_v2(p, SendAttr::UNENCODED_LEN as u16).unwrap().0 as int),
        c.unencoded_offset == le64(p, attr_range_v2(p, SendAttr::UNENCODED_OFFSET as u16).unwrap().0 as int),
        c.compression == attr_opt_u32_v2(p, SendAttr::COMPRESSION as u16),
        c.encryption == attr_opt_u32_v2(p, SendAttr::ENCRYPTION as u16),
        c.data@ == p.subrange(data_start_v2(p).unwrap() as int, p.len() as int),
{
    let sc = EncodedWriteCmd::spec_schema_v2();
    reveal_with_fuel(schema_slot_from, 8);
    lemma_tlv_v2_last(p, sc, 0);
    lemma_tlv_v2_last(p, sc, 1);
    lemma_tlv_v2_last(p, sc, 2);
    lemma_tlv_v2_last(p, sc, 3);
    lemma_tlv_v2_last(p, sc, 4);
    lemma_tlv_v2_last(p, sc, 5);
    lemma_tlv_v2_last(p, sc, 6);
}

} // verus!
