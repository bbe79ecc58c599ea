//! Btrfs filesystem information.
pub mod block_group;

use crate::bytes::Uuid;
use crate::consts;
use crate::error::{Error, IoResult};
use crate::flags::{spec_raw_fs_info_flags, Flags};
use block_group::{BlockType, RaidProfile, spec_block_type, spec_raid_index, spec_raid_profile};
use vstd::prelude::*;
use vstd::std_specs::convert::{FromSpec, TryFromSpec};

verus! {

/// The magic number of the btrfs filesystem type, as `statfs` reports it.
pub const BTRFS_SUPER_MAGIC: i64 = 0x9123683e;

/// Whether a filesystem whose `statfs` type is `f_type` is btrfs.
pub fn is_btrfs_magic(f_type: i64) -> (r: bool)
    ensures
        r == (f_type == BTRFS_SUPER_MAGIC),
{
    f_type == BTRFS_SUPER_MAGIC
}

/// Information about a btrfs filesystem, as the filesystem info ioctl fills it.
#[derive(Debug)]
pub struct FsInfo {
    pub max_id: u64,
    pub num_devices: u64,
    pub fsid: Uuid,
    pub nodesize: u32,
    pub sectorsize: u32,
    pub clone_alignment: u32,
    pub csum_type: u16,
    pub csum_size: u16,
    pub flags: u64,
    pub generation: u64,
    pub metadata_uuid: Uuid,
}

impl FsInfo {
    /// Arguments for the filesystem info ioctl that asks for the information that `flags`
    /// select; fails with [`Error::InvalidFlags`] when `flags` hold flags that do not select
    /// filesystem information.
    pub fn request(flags: Flags) -> (r: IoResult<FsInfo>)
        ensures
            flags@ & !Flags::FS_INFO_MASK == 0 ==> (
            r matches Ok(i) && i.flags == spec_raw_fs_info_flags(flags@) && i.max_id == 0
                && i.num_devices == 0),
            flags@ & !Flags::FS_INFO_MASK != 0 ==> r
                == Err::<FsInfo, Error>(
                Error::InvalidFlags(
                    flags@ & !Flags::FS_INFO_MASK,
                ),
            ),
    {
        let raw = flags.to_raw_fs_info_flags()?;
        let nil = Uuid::from_bytes([0u8; 16]);
        Ok(
            FsInfo {
                max_id: 0,
                num_devices: 0,
                fsid: nil,
                nodesize: 0,
                sectorsize: 0,
                clone_alignment: 0,
                csum_type: 0,
                csum_size: 0,
                flags: raw,
                generation: 0,
                metadata_uuid: nil,
            },
        )
    }

    /// The largest device id in the filesystem
    pub fn max_id(&self) -> (r: u64)
        ensures
            r == self.max_id,
    {
        self.max_id
    }

    /// Number of devices in the filesystem
    pub fn num_devices(&self) -> (r: u64)
        ensures
            r == self.num_devices,
    {
        self.num_devices
    }

    /// UUID of the filesystem
    pub fn fsid(&self) -> (r: Uuid)
        ensures
            r == self.fsid,
    {
        self.fsid
    }

    /// Size of a btree node in bytes
    pub fn nodesize(&self) -> (r: u32)
        ensures
            r == self.nodesize,
    {
        self.nodesize
    }

    /// Size of a sector in bytes
    pub fn sectorsize(&self) -> (r: u32)
        ensures
            r == self.sectorsize,
    {
        self.sectorsize
    }

    /// Alignment of clone ranges in bytes
    pub fn clone_alignment(&self) -> (r: u32)
        ensures
            r == self.clone_alignment,
    {
        self.clone_alignment
    }

    /// Checksum type; the information must have been asked for with [`Flags::CSUM_INFO`].
    pub fn csum_type(&self) -> (r: u16)
        requires
            self.flags & consts::BTRFS_FS_INFO_FLAG_CSUM_INFO != 0,
        ensures
            r == self.csum_type,
    {
        self.csum_type
    }

    /// Checksum size in bytes; the information must have been asked for with
    /// [`Flags::CSUM_INFO`].
    pub fn csum_size(&self) -> (r: u16)
        requires
            self.flags & consts::BTRFS_FS_INFO_FLAG_CSUM_INFO != 0,
        ensures
            r == self.csum_size,
    {
        self.csum_size
    }

    /// Generation of the filesystem; the information must have been asked for with
    /// [`Flags::GENERATION`].
    pub fn generation(&self) -> (r: u64)
        requires
            self.flags & consts::BTRFS_FS_INFO_FLAG_GENERATION != 0,
        ensures
            r == self.generation,
    {
        self.generation
    }

    /// Metadata UUID of the filesystem; the information must have been asked for with
    /// [`Flags::METADATA_UUID`].
    pub fn metadata_uuid(&self) -> (r: Uuid)
        requires
            self.flags & consts::BTRFS_FS_INFO_FLAG_METADATA_UUID != 0,
        ensures
            r == self.metadata_uuid,
    {
        self.metadata_uuid
    }
}

/// Space used and allocated for one kind of block group and one raid profile.
#[derive(Debug, Clone, Copy)]
pub struct SpaceInfo {
    pub flags: u64,
    pub total_bytes: u64,
    pub used_bytes: u64,
}

impl SpaceInfo {
    /// What the space holds.
    pub fn block_type(&self) -> (r: BlockType)
        ensures
            r == spec_block_type(self.flags),
    {
        BlockType::from(self.flags)
    }

    /// The raid profile of the space; fails with `InvalidInput` when its flags hold a bit that
    /// names no profile.
    pub fn raid_profile(&self) -> (r: IoResult<RaidProfile>)
        ensures
            match spec_raid_index(self.flags) {
                Some(index) => r == Ok::<RaidProfile, Error>(spec_raid_profile(index)),
                None => r == Err::<RaidProfile, Error>(
                    Error::Kind(crate::error::ErrorKind::InvalidInput),
                ),
            },
    {
        RaidProfile::try_from(self.flags)
    }

    /// Block group flags of the space
    pub fn flags(&self) -> (r: u64)
        ensures
            r == self.flags,
    {
        self.flags
    }

    /// Bytes used
    pub fn used_bytes(&self) -> (r: u64)
        ensures
            r == self.used_bytes,
    {
        self.used_bytes
    }

    /// Bytes allocated
    pub fn total_bytes(&self) -> (r: u64)
        ensures
            r == self.total_bytes,
    {
        self.total_bytes
    }
}

} // verus!
