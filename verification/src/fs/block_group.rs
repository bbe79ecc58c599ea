//! Btrfs filesystem block groups and raid profiles
use crate::consts;
use crate::error::{Error, ErrorKind};
use vstd::prelude::*;
use vstd::std_specs::convert::{FromSpecImpl, TryFromSpecImpl};

verus! {

/// What the space of a block group holds.
#[derive(Debug, Clone, Copy, PartialEq, Eq, Structural)]
pub enum BlockType {
    Data,
    System,
    Metadata,
    GlobalReserve,
    Unknown,
}

/// The block type that the block group flags `value` give: their type bits and the global
/// reserve bit must name exactly one type.
pub open spec fn spec_block_type(value: u64) -> BlockType {
    let t = value & (consts::BTRFS_BLOCK_GROUP_TYPE_MASK | consts::BTRFS_SPACE_INFO_GLOBAL_RSV);
    if t == consts::BTRFS_BLOCK_GROUP_DATA {
        BlockType::Data
    } else if t == consts::BTRFS_BLOCK_GROUP_SYSTEM {
        BlockType::System
    } else if t == consts::BTRFS_BLOCK_GROUP_METADATA {
        BlockType::Metadata
    } else if t == consts::BTRFS_SPACE_INFO_GLOBAL_RSV {
        BlockType::GlobalReserve
    } else {
        BlockType::Unknown
    }
}

impl From<u64> for BlockType {
    fn from(value: u64) -> (r: Self) {
        let t = value & (consts::BTRFS_BLOCK_GROUP_TYPE_MASK | consts::BTRFS_SPACE_INFO_GLOBAL_RSV);
        if t == consts::BTRFS_BLOCK_GROUP_DATA {
            BlockType::Data
        } else if t == consts::BTRFS_BLOCK_GROUP_SYSTEM {
            BlockType::System
        } else if t == consts::BTRFS_BLOCK_GROUP_METADATA {
            BlockType::Metadata
        } else if t == consts::BTRFS_SPACE_INFO_GLOBAL_RSV {
            BlockType::GlobalReserve
        } else {
            BlockType::Unknown
        }
    }
}

impl FromSpecImpl<u64> for BlockType {
    open spec fn obeys_from_spec() -> bool {
        true
    }

    open spec fn from_spec(v: u64) -> Self {
        spec_block_type(v)
    }
}

/// The raid profiles that btrfs knows.
#[derive(Debug, Clone, Copy, PartialEq, Eq, Structural)]
pub enum RaidIndex {
    Raid10,
    Raid1,
    Dup,
    Raid0,
    Single,
    Raid5,
    Raid6,
    Raid1c3,
    Raid1c4,
}

/// Properties of a btrfs raid profile
#[derive(Clone, Copy, Debug)]
pub struct RaidProfile {
    pub sub_stripes: u32,
    pub dev_stripes: u32,
    pub devs_max: u32,
    pub devs_min: u32,
    pub tolerated_failures: u32,
    pub devs_increment: u32,
    pub ncopies: u32,
    pub nparity: u32,
    pub mindev_error: u32,
    pub lower_name: &'static str,
    pub upper_name: &'static str,
    pub bg_flag: u64,
}

/// The raid profile that the block group flags `value` name, once their type and reserved bits
/// are cleared: `None` when a bit outside the profile bits is left. When several profile bits
/// are set, the first in the order RAID10, RAID1, RAID1C3, RAID1C4, DUP, RAID0, RAID5, RAID6
/// wins; with none, the profile is single.
pub open spec fn spec_raid_index(value: u64) -> Option<RaidIndex> {
    let v = value & !(consts::BTRFS_BLOCK_GROUP_TYPE_MASK | consts::BTRFS_BLOCK_GROUP_RESERVED);
    if v & !consts::BTRFS_BLOCK_GROUP_PROFILE_MASK != 0 {
        None
    } else if v & consts::BTRFS_BLOCK_GROUP_RAID10 != 0 {
        Some(RaidIndex::Raid10)
    } else if v & consts::BTRFS_BLOCK_GROUP_RAID1 != 0 {
        Some(RaidIndex::Raid1)
    } else if v & consts::BTRFS_BLOCK_GROUP_RAID1C3 != 0 {
        Some(RaidIndex::Raid1c3)
    } else if v & consts::BTRFS_BLOCK_GROUP_RAID1C4 != 0 {
        Some(RaidIndex::Raid1c4)
    } else if v & consts::BTRFS_BLOCK_GROUP_DUP != 0 {
        Some(RaidIndex::Dup)
    } else if v & consts::BTRFS_BLOCK_GROUP_RAID0 != 0 {
        Some(RaidIndex::Raid0)
    } else if v & consts::BTRFS_BLOCK_GROUP_RAID5 != 0 {
        Some(RaidIndex::Raid5)
    } else if v & consts::BTRFS_BLOCK_GROUP_RAID6 != 0 {
        Some(RaidIndex::Raid6)
    } else {
        Some(RaidIndex::Single)
    }
}

/// The raid profile that the block group flags `value` name; see [`spec_raid_index`].
pub fn raid_index(value: u64) -> (r: Option<RaidIndex>)
    ensures
        r == spec_raid_index(value),
{
    let v = value & !(consts::BTRFS_BLOCK_GROUP_TYPE_MASK | consts::BTRFS_BLOCK_GROUP_RESERVED);
    if v & !consts::BTRFS_BLOCK_GROUP_PROFILE_MASK != 0 {
        None
    } else if v & consts::BTRFS_BLOCK_GROUP_RAID10 != 0 {
        Some(RaidIndex::Raid10)
    } else if v & consts::BTRFS_BLOCK_GROUP_RAID1 != 0 {
        Some(RaidIndex::Raid1)
    } else if v & consts::BTRFS_BLOCK_GROUP_RAID1C3 != 0 {
        Some(RaidIndex::Raid1c3)
    } else if v & consts::BTRFS_BLOCK_GROUP_RAID1C4 != 0 {
        Some(RaidIndex::Raid1c4)
    } else if v & consts::BTRFS_BLOCK_GROUP_DUP != 0 {
        Some(RaidIndex::Dup)
    } else if v & consts::BTRFS_BLOCK_GROUP_RAID0 != 0 {
        Some(RaidIndex::Raid0)
    } else if v & consts::BTRFS_BLOCK_GROUP_RAID5 != 0 {
        Some(RaidIndex::Raid5)
    } else if v & consts::BTRFS_BLOCK_GROUP_RAID6 != 0 {
        Some(RaidIndex::Raid6)
    } else {
        Some(RaidIndex::Single)
    }
}

/// The properties of the raid profile `index`.
pub open spec fn spec_raid_profile(index: RaidIndex) -> RaidProfile {
    match index {
        RaidIndex::Raid10 => RaidProfile {
            sub_stripes: 2,
            dev_stripes: 1,
            devs_max: 0,
            devs_min: 2,
            tolerated_failures: 1,
            devs_increment: 2,
            ncopies: 2,
            nparity: 0,
            lower_name: "raid10",
            upper_name: "RAID10",
            bg_flag: consts::BTRFS_BLOCK_GROUP_RAID10,
            mindev_error: consts::BTRFS_ERROR_DEV_RAID10_MIN_NOT_MET,
        },
        RaidIndex::Raid1 => RaidProfile {
            sub_stripes: 1,
            dev_stripes: 1,
            devs_max: 2,
            devs_min: 2,
            tolerated_failures: 1,
            devs_increment: 2,
            ncopies: 2,
            nparity: 0,
            lower_name: "raid1",
            upper_name: "RAID1",
            bg_flag: consts::BTRFS_BLOCK_GROUP_RAID1,
            mindev_error: consts::BTRFS_ERROR_DEV_RAID1_MIN_NOT_MET,
        },
        RaidIndex::Dup => RaidProfile {
            sub_stripes: 1,
            dev_stripes: 2,
            devs_max: 1,
            devs_min: 1,
            tolerated_failures: 0,
            devs_increment: 1,
            ncopies: 2,
            nparity: 0,
            lower_name: "dup",
            upper_name: "DUP",
            bg_flag: consts::BTRFS_BLOCK_GROUP_DUP,
            mindev_error: 0,
        },
        RaidIndex::Raid0 => RaidProfile {
            sub_stripes: 1,
            dev_stripes: 1,
            devs_max: 0,
            devs_min: 1,
            tolerated_failures: 0,
            devs_increment: 1,
            ncopies: 1,
            nparity: 0,
            lower_name: "raid0",
            upper_name: "RAID0",
            bg_flag: consts::BTRFS_BLOCK_GROUP_RAID0,
            mindev_error: 0,
        },
        RaidIndex::Single => RaidProfile {
            sub_stripes: 1,
            dev_stripes: 1,
            devs_max: 1,
            devs_min: 1,
            tolerated_failures: 0,
            devs_increment: 1,
            ncopies: 1,
            nparity: 0,
            lower_name: "single",
            upper_name: "SINGLE",
            bg_flag: 0,
            mindev_error: 0,
        },
        RaidIndex::Raid5 => RaidProfile {
            sub_stripes: 1,
            dev_stripes: 1,
            devs_max: 0,
            devs_min: 2,
            tolerated_failures: 1,
            devs_increment: 1,
            ncopies: 1,
            nparity: 1,
            lower_name: "raid5",
            upper_name: "RAID5",
            bg_flag: consts::BTRFS_BLOCK_GROUP_RAID5,
            mindev_error: consts::BTRFS_ERROR_DEV_RAID5_MIN_NOT_MET,
        },
        RaidIndex::Raid6 => RaidProfile {
            sub_stripes: 1,
            dev_stripes: 1,
            devs_max: 0,
            devs_min: 3,
            tolerated_failures: 2,
            devs_increment: 1,
            ncopies: 1,
            nparity: 2,
            lower_name: "raid6",
            upper_name: "RAID6",
            bg_flag: consts::BTRFS_BLOCK_GROUP_RAID6,
            mindev_error: consts::BTRFS_ERROR_DEV_RAID6_MIN_NOT_MET,
        },
        RaidIndex::Raid1c3 => RaidProfile {
            sub_stripes: 1,
            dev_stripes: 1,
            devs_max: 3,
            devs_min: 3,
            tolerated_failures: 2,
            devs_increment: 3,
            ncopies: 3,
            nparity: 0,
            lower_name: "raid1c3",
            upper_name: "RAID1C3",
            bg_flag: consts::BTRFS_BLOCK_GROUP_RAID1C3,
            mindev_error: consts::BTRFS_ERROR_DEV_RAID1C3_MIN_NOT_MET,
        },
        RaidIndex::Raid1c4 => RaidProfile {
            sub_stripes: 1,
            dev_stripes: 1,
            devs_max: 4,
            devs_min: 4,
            tolerated_failures: 3,
            devs_increment: 4,
            ncopies: 4,
            nparity: 0,
            lower_name: "raid1c4",
            upper_name: "RAID1C4",
            bg_flag: consts::BTRFS_BLOCK_GROUP_RAID1C4,
            mindev_error: consts::BTRFS_ERROR_DEV_RAID1C4_MIN_NOT_MET,
        },
    }
}

/// The properties of the raid profile `index`.
pub fn raid_profile(index: RaidIndex) -> (r: RaidProfile)
    ensures
        r == spec_raid_profile(index),
{
    match index {
        RaidIndex::Raid10 => RaidProfile {
            sub_stripes: 2,
            dev_stripes: 1,
            devs_max: 0,
            devs_min: 2,
            tolerated_failures: 1,
            devs_increment: 2,
            ncopies: 2,
            nparity: 0,
            lower_name: "raid10",
            upper_name: "RAID10",
            bg_flag: consts::BTRFS_BLOCK_GROUP_RAID10,
            mindev_error: consts::BTRFS_ERROR_DEV_RAID10_MIN_NOT_MET,
        },
        RaidIndex::Raid1 => RaidProfile {
            sub_stripes: 1,
            dev_stripes: 1,
            devs_max: 2,
            devs_min: 2,
            tolerated_failures: 1,
            devs_increment: 2,
            ncopies: 2,
            nparity: 0,
            lower_name: "raid1",
            upper_name: "RAID1",
            bg_flag: consts::BTRFS_BLOCK_GROUP_RAID1,
            mindev_error: consts::BTRFS_ERROR_DEV_RAID1_MIN_NOT_MET,
        },
        RaidIndex::Dup => RaidProfile {
            sub_stripes: 1,
            dev_stripes: 2,
            devs_max: 1,
            devs_min: 1,
            tolerated_failures: 0,
            devs_increment: 1,
            ncopies: 2,
            nparity: 0,
            lower_name: "dup",
            upper_name: "DUP",
            bg_flag: consts::BTRFS_BLOCK_GROUP_DUP,
            mindev_error: 0,
        },
        RaidIndex::Raid0 => RaidProfile {
            sub_stripes: 1,
            dev_stripes: 1,
            devs_max: 0,
            devs_min: 1,
            tolerated_failures: 0,
            devs_increment: 1,
            ncopies: 1,
            nparity: 0,
            lower_name: "raid0",
            upper_name: "RAID0",
            bg_flag: consts::BTRFS_BLOCK_GROUP_RAID0,
            mindev_error: 0,
        },
        RaidIndex::Single => RaidProfile {
            sub_stripes: 1,
            dev_stripes: 1,
            devs_max: 1,
            devs_min: 1,
            tolerated_failures: 0,
            devs_increment: 1,
            ncopies: 1,
            nparity: 0,
            lower_name: "single",
            upper_name: "SINGLE",
            bg_flag: 0,
            mindev_error: 0,
        },
        RaidIndex::Raid5 => RaidProfile {
            sub_stripes: 1,
            dev_stripes: 1,
            devs_max: 0,
            devs_min: 2,
            tolerated_failures: 1,
            devs_increment: 1,
            ncopies: 1,
            nparity: 1,
            lower_name: "raid5",
            upper_name: "RAID5",
            bg_flag: consts::BTRFS_BLOCK_GROUP_RAID5,
            mindev_error: consts::BTRFS_ERROR_DEV_RAID5_MIN_NOT_MET,
        },
        RaidIndex::Raid6 => RaidProfile {
            sub_stripes: 1,
            dev_stripes: 1,
            devs_max: 0,
            devs_min: 3,
            tolerated_failures: 2,
            devs_increment: 1,
            ncopies: 1,
            nparity: 2,
            lower_name: "raid6",
            upper_name: "RAID6",
            bg_flag: consts::BTRFS_BLOCK_GROUP_RAID6,
            mindev_error: consts::BTRFS_ERROR_DEV_RAID6_MIN_NOT_MET,
        },
        RaidIndex::Raid1c3 => RaidProfile {
            sub_stripes: 1,
            dev_stripes: 1,
            devs_max: 3,
            devs_min: 3,
            tolerated_failures: 2,
            devs_increment: 3,
            ncopies: 3,
            nparity: 0,
            lower_name: "raid1c3",
            upper_name: "RAID1C3",
            bg_flag: consts::BTRFS_BLOCK_GROUP_RAID1C3,
            mindev_error: consts::BTRFS_ERROR_DEV_RAID1C3_MIN_NOT_MET,
        },
        RaidIndex::Raid1c4 => RaidProfile {
            sub_stripes: 1,
            dev_stripes: 1,
            devs_max: 4,
            devs_min: 4,
            tolerated_failures: 3,
            devs_increment: 4,
            ncopies: 4,
            nparity: 0,
            lower_name: "raid1c4",
            upper_name: "RAID1C4",
            bg_flag: consts::BTRFS_BLOCK_GROUP_RAID1C4,
            mindev_error: consts::BTRFS_ERROR_DEV_RAID1C4_MIN_NOT_MET,
        },
    }
}

impl TryFrom<u64> for RaidProfile {
    type Error = Error;

    fn try_from(value: u64) -> (r: Result<Self, Self::Error>) {
        match raid_index(value) {
            Some(index) => Ok(raid_profile(index)),
            None => Err(Error::Kind(ErrorKind::InvalidInput)),
        }
    }
}

impl TryFromSpecImpl<u64> for RaidProfile {
    open spec fn obeys_try_from_spec() -> bool {
        true
    }

    open spec fn try_from_spec(v: u64) -> Result<Self, Error> {
        match spec_raid_index(v) {
            Some(index) => Ok(spec_raid_profile(index)),
            None => Err(Error::Kind(ErrorKind::InvalidInput)),
        }
    }
}


/// The raid profile that block group flags name is one whose flag bit the flags hold, and it
/// is the single profile exactly when they hold no profile bit. Flags are refused exactly when
/// they hold a bit that is neither a type, a reserved nor a profile bit.
pub proof fn lemma_raid_profile_bits(value: u64)
    ensures
        match spec_raid_index(value) {
            Some(i) => {
                let p = spec_raid_profile(i);
                &&& (p.bg_flag == 0) == (value & consts::BTRFS_BLOCK_GROUP_PROFILE_MASK == 0)
                &&& p.bg_flag != 0 ==> value & p.bg_flag == p.bg_flag
            },
            None => value & !(consts::BTRFS_BLOCK_GROUP_TYPE_MASK
                | consts::BTRFS_BLOCK_GROUP_RESERVED | consts::BTRFS_BLOCK_GROUP_PROFILE_MASK) != 0,
        },
{
    let v = value & !(7u64 | 0x3_0000_0000_0000u64);
    assert(v & !0x7f8u64 != 0 <==> value & !(7u64 | 0x3_0000_0000_0000u64 | 0x7f8u64) != 0)
        by (bit_vector)
        requires
            v == value & !(7u64 | 0x3_0000_0000_0000u64),
    ;
    assert(value & 0x7f8u64 == v & 0x7f8u64) by (bit_vector)
        requires
            v == value & !(7u64 | 0x3_0000_0000_0000u64),
    ;
    assert(v & 0x7f8u64 == 0 <==> (v & 0x8u64 == 0 && v & 0x10u64 == 0 && v & 0x20u64 == 0 && v
        & 0x40u64 == 0 && v & 0x80u64 == 0 && v & 0x100u64 == 0 && v & 0x200u64 == 0 && v
        & 0x400u64 == 0)) by (bit_vector);
    assert((v & 0x8u64 != 0 ==> value & 0x8u64 == 0x8u64) && (v & 0x10u64 != 0 ==> value & 0x10u64
        == 0x10u64) && (v & 0x20u64 != 0 ==> value & 0x20u64 == 0x20u64) && (v & 0x40u64 != 0
        ==> value & 0x40u64 == 0x40u64) && (v & 0x80u64 != 0 ==> value & 0x80u64 == 0x80u64) && (v
        & 0x100u64 != 0 ==> value & 0x100u64 == 0x100u64) && (v & 0x200u64 != 0 ==> value
        & 0x200u64 == 0x200u64) && (v & 0x400u64 != 0 ==> value & 0x400u64 == 0x400u64))
        by (bit_vector)
        requires
            v == value & !(7u64 | 0x3_0000_0000_0000u64),
    ;
}


/// The redundancy of each profile, as the kernel's `btrfs_raid_array` lists it: the copies and
/// parity stripes of each block, the device failures it survives, the devices it needs and can
/// use and how they grow, the block group flag that selects it, and its name.
pub proof fn lemma_raid_profile_table()
    ensures
        ({
            let r = spec_raid_profile(RaidIndex::Raid10);
            &&& r.bg_flag == consts::BTRFS_BLOCK_GROUP_RAID10
            &&& r.ncopies == 2 && r.nparity == 0 && r.tolerated_failures == 1
            &&& r.devs_min == 2 && r.devs_max == 0 && r.devs_increment == 2
            &&& r.sub_stripes == 2 && r.dev_stripes == 1
            &&& r.upper_name == "RAID10"
        }),
        ({
            let r = spec_raid_profile(RaidIndex::Raid1);
            &&& r.bg_flag == consts::BTRFS_BLOCK_GROUP_RAID1
            &&& r.ncopies == 2 && r.nparity == 0 && r.tolerated_failures == 1
            &&& r.devs_min == 2 && r.devs_max == 2 && r.devs_increment == 2
            &&& r.sub_stripes == 1 && r.dev_stripes == 1
            &&& r.upper_name == "RAID1"
        }),
        ({
            let r = spec_raid_profile(RaidIndex::Dup);
            &&& r.bg_flag == consts::BTRFS_BLOCK_GROUP_DUP
            &&& r.ncopies == 2 && r.nparity == 0 && r.tolerated_failures == 0
            &&& r.devs_min == 1 && r.devs_max == 1 && r.devs_increment == 1
            &&& r.sub_stripes == 1 && r.dev_stripes == 2
            &&& r.upper_name == "DUP"
        }),
        ({
            let r = spec_raid_profile(RaidIndex::Raid0);
            &&& r.bg_flag == consts::BTRFS_BLOCK_GROUP_RAID0
            &&& r.ncopies == 1 && r.nparity == 0 && r.tolerated_failures == 0
            &&& r.devs_min == 1 && r.devs_max == 0 && r.devs_increment == 1
            &&& r.sub_stripes == 1 && r.dev_stripes == 1
            &&& r.upper_name == "RAID0"
        }),
        ({
            let r = spec_raid_profile(RaidIndex::Single);
            &&& r.bg_flag == 0
            &&& r.ncopies == 1 && r.nparity == 0 && r.tolerated_failures == 0
            &&& r.devs_min == 1 && r.devs_max == 1 && r.devs_increment == 1
            &&& r.sub_stripes == 1 && r.dev_stripes == 1
            &&& r.upper_name == "SINGLE"
        }),
        ({
            let r = spec_raid_profile(RaidIndex::Raid5);
            &&& r.bg_flag == consts::BTRFS_BLOCK_GROUP_RAID5
            &&& r.ncopies == 1 && r.nparity == 1 && r.tolerated_failures == 1
            &&& r.devs_min == 2 && r.devs_max == 0 && r.devs_increment == 1
            &&& r.sub_stripes == 1 && r.dev_stripes == 1
            &&& r.upper_name == "RAID5"
        }),
        ({
            let r = spec_raid_profile(RaidIndex::Raid6);
            &&& r.bg_flag == consts::BTRFS_BLOCK_GROUP_RAID6
            &&& r.ncopies == 1 && r.nparity == 2 && r.tolerated_failures == 2
            &&& r.devs_min == 3 && r.devs_max == 0 && r.devs_increment == 1
            &&& r.sub_stripes == 1 && r.dev_stripes == 1
            &&& r.upper_name == "RAID6"
        }),
        ({
            let r = spec_raid_profile(RaidIndex::Raid1c3);
            &&& r.bg_flag == consts::BTRFS_BLOCK_GROUP_RAID1C3
            &&& r.ncopies == 3 && r.nparity == 0 && r.tolerated_failures == 2
            &&& r.devs_min == 3 && r.devs_max == 3 && r.devs_increment == 3
            &&& r.sub_stripes == 1 && r.dev_stripes == 1
            &&& r.upper_name == "RAID1C3"
        }),
        ({
            let r = spec_raid_profile(RaidIndex::Raid1c4);
            &&& r.bg_flag == consts::BTRFS_BLOCK_GROUP_RAID1C4
            &&& r.ncopies == 4 && r.nparity == 0 && r.tolerated_failures == 3
            &&& r.devs_min == 4 && r.devs_max == 4 && r.devs_increment == 4
            &&& r.sub_stripes == 1 && r.dev_stripes == 1
            &&& r.upper_name == "RAID1C4"
        }),
{
}

/// A profile that keeps each stripe on a device of its own survives the loss of all but one of
/// its copies and of as many devices as it has parity stripes; one that keeps two stripes on
/// the same device (`DUP`) survives no device failure. Every profile needs at least as many
/// devices as it keeps copies and parity stripes on separate devices.
pub proof fn lemma_raid_tolerated_failures(index: RaidIndex)
    ensures
        ({
            let r = spec_raid_profile(index);
            &&& r.dev_stripes == 1 ==> r.tolerated_failures == r.ncopies + r.nparity - 1
            &&& r.dev_stripes != 1 ==> r.tolerated_failures == 0
            &&& r.dev_stripes == 1 ==> r.devs_min >= r.ncopies + r.nparity
        }),
{
}

} // verus!
