//! Numeric constants of the btrfs on-disk format and ioctl interface.
#![allow(missing_docs)]
use vstd::prelude::*;

verus! {

// Tree object ids
pub const BTRFS_ROOT_TREE_OBJECTID: u64 = 1;
pub const BTRFS_EXTENT_TREE_OBJECTID: u64 = 2;
pub const BTRFS_CHUNK_TREE_OBJECTID: u64 = 3;
pub const BTRFS_DEV_TREE_OBJECTID: u64 = 4;
pub const BTRFS_FS_TREE_OBJECTID: u64 = 5;
pub const BTRFS_ROOT_TREE_DIR_OBJECTID: u64 = 6;
pub const BTRFS_CSUM_TREE_OBJECTID: u64 = 7;
pub const BTRFS_QUOTA_TREE_OBJECTID: u64 = 8;
pub const BTRFS_UUID_TREE_OBJECTID: u64 = 9;
pub const BTRFS_FREE_SPACE_TREE_OBJECTID: u64 = 10;
pub const BTRFS_BLOCK_GROUP_TREE_OBJECTID: u64 = 11;
pub const BTRFS_RAID_STRIPE_TREE_OBJECTID: u64 = 12;
pub const BTRFS_REMAP_TREE_OBJECTID: u64 = 13;
pub const BTRFS_FIRST_FREE_OBJECTID: u64 = 256;

// Item key types
pub const BTRFS_INODE_ITEM_KEY: u32 = 1;
pub const BTRFS_INODE_REF_KEY: u32 = 12;
pub const BTRFS_INODE_EXTREF_KEY: u32 = 13;
pub const BTRFS_XATTR_ITEM_KEY: u32 = 24;
pub const BTRFS_ORPHAN_ITEM_KEY: u32 = 48;
pub const BTRFS_DIR_LOG_ITEM_KEY: u32 = 60;
pub const BTRFS_DIR_LOG_INDEX_KEY: u32 = 72;
pub const BTRFS_DIR_ITEM_KEY: u32 = 84;
pub const BTRFS_DIR_INDEX_KEY: u32 = 96;
pub const BTRFS_EXTENT_DATA_KEY: u32 = 108;
pub const BTRFS_EXTENT_CSUM_KEY: u32 = 128;
pub const BTRFS_ROOT_ITEM_KEY: u32 = 132;
pub const BTRFS_ROOT_BACKREF_KEY: u32 = 144;
pub const BTRFS_ROOT_REF_KEY: u32 = 156;
pub const BTRFS_EXTENT_ITEM_KEY: u32 = 168;
pub const BTRFS_METADATA_ITEM_KEY: u32 = 169;
pub const BTRFS_BLOCK_GROUP_ITEM_KEY: u32 = 192;
pub const BTRFS_FREE_SPACE_INFO_KEY: u32 = 198;
pub const BTRFS_FREE_SPACE_EXTENT_KEY: u32 = 199;
pub const BTRFS_FREE_SPACE_BITMAP_KEY: u32 = 200;
pub const BTRFS_DEV_EXTENT_KEY: u32 = 204;
pub const BTRFS_DEV_ITEM_KEY: u32 = 216;
pub const BTRFS_CHUNK_ITEM_KEY: u32 = 228;
pub const BTRFS_QGROUP_STATUS_KEY: u32 = 240;
pub const BTRFS_QGROUP_INFO_KEY: u32 = 242;
pub const BTRFS_QGROUP_LIMIT_KEY: u32 = 244;
pub const BTRFS_QGROUP_RELATION_KEY: u32 = 246;
pub const BTRFS_TEMPORARY_ITEM_KEY: u32 = 248;
pub const BTRFS_PERSISTENT_ITEM_KEY: u32 = 249;
pub const BTRFS_DEV_REPLACE_KEY: u32 = 250;
pub const BTRFS_UUID_KEY_SUBVOL: u32 = 251;
pub const BTRFS_UUID_KEY_RECEIVED_SUBVOL: u32 = 252;

// Subvolume and device flags
pub const BTRFS_SUBVOL_RDONLY: u64 = 0x2;
pub const BTRFS_DEVICE_SPEC_BY_ID: u64 = 0x8;
pub const BTRFS_SUBVOL_SPEC_BY_ID: u64 = 0x10;

// Filesystem info flags
pub const BTRFS_FS_INFO_FLAG_CSUM_INFO: u64 = 0x1;
pub const BTRFS_FS_INFO_FLAG_GENERATION: u64 = 0x2;
pub const BTRFS_FS_INFO_FLAG_METADATA_UUID: u64 = 0x4;

// Send flags
pub const BTRFS_SEND_FLAG_NO_FILE_DATA: u64 = 0x1;
pub const BTRFS_SEND_FLAG_OMIT_STREAM_HEADER: u64 = 0x2;
pub const BTRFS_SEND_FLAG_OMIT_END_CMD: u64 = 0x4;
pub const BTRFS_SEND_FLAG_VERSION: u64 = 0x8;
pub const BTRFS_SEND_FLAG_COMPRESSED: u64 = 0x10;

// Block group flags
pub const BTRFS_BLOCK_GROUP_DATA: u64 = 0x1;
pub const BTRFS_BLOCK_GROUP_SYSTEM: u64 = 0x2;
pub const BTRFS_BLOCK_GROUP_METADATA: u64 = 0x4;
pub const BTRFS_BLOCK_GROUP_RAID0: u64 = 0x8;
pub const BTRFS_BLOCK_GROUP_RAID1: u64 = 0x10;
pub const BTRFS_BLOCK_GROUP_DUP: u64 = 0x20;
pub const BTRFS_BLOCK_GROUP_RAID10: u64 = 0x40;
pub const BTRFS_BLOCK_GROUP_RAID5: u64 = 0x80;
pub const BTRFS_BLOCK_GROUP_RAID6: u64 = 0x100;
pub const BTRFS_BLOCK_GROUP_RAID1C3: u64 = 0x200;
pub const BTRFS_BLOCK_GROUP_RAID1C4: u64 = 0x400;
pub const BTRFS_BLOCK_GROUP_TYPE_MASK: u64 = 0x7;
pub const BTRFS_BLOCK_GROUP_PROFILE_MASK: u64 = 0x7f8;
pub const BTRFS_AVAIL_ALLOC_BIT_SINGLE: u64 = 0x1_0000_0000_0000;
pub const BTRFS_SPACE_INFO_GLOBAL_RSV: u64 = 0x2_0000_0000_0000;
pub const BTRFS_BLOCK_GROUP_RESERVED: u64 = 0x3_0000_0000_0000;

// Device error codes
pub const BTRFS_ERROR_DEV_RAID1_MIN_NOT_MET: u32 = 1;
pub const BTRFS_ERROR_DEV_RAID10_MIN_NOT_MET: u32 = 2;
pub const BTRFS_ERROR_DEV_RAID5_MIN_NOT_MET: u32 = 3;
pub const BTRFS_ERROR_DEV_RAID6_MIN_NOT_MET: u32 = 4;
pub const BTRFS_ERROR_DEV_RAID1C3_MIN_NOT_MET: u32 = 9;
pub const BTRFS_ERROR_DEV_RAID1C4_MIN_NOT_MET: u32 = 10;

// Device statistics
pub const BTRFS_DEV_STAT_WRITE_ERRS: usize = 0;
pub const BTRFS_DEV_STAT_READ_ERRS: usize = 1;
pub const BTRFS_DEV_STAT_FLUSH_ERRS: usize = 2;
pub const BTRFS_DEV_STAT_CORRUPTION_ERRS: usize = 3;
pub const BTRFS_DEV_STAT_GENERATION_ERRS: usize = 4;
pub const BTRFS_DEV_STAT_VALUES_MAX: usize = 5;

// Balance argument flags
pub const BTRFS_BALANCE_ARGS_USAGE: u64 = 0x2;
pub const BTRFS_BALANCE_ARGS_LIMIT: u64 = 0x20;
pub const BTRFS_BALANCE_ARGS_LIMIT_RANGE: u64 = 0x40;
pub const BTRFS_BALANCE_ARGS_USAGE_RANGE: u64 = 0x400;

// Sizes
pub const BTRFS_VOL_NAME_MAX: usize = 255;
pub const BTRFS_PATH_NAME_MAX: usize = 4087;
pub const BTRFS_SUBVOL_NAME_MAX: usize = 4039;
pub const BTRFS_DEVICE_PATH_NAME_MAX: usize = 1024;
pub const BTRFS_UUID_SIZE: usize = 16;

// Errno values that the library decides on
pub const EACCES: i32 = 13;
pub const ENODEV: i32 = 19;
pub const ENOTTY: i32 = 25;
pub const ENOSYS: i32 = 38;
pub const EOPNOTSUPP: i32 = 95;
pub const ENAMETOOLONG: i32 = 36;
pub const PATH_MAX: usize = 4096;


// Send command ids (enum btrfs_send_cmd)
pub const BTRFS_SEND_C_SUBVOL: u16 = 1;
pub const BTRFS_SEND_C_SNAPSHOT: u16 = 2;
pub const BTRFS_SEND_C_MKFILE: u16 = 3;
pub const BTRFS_SEND_C_MKDIR: u16 = 4;
pub const BTRFS_SEND_C_MKNOD: u16 = 5;
pub const BTRFS_SEND_C_MKFIFO: u16 = 6;
pub const BTRFS_SEND_C_MKSOCK: u16 = 7;
pub const BTRFS_SEND_C_SYMLINK: u16 = 8;
pub const BTRFS_SEND_C_RENAME: u16 = 9;
pub const BTRFS_SEND_C_LINK: u16 = 10;
pub const BTRFS_SEND_C_UNLINK: u16 = 11;
pub const BTRFS_SEND_C_RMDIR: u16 = 12;
pub const BTRFS_SEND_C_SET_XATTR: u16 = 13;
pub const BTRFS_SEND_C_REMOVE_XATTR: u16 = 14;
pub const BTRFS_SEND_C_WRITE: u16 = 15;
pub const BTRFS_SEND_C_CLONE: u16 = 16;
pub const BTRFS_SEND_C_TRUNCATE: u16 = 17;
pub const BTRFS_SEND_C_CHMOD: u16 = 18;
pub const BTRFS_SEND_C_CHOWN: u16 = 19;
pub const BTRFS_SEND_C_UTIMES: u16 = 20;
pub const BTRFS_SEND_C_END: u16 = 21;
pub const BTRFS_SEND_C_UPDATE_EXTENT: u16 = 22;
pub const BTRFS_SEND_C_FALLOCATE: u16 = 23;
pub const BTRFS_SEND_C_FILEATTR: u16 = 24;
pub const BTRFS_SEND_C_ENCODED_WRITE: u16 = 25;

} // verus!
