//! Flags that are used by all functions in the library.
use crate::consts;
use crate::error::{Error, IoResult};
use vstd::prelude::*;

verus! {

/// Flags
///
/// This struct contains flags that are used by all funtions in the library.
#[derive(Debug, Clone, Copy)]
pub struct Flags {
    bits: u64,
}

impl View for Flags {
    type V = u64;

    closed spec fn view(&self) -> u64 {
        self.bits
    }
}

/// Raw `consts::BTRFS_FS_INFO_FLAG_*` bits that correspond to the library flags `bits`.
pub open spec fn spec_raw_fs_info_flags(bits: u64) -> u64 {
    (if bits & Flags::CSUM_INFO != 0 { consts::BTRFS_FS_INFO_FLAG_CSUM_INFO } else { 0 }) | (if bits
        & Flags::GENERATION != 0 {
        consts::BTRFS_FS_INFO_FLAG_GENERATION
    } else {
        0
    }) | (if bits & Flags::METADATA_UUID != 0 { consts::BTRFS_FS_INFO_FLAG_METADATA_UUID } else { 0 })
}

/// Raw `consts::BTRFS_SEND_FLAG_*` bits that correspond to the library flags `bits`.
pub open spec fn spec_raw_send_flags(bits: u64) -> u64 {
    (if bits & Flags::NO_FILE_DATA != 0 { consts::BTRFS_SEND_FLAG_NO_FILE_DATA } else { 0 }) | (if bits
        & Flags::OMIT_STREAM_HEADER != 0 {
        consts::BTRFS_SEND_FLAG_OMIT_STREAM_HEADER
    } else {
        0
    }) | (if bits & Flags::OMIT_END_CMD != 0 { consts::BTRFS_SEND_FLAG_OMIT_END_CMD } else { 0 }) | (if bits
        & Flags::VERSION != 0 {
        consts::BTRFS_SEND_FLAG_VERSION
    } else {
        0
    }) | (if bits & Flags::COMPRESSED != 0 { consts::BTRFS_SEND_FLAG_COMPRESSED } else { 0 })
}

impl Flags {
    pub const NONE: u64 = 0x0;

    // Subvolume iterator flags
    pub const ASCENDING: u64 = 0x0;
    pub const DESCENDING: u64 = 0x1;
    pub const GET_INFO: u64 = 0x2;
    pub const GET_PATH: u64 = 0x4;

    // Filesystem info flags
    pub const CSUM_INFO: u64 = 0x8;
    pub const GENERATION: u64 = 0x10;
    pub const METADATA_UUID: u64 = 0x20;

    // Send flags
    pub const NO_FILE_DATA: u64 = 0x40;
    pub const OMIT_STREAM_HEADER: u64 = 0x80;
    pub const OMIT_END_CMD: u64 = 0x100;
    pub const VERSION: u64 = 0x200;
    pub const COMPRESSED: u64 = 0x400;

    /// Mask of the flags accepted by the filesystem info request.
    pub const FS_INFO_MASK: u64 = 0x38;

    /// Mask of the flags accepted by a send.
    pub const SEND_MASK: u64 = 0x7c0;

    /// Flags with the given bits, kept as they are.
    pub fn from_bits_retain(bits: u64) -> (r: Flags)
        ensures
            r@ == bits,
    {
        Flags { bits }
    }

    /// The raw bits of these flags.
    pub fn bits(&self) -> (r: u64)
        ensures
            r == self@,
    {
        self.bits
    }

    /// Whether every bit of `flag` is set.
    pub fn contains(&self, flag: u64) -> (r: bool)
        ensures
            r == (self@ & flag == flag),
    {
        self.bits & flag == flag
    }

    /// These flags together with the bits of `flag`.
    pub fn with(self, flag: u64) -> (r: Flags)
        ensures
            r@ == self@ | flag,
    {
        Flags { bits: self.bits | flag }
    }

    /// Fails with the bits of these flags that lie outside `mask`, if there are any.
    pub fn check_invalid(&self, mask: u64) -> (r: IoResult<()>)
        ensures
            self@ & !mask == 0 ==> r is Ok,
            self@ & !mask != 0 ==> r == Err::<(), Error>(Error::InvalidFlags(self@ & !mask)),
    {
        let invalid_bits = self.bits & !mask;
        if invalid_bits != 0 {
            return Err(Error::InvalidFlags(invalid_bits));
        }
        Ok(())
    }

    /// Translates these flags to the flags of the filesystem info ioctl.
    pub fn to_raw_fs_info_flags(self) -> (r: IoResult<u64>)
        ensures
            self@ & !Self::FS_INFO_MASK == 0 ==> r == Ok::<u64, Error>(
                spec_raw_fs_info_flags(self@),
            ),
            self@ & !Self::FS_INFO_MASK != 0 ==> r == Err::<u64, Error>(
                Error::InvalidFlags(self@ & !Self::FS_INFO_MASK),
            ),
    {
        self.check_invalid(Self::FS_INFO_MASK)?;
        let bits = self.bits;
        let a: u64 = if self.contains(Self::CSUM_INFO) { consts::BTRFS_FS_INFO_FLAG_CSUM_INFO } else { 0 };
        let b: u64 = if self.contains(Self::GENERATION) { consts::BTRFS_FS_INFO_FLAG_GENERATION } else { 0 };
        let c: u64 = if self.contains(Self::METADATA_UUID) {
            consts::BTRFS_FS_INFO_FLAG_METADATA_UUID
        } else {
            0
        };
        let flags = a | b | c;
        assert(flags == spec_raw_fs_info_flags(bits)) by (bit_vector)
            requires
                a == (if bits & 0x8 == 0x8 { 1u64 } else { 0u64 }),
                b == (if bits & 0x10 == 0x10 { 2u64 } else { 0u64 }),
                c == (if bits & 0x20 == 0x20 { 4u64 } else { 0u64 }),
                flags == a | b | c,
        ;
        Ok(flags)
    }

    /// Translates these flags to the flags of the send ioctl.
    pub fn to_raw_send_flags(self) -> (r: IoResult<u64>)
        ensures
            self@ & !Self::SEND_MASK == 0 ==> r == Ok::<u64, Error>(spec_raw_send_flags(self@)),
            self@ & !Self::SEND_MASK != 0 ==> r == Err::<u64, Error>(
                Error::InvalidFlags(self@ & !Self::SEND_MASK),
            ),
    {
        self.check_invalid(Self::SEND_MASK)?;
        let bits = self.bits;
        let a: u64 = if self.contains(Self::NO_FILE_DATA) { consts::BTRFS_SEND_FLAG_NO_FILE_DATA } else { 0 };
        let b: u64 = if self.contains(Self::OMIT_STREAM_HEADER) {
            consts::BTRFS_SEND_FLAG_OMIT_STREAM_HEADER
        } else {
            0
        };
        let c: u64 = if self.contains(Self::OMIT_END_CMD) { consts::BTRFS_SEND_FLAG_OMIT_END_CMD } else { 0 };
        let d: u64 = if self.contains(Self::VERSION) { consts::BTRFS_SEND_FLAG_VERSION } else { 0 };
        let e: u64 = if self.contains(Self::COMPRESSED) { consts::BTRFS_SEND_FLAG_COMPRESSED } else { 0 };
        let flags = a | b | c | d | e;
        assert(flags == spec_raw_send_flags(bits)) by (bit_vector)
            requires
                a == (if bits & 0x40 == 0x40 { 1u64 } else { 0u64 }),
                b == (if bits & 0x80 == 0x80 { 2u64 } else { 0u64 }),
                c == (if bits & 0x100 == 0x100 { 4u64 } else { 0u64 }),
                d == (if bits & 0x200 == 0x200 { 8u64 } else { 0u64 }),
                e == (if bits & 0x400 == 0x400 { 0x10u64 } else { 0u64 }),
                flags == a | b | c | d | e,
        ;
        Ok(flags)
    }
}

impl Default for Flags {
    fn default() -> (r: Flags)
        ensures
            r@ == Flags::NONE,
    {
        Flags { bits: Flags::NONE }
    }
}


/// The filesystem info flags that library flags translate to hold exactly the raw bits of the
/// flags among them: each library flag sets its own raw bit and nothing else is set.
pub proof fn lemma_raw_fs_info_flags(bits: u64)
    ensures
        ({
            let raw = spec_raw_fs_info_flags(bits);
            &&& (raw & consts::BTRFS_FS_INFO_FLAG_CSUM_INFO != 0) == (bits & Flags::CSUM_INFO != 0)
            &&& (raw & consts::BTRFS_FS_INFO_FLAG_GENERATION != 0) == (bits & Flags::GENERATION
                != 0)
            &&& (raw & consts::BTRFS_FS_INFO_FLAG_METADATA_UUID != 0) == (bits
                & Flags::METADATA_UUID != 0)
            &&& raw & !7u64 == 0
        }),
{
    let raw = spec_raw_fs_info_flags(bits);
    assert((raw & 1u64 != 0) == (bits & 8u64 != 0) && (raw & 2u64 != 0) == (bits & 0x10u64 != 0)
        && (raw & 4u64 != 0) == (bits & 0x20u64 != 0) && raw & !7u64 == 0) by (bit_vector)
        requires
            raw == (if bits & 8u64 != 0 { 1u64 } else { 0u64 }) | (if bits & 0x10u64 != 0 {
                2u64
            } else {
                0u64
            }) | (if bits & 0x20u64 != 0 { 4u64 } else { 0u64 }),
    ;
}

/// The send flags that library flags translate to hold exactly the raw bits of the flags among
/// them: each library flag sets its own raw bit and nothing else is set.
pub proof fn lemma_raw_send_flags(bits: u64)
    ensures
        ({
            let raw = spec_raw_send_flags(bits);
            &&& (raw & consts::BTRFS_SEND_FLAG_NO_FILE_DATA != 0) == (bits & Flags::NO_FILE_DATA
                != 0)
            &&& (raw & consts::BTRFS_SEND_FLAG_OMIT_STREAM_HEADER != 0) == (bits
                & Flags::OMIT_STREAM_HEADER != 0)
            &&& (raw & consts::BTRFS_SEND_FLAG_OMIT_END_CMD != 0) == (bits & Flags::OMIT_END_CMD
                != 0)
            &&& (raw & consts::BTRFS_SEND_FLAG_VERSION != 0) == (bits & Flags::VERSION != 0)
            &&& (raw & consts::BTRFS_SEND_FLAG_COMPRESSED != 0) == (bits & Flags::COMPRESSED != 0)
            &&& raw & !0x1fu64 == 0
        }),
{
    let raw = spec_raw_send_flags(bits);
    assert((raw & 1u64 != 0) == (bits & 0x40u64 != 0) && (raw & 2u64 != 0) == (bits & 0x80u64
        != 0) && (raw & 4u64 != 0) == (bits & 0x100u64 != 0) && (raw & 8u64 != 0) == (bits
        & 0x200u64 != 0) && (raw & 0x10u64 != 0) == (bits & 0x400u64 != 0) && raw & !0x1fu64 == 0)
        by (bit_vector)
        requires
            raw == (if bits & 0x40u64 != 0 { 1u64 } else { 0u64 }) | (if bits & 0x80u64 != 0 {
                2u64
            } else {
                0u64
            }) | (if bits & 0x100u64 != 0 { 4u64 } else { 0u64 }) | (if bits & 0x200u64 != 0 {
                8u64
            } else {
                0u64
            }) | (if bits & 0x400u64 != 0 { 0x10u64 } else { 0u64 }),
    ;
}

} // verus!
