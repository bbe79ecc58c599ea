//! Items found by a BTRFS Tree Search
//!
//! Each item is read from the little-endian bytes of its on-disk structure. For documentation
//! of BTRFS Tree items, please see, btrfs-dev-docs - tree-items.txt.
use crate::bytes::{le16, le32, le64, read_le16, read_le32, read_le64, Uuid};
use crate::consts;
use crate::error::{Error, ErrorKind, IoResult};
use crate::util::{utf8_lossy, utf8_lossy_result, KernelStr};
use vstd::prelude::*;
use vstd::slice::slice_subrange;

verus! {

/// An item of a btrfs tree, read from its bytes.
pub trait TreeItem<'buf>: Sized {
    /// Key type of the item.
    const KEY: u32;

    /// Fewest bytes of data the item is read from.
    spec fn min_len() -> nat;

    /// Bytes the item is read from.
    spec fn item_bytes(&self) -> Seq<u8>;

    /// Bytes the item is read from.
    fn as_bytes(&self) -> (r: &'buf [u8])
        ensures
            r@ == self.item_bytes(),
    ;

    /// The item held by `bytes`, which must be long enough.
    fn from_bytes_unchecked(bytes: &'buf [u8]) -> (r: Self)
        requires
            bytes@.len() >= Self::min_len(),
        ensures
            r.item_bytes() == bytes@,
    ;

    /// The item of type `key` held by `bytes`, when `key` is the key of this item and `bytes`
    /// is long enough.
    fn from_search(bytes: &'buf [u8], key: u32) -> (r: Option<Self>)
        ensures
            r is Some <==> key == Self::KEY && bytes@.len() >= Self::min_len(),
            r matches Some(it) ==> it.item_bytes() == bytes@,
    ;
}

/// Where the name of an item that carries one is stored.
pub trait ItemNameMeta<'buf>: TreeItem<'buf> {
    /// Where the little-endian `u16` length of the name is stored.
    spec fn spec_name_len_offset() -> nat;

    /// Where the name starts.
    spec fn spec_name_offset() -> nat;

    /// Length of the name.
    fn name_len(&self) -> (r: usize)
        ensures
            r == le16(self.item_bytes(), Self::spec_name_len_offset() as int),
    ;

    /// Where the name starts.
    fn name_offset(&self) -> (r: usize)
        ensures
            r == Self::spec_name_offset(),
            r <= self.item_bytes().len(),
    ;
}

/// The name of the item with bytes `b`, stored at `start` with the length stored at
/// `len_offset`, when it lies within the item and holds no zero byte.
pub open spec fn spec_item_name(b: Seq<u8>, len_offset: int, start: int) -> Option<Seq<u8>> {
    let end = start + le16(b, len_offset);
    if end <= b.len() && !(exists|i: int| start <= i < end && b[i] == 0) {
        Some(b.subrange(start, end))
    } else {
        None
    }
}

impl<'buf, T: ItemNameMeta<'buf>> TreeItemName<'buf> for T {

}

/// Reading the name of an item that carries one.
pub trait TreeItemName<'buf>: ItemNameMeta<'buf> {
    /// The name of this item; fails with `InvalidData` when it holds a zero byte or runs past
    /// the end of the item.
    fn name_bytes(&self) -> (r: IoResult<&'buf [u8]>)
        ensures
            match spec_item_name(
                self.item_bytes(),
                Self::spec_name_len_offset() as int,
                Self::spec_name_offset() as int,
            ) {
                Some(n) => r matches Ok(v) && v@ == n,
                None => r == Err::<&[u8], Error>(Error::Kind(ErrorKind::InvalidData)),
            },
    {
        let bytes = self.as_bytes();
        let start = self.name_offset();
        let len = self.name_len();
        if len > bytes.len() - start {
            return Err(Error::Kind(ErrorKind::InvalidData));
        }
        let end = start + len;
        let mut i = start;
        while i < end
            invariant
                start <= i <= end <= bytes@.len(),
                bytes@ == self.item_bytes(),
                start == Self::spec_name_offset(),
                end == start + le16(self.item_bytes(), Self::spec_name_len_offset() as int),
                forall|j: int| start <= j < i ==> bytes@[j] != 0,
            decreases end - i,
        {
            if bytes[i] == 0 {
                assert(bytes@[i as int] == 0);
                return Err(Error::Kind(ErrorKind::InvalidData));
            }
            i = i + 1;
        }
        Ok(slice_subrange(bytes, start, end))
    }

    /// The name of this item, with invalid UTF-8 replaced.
    fn name_str(&self) -> (r: IoResult<KernelStr>)
        ensures
            match spec_item_name(
                self.item_bytes(),
                Self::spec_name_len_offset() as int,
                Self::spec_name_offset() as int,
            ) {
                Some(n) => r matches Ok(v) && v@ == utf8_lossy_result(n),
                None => r == Err::<KernelStr, Error>(Error::Kind(ErrorKind::InvalidData)),
            },
    {
        let name = self.name_bytes()?;
        Ok(utf8_lossy(name))
    }
}

/// A timestamp: seconds and nanoseconds.
#[derive(Clone, Copy)]
pub struct Timespec<'a> {
    bytes: &'a [u8],
}

impl<'a> View for Timespec<'a> {
    type V = Seq<u8>;

    closed spec fn view(&self) -> Seq<u8> {
        self.bytes@
    }
}

impl<'a> Timespec<'a> {
    #[verifier::type_invariant]
    closed spec fn wf(self) -> bool {
        self.bytes@.len() >= 12
    }

    /// Length of the fixed part of this item.
    pub const SIZE: usize = 12;

    /// The item held by `bytes`, when `bytes` is long enough.
    pub fn from_bytes(bytes: &'a [u8]) -> (r: Option<Self>)
        ensures
            r is Some <==> bytes@.len() >= 12,
            r matches Some(it) ==> it@ == bytes@,
    {
        if bytes.len() >= 12 {
            Some(Timespec { bytes })
        } else {
            None
        }
    }

    pub fn nsec(&self) -> (r: u32)
        ensures
            r == le32(self@, 8),
    {
        proof {
            use_type_invariant(self);
        }
        read_le32(self.bytes, 8)
    }

    pub fn sec(&self) -> (r: u64)
        ensures
            r == le64(self@, 0),
    {
        proof {
            use_type_invariant(self);
        }
        read_le64(self.bytes, 0)
    }
}

/// Key of an item as stored on disk.
#[derive(Clone, Copy)]
pub struct DiskKey<'a> {
    bytes: &'a [u8],
}

impl<'a> View for DiskKey<'a> {
    type V = Seq<u8>;

    closed spec fn view(&self) -> Seq<u8> {
        self.bytes@
    }
}

impl<'a> DiskKey<'a> {
    #[verifier::type_invariant]
    closed spec fn wf(self) -> bool {
        self.bytes@.len() >= 17
    }

    /// Length of the fixed part of this item.
    pub const SIZE: usize = 17;

    /// The item held by `bytes`, when `bytes` is long enough.
    pub fn from_bytes(bytes: &'a [u8]) -> (r: Option<Self>)
        ensures
            r is Some <==> bytes@.len() >= 17,
            r matches Some(it) ==> it@ == bytes@,
    {
        if bytes.len() >= 17 {
            Some(DiskKey { bytes })
        } else {
            None
        }
    }

    pub fn objectid(&self) -> (r: u64)
        ensures
            r == le64(self@, 0),
    {
        proof {
            use_type_invariant(self);
        }
        read_le64(self.bytes, 0)
    }

    pub fn offset(&self) -> (r: u64)
        ensures
            r == le64(self@, 9),
    {
        proof {
            use_type_invariant(self);
        }
        read_le64(self.bytes, 9)
    }

    pub fn type_(&self) -> (r: u8)
        ensures
            r == self@[8],
    {
        proof {
            use_type_invariant(self);
        }
        self.bytes[8]
    }
}

/// Root item of a tree.
#[derive(Clone, Copy)]
pub struct RootItem<'a> {
    bytes: &'a [u8],
}

impl<'a> View for RootItem<'a> {
    type V = Seq<u8>;

    closed spec fn view(&self) -> Seq<u8> {
        self.bytes@
    }
}

impl<'a> RootItem<'a> {
    #[verifier::type_invariant]
    closed spec fn wf(self) -> bool {
        self.bytes@.len() >= 439
    }

    /// Length of the fixed part of this item.
    pub const SIZE: usize = 439;

    /// The item held by `bytes`, when `bytes` is long enough.
    pub fn from_bytes(bytes: &'a [u8]) -> (r: Option<Self>)
        ensures
            r is Some <==> bytes@.len() >= 439,
            r matches Some(it) ==> it@ == bytes@,
    {
        if bytes.len() >= 439 {
            Some(RootItem { bytes })
        } else {
            None
        }
    }

    pub fn inode_item(&self) -> (r: InodeItem<'a>)
        ensures
            r@ == self@.subrange(0, 160),
            160 <= self@.len(),
    {
        proof {
            use_type_invariant(self);
        }
        InodeItem { bytes: slice_subrange(self.bytes, 0, 160) }
    }

    pub fn generation(&self) -> (r: u64)
        ensures
            r == le64(self@, 160),
    {
        proof {
            use_type_invariant(self);
        }
        read_le64(self.bytes, 160)
    }

    pub fn root_dirid(&self) -> (r: u64)
        ensures
            r == le64(self@, 168),
    {
        proof {
            use_type_invariant(self);
        }
        read_le64(self.bytes, 168)
    }

    pub fn bytenr(&self) -> (r: u64)
        ensures
            r == le64(self@, 176),
    {
        proof {
            use_type_invariant(self);
        }
        read_le64(self.bytes, 176)
    }

    pub fn byte_limit(&self) -> (r: u64)
        ensures
            r == le64(self@, 184),
    {
        proof {
            use_type_invariant(self);
        }
        read_le64(self.bytes, 184)
    }

    pub fn bytes_used(&self) -> (r: u64)
        ensures
            r == le64(self@, 192),
    {
        proof {
            use_type_invariant(self);
        }
        read_le64(self.bytes, 192)
    }

    pub fn last_snapshot(&self) -> (r: u64)
        ensures
            r == le64(self@, 200),
    {
        proof {
            use_type_invariant(self);
        }
        read_le64(self.bytes, 200)
    }

    pub fn flags(&self) -> (r: u64)
        ensures
            r == le64(self@, 208),
    {
        proof {
            use_type_invariant(self);
        }
        read_le64(self.bytes, 208)
    }

    pub fn refs(&self) -> (r: u32)
        ensures
            r == le32(self@, 216),
    {
        proof {
            use_type_invariant(self);
        }
        read_le32(self.bytes, 216)
    }

    pub fn drop_progress(&self) -> (r: DiskKey<'a>)
        ensures
            r@ == self@.subrange(220, 237),
            237 <= self@.len(),
    {
        proof {
            use_type_invariant(self);
        }
        DiskKey { bytes: slice_subrange(self.bytes, 220, 237) }
    }

    pub fn drop_level(&self) -> (r: u8)
        ensures
            r == self@[237],
    {
        proof {
            use_type_invariant(self);
        }
        self.bytes[237]
    }

    pub fn generation_v2(&self) -> (r: u64)
        ensures
            r == le64(self@, 239),
    {
        proof {
            use_type_invariant(self);
        }
        read_le64(self.bytes, 239)
    }

    pub fn uuid(&self) -> (r: Uuid)
        ensures
            r@ == self@.subrange(247, 263),
            263 <= self@.len(),
    {
        proof {
            use_type_invariant(self);
        }
        Uuid::read(self.bytes, 247)
    }

    pub fn parent_uuid(&self) -> (r: Uuid)
        ensures
            r@ == self@.subrange(263, 279),
            279 <= self@.len(),
    {
        proof {
            use_type_invariant(self);
        }
        Uuid::read(self.bytes, 263)
    }

    pub fn received_uuid(&self) -> (r: Uuid)
        ensures
            r@ == self@.subrange(279, 295),
            295 <= self@.len(),
    {
        proof {
            use_type_invariant(self);
        }
        Uuid::read(self.bytes, 279)
    }

    pub fn otransid(&self) -> (r: u64)
        ensures
            r == le64(self@, 303),
    {
        proof {
            use_type_invariant(self);
        }
        read_le64(self.bytes, 303)
    }

    pub fn ctransid(&self) -> (r: u64)
        ensures
            r == le64(self@, 295),
    {
        proof {
            use_type_invariant(self);
        }
        read_le64(self.bytes, 295)
    }

    pub fn stransid(&self) -> (r: u64)
        ensures
            r == le64(self@, 311),
    {
        proof {
            use_type_invariant(self);
        }
        read_le64(self.bytes, 311)
    }

    pub fn rtransid(&self) -> (r: u64)
        ensures
            r == le64(self@, 319),
    {
        proof {
            use_type_invariant(self);
        }
        read_le64(self.bytes, 319)
    }

    pub fn ctime(&self) -> (r: Timespec<'a>)
        ensures
            r@ == self@.subrange(327, 339),
            339 <= self@.len(),
    {
        proof {
            use_type_invariant(self);
        }
        Timespec { bytes: slice_subrange(self.bytes, 327, 339) }
    }

    pub fn otime(&self) -> (r: Timespec<'a>)
        ensures
            r@ == self@.subrange(339, 351),
            351 <= self@.len(),
    {
        proof {
            use_type_invariant(self);
        }
        Timespec { bytes: slice_subrange(self.bytes, 339, 351) }
    }

    pub fn stime(&self) -> (r: Timespec<'a>)
        ensures
            r@ == self@.subrange(351, 363),
            363 <= self@.len(),
    {
        proof {
            use_type_invariant(self);
        }
        Timespec { bytes: slice_subrange(self.bytes, 351, 363) }
    }

    pub fn rtime(&self) -> (r: Timespec<'a>)
        ensures
            r@ == self@.subrange(363, 375),
            375 <= self@.len(),
    {
        proof {
            use_type_invariant(self);
        }
        Timespec { bytes: slice_subrange(self.bytes, 363, 375) }
    }
}

impl<'a> TreeItem<'a> for RootItem<'a> {
    const KEY: u32 = consts::BTRFS_ROOT_ITEM_KEY;

    open spec fn min_len() -> nat {
        439
    }

    open spec fn item_bytes(&self) -> Seq<u8> {
        self@
    }

    fn as_bytes(&self) -> (r: &'a [u8]) {
        self.bytes
    }

    fn from_bytes_unchecked(bytes: &'a [u8]) -> (r: Self) {
        RootItem { bytes }
    }

    fn from_search(bytes: &'a [u8], key: u32) -> (r: Option<Self>) {
        if key == Self::KEY && bytes.len() >= 439 {
            Some(RootItem { bytes })
        } else {
            None
        }
    }
}

/// Reference from a tree to a subvolume that it holds.
#[derive(Clone, Copy)]
pub struct RootRef<'a> {
    bytes: &'a [u8],
}

impl<'a> View for RootRef<'a> {
    type V = Seq<u8>;

    closed spec fn view(&self) -> Seq<u8> {
        self.bytes@
    }
}

impl<'a> RootRef<'a> {
    #[verifier::type_invariant]
    closed spec fn wf(self) -> bool {
        self.bytes@.len() >= 18
    }

    /// Length of the fixed part of this item.
    pub const SIZE: usize = 18;

    /// The item held by `bytes`, when `bytes` is long enough.
    pub fn from_bytes(bytes: &'a [u8]) -> (r: Option<Self>)
        ensures
            r is Some <==> bytes@.len() >= 18,
            r matches Some(it) ==> it@ == bytes@,
    {
        if bytes.len() >= 18 {
            Some(RootRef { bytes })
        } else {
            None
        }
    }

    pub fn dirid(&self) -> (r: u64)
        ensures
            r == le64(self@, 0),
    {
        proof {
            use_type_invariant(self);
        }
        read_le64(self.bytes, 0)
    }

    pub fn sequence(&self) -> (r: u64)
        ensures
            r == le64(self@, 8),
    {
        proof {
            use_type_invariant(self);
        }
        read_le64(self.bytes, 8)
    }
}

impl<'a> TreeItem<'a> for RootRef<'a> {
    const KEY: u32 = consts::BTRFS_ROOT_REF_KEY;

    open spec fn min_len() -> nat {
        18
    }

    open spec fn item_bytes(&self) -> Seq<u8> {
        self@
    }

    fn as_bytes(&self) -> (r: &'a [u8]) {
        self.bytes
    }

    fn from_bytes_unchecked(bytes: &'a [u8]) -> (r: Self) {
        RootRef { bytes }
    }

    fn from_search(bytes: &'a [u8], key: u32) -> (r: Option<Self>) {
        if key == Self::KEY && bytes.len() >= 18 {
            Some(RootRef { bytes })
        } else {
            None
        }
    }
}

impl<'a> ItemNameMeta<'a> for RootRef<'a> {
    open spec fn spec_name_len_offset() -> nat {
        16
    }

    open spec fn spec_name_offset() -> nat {
        18
    }

    fn name_len(&self) -> (r: usize) {
        proof {
            use_type_invariant(self);
        }
        read_le16(self.bytes, 16) as usize
    }

    fn name_offset(&self) -> (r: usize) {
        proof {
            use_type_invariant(self);
        }
        18
    }
}

/// Reference from a subvolume to the tree that holds it.
#[derive(Clone, Copy)]
pub struct RootBackref<'a> {
    bytes: &'a [u8],
}

impl<'a> View for RootBackref<'a> {
    type V = Seq<u8>;

    closed spec fn view(&self) -> Seq<u8> {
        self.bytes@
    }
}

impl<'a> RootBackref<'a> {
    #[verifier::type_invariant]
    closed spec fn wf(self) -> bool {
        self.bytes@.len() >= 18
    }

    /// Length of the fixed part of this item.
    pub const SIZE: usize = 18;

    /// The item held by `bytes`, when `bytes` is long enough.
    pub fn from_bytes(bytes: &'a [u8]) -> (r: Option<Self>)
        ensures
            r is Some <==> bytes@.len() >= 18,
            r matches Some(it) ==> it@ == bytes@,
    {
        if bytes.len() >= 18 {
            Some(RootBackref { bytes })
        } else {
            None
        }
    }

    pub fn dirid(&self) -> (r: u64)
        ensures
            r == le64(self@, 0),
    {
        proof {
            use_type_invariant(self);
        }
        read_le64(self.bytes, 0)
    }

    pub fn sequence(&self) -> (r: u64)
        ensures
            r == le64(self@, 8),
    {
        proof {
            use_type_invariant(self);
        }
        read_le64(self.bytes, 8)
    }
}

impl<'a> TreeItem<'a> for RootBackref<'a> {
    const KEY: u32 = consts::BTRFS_ROOT_BACKREF_KEY;

    open spec fn min_len() -> nat {
        18
    }

    open spec fn item_bytes(&self) -> Seq<u8> {
        self@
    }

    fn as_bytes(&self) -> (r: &'a [u8]) {
        self.bytes
    }

    fn from_bytes_unchecked(bytes: &'a [u8]) -> (r: Self) {
        RootBackref { bytes }
    }

    fn from_search(bytes: &'a [u8], key: u32) -> (r: Option<Self>) {
        if key == Self::KEY && bytes.len() >= 18 {
            Some(RootBackref { bytes })
        } else {
            None
        }
    }
}

impl<'a> ItemNameMeta<'a> for RootBackref<'a> {
    open spec fn spec_name_len_offset() -> nat {
        16
    }

    open spec fn spec_name_offset() -> nat {
        18
    }

    fn name_len(&self) -> (r: usize) {
        proof {
            use_type_invariant(self);
        }
        read_le16(self.bytes, 16) as usize
    }

    fn name_offset(&self) -> (r: usize) {
        proof {
            use_type_invariant(self);
        }
        18
    }
}

/// Inode item.
#[derive(Clone, Copy)]
pub struct InodeItem<'a> {
    bytes: &'a [u8],
}

impl<'a> View for InodeItem<'a> {
    type V = Seq<u8>;

    closed spec fn view(&self) -> Seq<u8> {
        self.bytes@
    }
}

impl<'a> InodeItem<'a> {
    #[verifier::type_invariant]
    closed spec fn wf(self) -> bool {
        self.bytes@.len() >= 160
    }

    /// Length of the fixed part of this item.
    pub const SIZE: usize = 160;

    /// The item held by `bytes`, when `bytes` is long enough.
    pub fn from_bytes(bytes: &'a [u8]) -> (r: Option<Self>)
        ensures
            r is Some <==> bytes@.len() >= 160,
            r matches Some(it) ==> it@ == bytes@,
    {
        if bytes.len() >= 160 {
            Some(InodeItem { bytes })
        } else {
            None
        }
    }

    pub fn generation(&self) -> (r: u64)
        ensures
            r == le64(self@, 0),
    {
        proof {
            use_type_invariant(self);
        }
        read_le64(self.bytes, 0)
    }

    pub fn transid(&self) -> (r: u64)
        ensures
            r == le64(self@, 8),
    {
        proof {
            use_type_invariant(self);
        }
        read_le64(self.bytes, 8)
    }

    pub fn size(&self) -> (r: u64)
        ensures
            r == le64(self@, 16),
    {
        proof {
            use_type_invariant(self);
        }
        read_le64(self.bytes, 16)
    }

    pub fn nbytes(&self) -> (r: u64)
        ensures
            r == le64(self@, 24),
    {
        proof {
            use_type_invariant(self);
        }
        read_le64(self.bytes, 24)
    }

    pub fn block_group(&self) -> (r: u64)
        ensures
            r == le64(self@, 32),
    {
        proof {
            use_type_invariant(self);
        }
        read_le64(self.bytes, 32)
    }

    pub fn nlink(&self) -> (r: u32)
        ensures
            r == le32(self@, 40),
    {
        proof {
            use_type_invariant(self);
        }
        read_le32(self.bytes, 40)
    }

    pub fn uid(&self) -> (r: u32)
        ensures
            r == le32(self@, 44),
    {
        proof {
            use_type_invariant(self);
        }
        read_le32(self.bytes, 44)
    }

    pub fn gid(&self) -> (r: u32)
        ensures
            r == le32(self@, 48),
    {
        proof {
            use_type_invariant(self);
        }
        read_le32(self.bytes, 48)
    }

    pub fn mode(&self) -> (r: u32)
        ensures
            r == le32(self@, 52),
    {
        proof {
            use_type_invariant(self);
        }
        read_le32(self.bytes, 52)
    }

    pub fn rdev(&self) -> (r: u64)
        ensures
            r == le64(self@, 56),
    {
        proof {
            use_type_invariant(self);
        }
        read_le64(self.bytes, 56)
    }

    pub fn flags(&self) -> (r: u64)
        ensures
            r == le64(self@, 64),
    {
        proof {
            use_type_invariant(self);
        }
        read_le64(self.bytes, 64)
    }

    pub fn sequence(&self) -> (r: u64)
        ensures
            r == le64(self@, 72),
    {
        proof {
            use_type_invariant(self);
        }
        read_le64(self.bytes, 72)
    }

    pub fn atime(&self) -> (r: Timespec<'a>)
        ensures
            r@ == self@.subrange(112, 124),
            124 <= self@.len(),
    {
        proof {
            use_type_invariant(self);
        }
        Timespec { bytes: slice_subrange(self.bytes, 112, 124) }
    }

    pub fn ctime(&self) -> (r: Timespec<'a>)
        ensures
            r@ == self@.subrange(124, 136),
            136 <= self@.len(),
    {
        proof {
            use_type_invariant(self);
        }
        Timespec { bytes: slice_subrange(self.bytes, 124, 136) }
    }

    pub fn mtime(&self) -> (r: Timespec<'a>)
        ensures
            r@ == self@.subrange(136, 148),
            148 <= self@.len(),
    {
        proof {
            use_type_invariant(self);
        }
        Timespec { bytes: slice_subrange(self.bytes, 136, 148) }
    }

    pub fn otime(&self) -> (r: Timespec<'a>)
        ensures
            r@ == self@.subrange(148, 160),
            160 <= self@.len(),
    {
        proof {
            use_type_invariant(self);
        }
        Timespec { bytes: slice_subrange(self.bytes, 148, 160) }
    }
}

impl<'a> TreeItem<'a> for InodeItem<'a> {
    const KEY: u32 = consts::BTRFS_INODE_ITEM_KEY;

    open spec fn min_len() -> nat {
        160
    }

    open spec fn item_bytes(&self) -> Seq<u8> {
        self@
    }

    fn as_bytes(&self) -> (r: &'a [u8]) {
        self.bytes
    }

    fn from_bytes_unchecked(bytes: &'a [u8]) -> (r: Self) {
        InodeItem { bytes }
    }

    fn from_search(bytes: &'a [u8], key: u32) -> (r: Option<Self>) {
        if key == Self::KEY && bytes.len() >= 160 {
            Some(InodeItem { bytes })
        } else {
            None
        }
    }
}

/// Chunk item: the mapping of a logical range to device stripes.
#[derive(Clone, Copy)]
pub struct ChunkItem<'a> {
    bytes: &'a [u8],
}

impl<'a> View for ChunkItem<'a> {
    type V = Seq<u8>;

    closed spec fn view(&self) -> Seq<u8> {
        self.bytes@
    }
}

impl<'a> ChunkItem<'a> {
    #[verifier::type_invariant]
    closed spec fn wf(self) -> bool {
        self.bytes@.len() >= 80
    }

    /// Length of the fixed part of this item.
    pub const SIZE: usize = 80;

    /// The item held by `bytes`, when `bytes` is long enough.
    pub fn from_bytes(bytes: &'a [u8]) -> (r: Option<Self>)
        ensures
            r is Some <==> bytes@.len() >= 80,
            r matches Some(it) ==> it@ == bytes@,
    {
        if bytes.len() >= 80 {
            Some(ChunkItem { bytes })
        } else {
            None
        }
    }

    pub fn length(&self) -> (r: u64)
        ensures
            r == le64(self@, 0),
    {
        proof {
            use_type_invariant(self);
        }
        read_le64(self.bytes, 0)
    }

    pub fn owner(&self) -> (r: u64)
        ensures
            r == le64(self@, 8),
    {
        proof {
            use_type_invariant(self);
        }
        read_le64(self.bytes, 8)
    }

    pub fn stripe_len(&self) -> (r: u64)
        ensures
            r == le64(self@, 16),
    {
        proof {
            use_type_invariant(self);
        }
        read_le64(self.bytes, 16)
    }

    pub fn type_(&self) -> (r: u64)
        ensures
            r == le64(self@, 24),
    {
        proof {
            use_type_invariant(self);
        }
        read_le64(self.bytes, 24)
    }

    pub fn io_align(&self) -> (r: u32)
        ensures
            r == le32(self@, 32),
    {
        proof {
            use_type_invariant(self);
        }
        read_le32(self.bytes, 32)
    }

    pub fn io_width(&self) -> (r: u32)
        ensures
            r == le32(self@, 36),
    {
        proof {
            use_type_invariant(self);
        }
        read_le32(self.bytes, 36)
    }

    pub fn sector_size(&self) -> (r: u32)
        ensures
            r == le32(self@, 40),
    {
        proof {
            use_type_invariant(self);
        }
        read_le32(self.bytes, 40)
    }

    pub fn num_stripes(&self) -> (r: u16)
        ensures
            r == le16(self@, 44),
    {
        proof {
            use_type_invariant(self);
        }
        read_le16(self.bytes, 44)
    }

    /// Number of sub stripes, the 16 bit field after the number of stripes.
    pub fn sub_stripes(&self) -> (r: u64)
        ensures
            r == le16(self@, 46),
    {
        proof {
            use_type_invariant(self);
        }
        read_le16(self.bytes, 46) as u64
    }

    pub fn stripts(&self) -> (r: Stripe<'a>)
        ensures
            r@ == self@.subrange(48, 80),
            80 <= self@.len(),
    {
        proof {
            use_type_invariant(self);
        }
        Stripe { bytes: slice_subrange(self.bytes, 48, 80) }
    }
}

impl<'a> TreeItem<'a> for ChunkItem<'a> {
    const KEY: u32 = consts::BTRFS_CHUNK_ITEM_KEY;

    open spec fn min_len() -> nat {
        80
    }

    open spec fn item_bytes(&self) -> Seq<u8> {
        self@
    }

    fn as_bytes(&self) -> (r: &'a [u8]) {
        self.bytes
    }

    fn from_bytes_unchecked(bytes: &'a [u8]) -> (r: Self) {
        ChunkItem { bytes }
    }

    fn from_search(bytes: &'a [u8], key: u32) -> (r: Option<Self>) {
        if key == Self::KEY && bytes.len() >= 80 {
            Some(ChunkItem { bytes })
        } else {
            None
        }
    }
}

/// A stripe of a chunk.
#[derive(Clone, Copy)]
pub struct Stripe<'a> {
    bytes: &'a [u8],
}

impl<'a> View for Stripe<'a> {
    type V = Seq<u8>;

    closed spec fn view(&self) -> Seq<u8> {
        self.bytes@
    }
}

impl<'a> Stripe<'a> {
    #[verifier::type_invariant]
    closed spec fn wf(self) -> bool {
        self.bytes@.len() >= 32
    }

    /// Length of the fixed part of this item.
    pub const SIZE: usize = 32;

    /// The item held by `bytes`, when `bytes` is long enough.
    pub fn from_bytes(bytes: &'a [u8]) -> (r: Option<Self>)
        ensures
            r is Some <==> bytes@.len() >= 32,
            r matches Some(it) ==> it@ == bytes@,
    {
        if bytes.len() >= 32 {
            Some(Stripe { bytes })
        } else {
            None
        }
    }

    pub fn devid(&self) -> (r: u64)
        ensures
            r == le64(self@, 0),
    {
        proof {
            use_type_invariant(self);
        }
        read_le64(self.bytes, 0)
    }

    pub fn offset(&self) -> (r: u64)
        ensures
            r == le64(self@, 8),
    {
        proof {
            use_type_invariant(self);
        }
        read_le64(self.bytes, 8)
    }

    pub fn dev_uuid(&self) -> (r: Uuid)
        ensures
            r@ == self@.subrange(16, 32),
            32 <= self@.len(),
    {
        proof {
            use_type_invariant(self);
        }
        Uuid::read(self.bytes, 16)
    }
}

/// Device item.
#[derive(Clone, Copy)]
pub struct DevItem<'a> {
    bytes: &'a [u8],
}

impl<'a> View for DevItem<'a> {
    type V = Seq<u8>;

    closed spec fn view(&self) -> Seq<u8> {
        self.bytes@
    }
}

impl<'a> DevItem<'a> {
    #[verifier::type_invariant]
    closed spec fn wf(self) -> bool {
        self.bytes@.len() >= 98
    }

    /// Length of the fixed part of this item.
    pub const SIZE: usize = 98;

    /// The item held by `bytes`, when `bytes` is long enough.
    pub fn from_bytes(bytes: &'a [u8]) -> (r: Option<Self>)
        ensures
            r is Some <==> bytes@.len() >= 98,
            r matches Some(it) ==> it@ == bytes@,
    {
        if bytes.len() >= 98 {
            Some(DevItem { bytes })
        } else {
            None
        }
    }

    pub fn devid(&self) -> (r: u64)
        ensures
            r == le64(self@, 0),
    {
        proof {
            use_type_invariant(self);
        }
        read_le64(self.bytes, 0)
    }

    pub fn total_bytes(&self) -> (r: u64)
        ensures
            r == le64(self@, 8),
    {
        proof {
            use_type_invariant(self);
        }
        read_le64(self.bytes, 8)
    }

    pub fn bytes_used(&self) -> (r: u64)
        ensures
            r == le64(self@, 16),
    {
        proof {
            use_type_invariant(self);
        }
        read_le64(self.bytes, 16)
    }

    pub fn io_align(&self) -> (r: u32)
        ensures
            r == le32(self@, 24),
    {
        proof {
            use_type_invariant(self);
        }
        read_le32(self.bytes, 24)
    }

    pub fn io_width(&self) -> (r: u32)
        ensures
            r == le32(self@, 28),
    {
        proof {
            use_type_invariant(self);
        }
        read_le32(self.bytes, 28)
    }

    pub fn sector_size(&self) -> (r: u32)
        ensures
            r == le32(self@, 32),
    {
        proof {
            use_type_invariant(self);
        }
        read_le32(self.bytes, 32)
    }

    pub fn uuid(&self) -> (r: Uuid)
        ensures
            r@ == self@.subrange(66, 82),
            82 <= self@.len(),
    {
        proof {
            use_type_invariant(self);
        }
        Uuid::read(self.bytes, 66)
    }

    pub fn fsid(&self) -> (r: Uuid)
        ensures
            r@ == self@.subrange(82, 98),
            98 <= self@.len(),
    {
        proof {
            use_type_invariant(self);
        }
        Uuid::read(self.bytes, 82)
    }
}

impl<'a> TreeItem<'a> for DevItem<'a> {
    const KEY: u32 = consts::BTRFS_DEV_ITEM_KEY;

    open spec fn min_len() -> nat {
        98
    }

    open spec fn item_bytes(&self) -> Seq<u8> {
        self@
    }

    fn as_bytes(&self) -> (r: &'a [u8]) {
        self.bytes
    }

    fn from_bytes_unchecked(bytes: &'a [u8]) -> (r: Self) {
        DevItem { bytes }
    }

    fn from_search(bytes: &'a [u8], key: u32) -> (r: Option<Self>) {
        if key == Self::KEY && bytes.len() >= 98 {
            Some(DevItem { bytes })
        } else {
            None
        }
    }
}

/// Device extent item.
#[derive(Clone, Copy)]
pub struct DevExtent<'a> {
    bytes: &'a [u8],
}

impl<'a> View for DevExtent<'a> {
    type V = Seq<u8>;

    closed spec fn view(&self) -> Seq<u8> {
        self.bytes@
    }
}

impl<'a> DevExtent<'a> {
    #[verifier::type_invariant]
    closed spec fn wf(self) -> bool {
        self.bytes@.len() >= 48
    }

    /// Length of the fixed part of this item.
    pub const SIZE: usize = 48;

    /// The item held by `bytes`, when `bytes` is long enough.
    pub fn from_bytes(bytes: &'a [u8]) -> (r: Option<Self>)
        ensures
            r is Some <==> bytes@.len() >= 48,
            r matches Some(it) ==> it@ == bytes@,
    {
        if bytes.len() >= 48 {
            Some(DevExtent { bytes })
        } else {
            None
        }
    }

    pub fn chunk_tree(&self) -> (r: u64)
        ensures
            r == le64(self@, 0),
    {
        proof {
            use_type_invariant(self);
        }
        read_le64(self.bytes, 0)
    }

    pub fn chunk_objectid(&self) -> (r: u64)
        ensures
            r == le64(self@, 8),
    {
        proof {
            use_type_invariant(self);
        }
        read_le64(self.bytes, 8)
    }

    pub fn chunk_offset(&self) -> (r: u64)
        ensures
            r == le64(self@, 16),
    {
        proof {
            use_type_invariant(self);
        }
        read_le64(self.bytes, 16)
    }

    pub fn length(&self) -> (r: u64)
        ensures
            r == le64(self@, 24),
    {
        proof {
            use_type_invariant(self);
        }
        read_le64(self.bytes, 24)
    }

    pub fn chunk_tree_uuid(&self) -> (r: Uuid)
        ensures
            r@ == self@.subrange(32, 48),
            48 <= self@.len(),
    {
        proof {
            use_type_invariant(self);
        }
        Uuid::read(self.bytes, 32)
    }
}

impl<'a> TreeItem<'a> for DevExtent<'a> {
    const KEY: u32 = consts::BTRFS_DEV_EXTENT_KEY;

    open spec fn min_len() -> nat {
        48
    }

    open spec fn item_bytes(&self) -> Seq<u8> {
        self@
    }

    fn as_bytes(&self) -> (r: &'a [u8]) {
        self.bytes
    }

    fn from_bytes_unchecked(bytes: &'a [u8]) -> (r: Self) {
        DevExtent { bytes }
    }

    fn from_search(bytes: &'a [u8], key: u32) -> (r: Option<Self>) {
        if key == Self::KEY && bytes.len() >= 48 {
            Some(DevExtent { bytes })
        } else {
            None
        }
    }
}

/// Device statistics item.
#[derive(Clone, Copy)]
pub struct DevStatsItem<'a> {
    bytes: &'a [u8],
}

impl<'a> View for DevStatsItem<'a> {
    type V = Seq<u8>;

    closed spec fn view(&self) -> Seq<u8> {
        self.bytes@
    }
}

impl<'a> DevStatsItem<'a> {
    #[verifier::type_invariant]
    closed spec fn wf(self) -> bool {
        self.bytes@.len() >= 40
    }

    /// Length of the fixed part of this item.
    pub const SIZE: usize = 40;

    /// The item held by `bytes`, when `bytes` is long enough.
    pub fn from_bytes(bytes: &'a [u8]) -> (r: Option<Self>)
        ensures
            r is Some <==> bytes@.len() >= 40,
            r matches Some(it) ==> it@ == bytes@,
    {
        if bytes.len() >= 40 {
            Some(DevStatsItem { bytes })
        } else {
            None
        }
    }

    pub fn values(&self) -> (r: [u64; 5])
        ensures
            r@ == seq![le64(self@, 0), le64(self@, 8), le64(self@, 16), le64(self@, 24), le64(self@, 32)],
    {
        proof {
            use_type_invariant(self);
        }
        let r = [
            read_le64(self.bytes, 0),
            read_le64(self.bytes, 8),
            read_le64(self.bytes, 16),
            read_le64(self.bytes, 24),
            read_le64(self.bytes, 32),
        ];
        assert(r@ =~= seq![le64(self@, 0), le64(self@, 8), le64(self@, 16), le64(self@, 24), le64(self@, 32)]);
        r
    }
}

impl<'a> TreeItem<'a> for DevStatsItem<'a> {
    const KEY: u32 = consts::BTRFS_PERSISTENT_ITEM_KEY;

    open spec fn min_len() -> nat {
        40
    }

    open spec fn item_bytes(&self) -> Seq<u8> {
        self@
    }

    fn as_bytes(&self) -> (r: &'a [u8]) {
        self.bytes
    }

    fn from_bytes_unchecked(bytes: &'a [u8]) -> (r: Self) {
        DevStatsItem { bytes }
    }

    fn from_search(bytes: &'a [u8], key: u32) -> (r: Option<Self>) {
        if key == Self::KEY && bytes.len() >= 40 {
            Some(DevStatsItem { bytes })
        } else {
            None
        }
    }
}

/// Device replace item.
#[derive(Clone, Copy)]
pub struct DevReplaceItem<'a> {
    bytes: &'a [u8],
}

impl<'a> View for DevReplaceItem<'a> {
    type V = Seq<u8>;

    closed spec fn view(&self) -> Seq<u8> {
        self.bytes@
    }
}

impl<'a> DevReplaceItem<'a> {
    #[verifier::type_invariant]
    closed spec fn wf(self) -> bool {
        self.bytes@.len() >= 72
    }

    /// Length of the fixed part of this item.
    pub const SIZE: usize = 72;

    /// The item held by `bytes`, when `bytes` is long enough.
    pub fn from_bytes(bytes: &'a [u8]) -> (r: Option<Self>)
        ensures
            r is Some <==> bytes@.len() >= 72,
            r matches Some(it) ==> it@ == bytes@,
    {
        if bytes.len() >= 72 {
            Some(DevReplaceItem { bytes })
        } else {
            None
        }
    }

    pub fn src_devid(&self) -> (r: u64)
        ensures
            r == le64(self@, 0),
    {
        proof {
            use_type_invariant(self);
        }
        read_le64(self.bytes, 0)
    }

    pub fn cursor_left(&self) -> (r: u64)
        ensures
            r == le64(self@, 8),
    {
        proof {
            use_type_invariant(self);
        }
        read_le64(self.bytes, 8)
    }

    pub fn cursor_right(&self) -> (r: u64)
        ensures
            r == le64(self@, 16),
    {
        proof {
            use_type_invariant(self);
        }
        read_le64(self.bytes, 16)
    }

    pub fn cont_reading_from_srcdev_mode(&self) -> (r: u64)
        ensures
            r == le64(self@, 24),
    {
        proof {
            use_type_invariant(self);
        }
        read_le64(self.bytes, 24)
    }

    pub fn time_started(&self) -> (r: u64)
        ensures
            r == le64(self@, 40),
    {
        proof {
            use_type_invariant(self);
        }
        read_le64(self.bytes, 40)
    }

    pub fn time_stopped(&self) -> (r: u64)
        ensures
            r == le64(self@, 48),
    {
        proof {
            use_type_invariant(self);
        }
        read_le64(self.bytes, 48)
    }

    pub fn num_write_errors(&self) -> (r: u64)
        ensures
            r == le64(self@, 56),
    {
        proof {
            use_type_invariant(self);
        }
        read_le64(self.bytes, 56)
    }

    pub fn num_uncorrectable_read_errors(&self) -> (r: u64)
        ensures
            r == le64(self@, 64),
    {
        proof {
            use_type_invariant(self);
        }
        read_le64(self.bytes, 64)
    }
}

impl<'a> TreeItem<'a> for DevReplaceItem<'a> {
    const KEY: u32 = consts::BTRFS_DEV_REPLACE_KEY;

    open spec fn min_len() -> nat {
        72
    }

    open spec fn item_bytes(&self) -> Seq<u8> {
        self@
    }

    fn as_bytes(&self) -> (r: &'a [u8]) {
        self.bytes
    }

    fn from_bytes_unchecked(bytes: &'a [u8]) -> (r: Self) {
        DevReplaceItem { bytes }
    }

    fn from_search(bytes: &'a [u8], key: u32) -> (r: Option<Self>) {
        if key == Self::KEY && bytes.len() >= 72 {
            Some(DevReplaceItem { bytes })
        } else {
            None
        }
    }
}

/// Block group item.
#[derive(Clone, Copy)]
pub struct BlockGroupItem<'a> {
    bytes: &'a [u8],
}

impl<'a> View for BlockGroupItem<'a> {
    type V = Seq<u8>;

    closed spec fn view(&self) -> Seq<u8> {
        self.bytes@
    }
}

impl<'a> BlockGroupItem<'a> {
    #[verifier::type_invariant]
    closed spec fn wf(self) -> bool {
        self.bytes@.len() >= 24
    }

    /// Length of the fixed part of this item.
    pub const SIZE: usize = 24;

    /// The item held by `bytes`, when `bytes` is long enough.
    pub fn from_bytes(bytes: &'a [u8]) -> (r: Option<Self>)
        ensures
            r is Some <==> bytes@.len() >= 24,
            r matches Some(it) ==> it@ == bytes@,
    {
        if bytes.len() >= 24 {
            Some(BlockGroupItem { bytes })
        } else {
            None
        }
    }

    pub fn used(&self) -> (r: u64)
        ensures
            r == le64(self@, 0),
    {
        proof {
            use_type_invariant(self);
        }
        read_le64(self.bytes, 0)
    }

    pub fn chunk_objectid(&self) -> (r: u64)
        ensures
            r == le64(self@, 8),
    {
        proof {
            use_type_invariant(self);
        }
        read_le64(self.bytes, 8)
    }

    pub fn flags(&self) -> (r: u64)
        ensures
            r == le64(self@, 16),
    {
        proof {
            use_type_invariant(self);
        }
        read_le64(self.bytes, 16)
    }
}

impl<'a> TreeItem<'a> for BlockGroupItem<'a> {
    const KEY: u32 = consts::BTRFS_BLOCK_GROUP_ITEM_KEY;

    open spec fn min_len() -> nat {
        24
    }

    open spec fn item_bytes(&self) -> Seq<u8> {
        self@
    }

    fn as_bytes(&self) -> (r: &'a [u8]) {
        self.bytes
    }

    fn from_bytes_unchecked(bytes: &'a [u8]) -> (r: Self) {
        BlockGroupItem { bytes }
    }

    fn from_search(bytes: &'a [u8], key: u32) -> (r: Option<Self>) {
        if key == Self::KEY && bytes.len() >= 24 {
            Some(BlockGroupItem { bytes })
        } else {
            None
        }
    }
}

/// File extent item.
#[derive(Clone, Copy)]
pub struct FileExtentItem<'a> {
    bytes: &'a [u8],
}

impl<'a> View for FileExtentItem<'a> {
    type V = Seq<u8>;

    closed spec fn view(&self) -> Seq<u8> {
        self.bytes@
    }
}

impl<'a> FileExtentItem<'a> {
    #[verifier::type_invariant]
    closed spec fn wf(self) -> bool {
        self.bytes@.len() >= 53
    }

    /// Length of the fixed part of this item.
    pub const SIZE: usize = 53;

    /// The item held by `bytes`, when `bytes` is long enough.
    pub fn from_bytes(bytes: &'a [u8]) -> (r: Option<Self>)
        ensures
            r is Some <==> bytes@.len() >= 53,
            r matches Some(it) ==> it@ == bytes@,
    {
        if bytes.len() >= 53 {
            Some(FileExtentItem { bytes })
        } else {
            None
        }
    }

    pub fn generation(&self) -> (r: u64)
        ensures
            r == le64(self@, 0),
    {
        proof {
            use_type_invariant(self);
        }
        read_le64(self.bytes, 0)
    }

    pub fn ram_bytes(&self) -> (r: u64)
        ensures
            r == le64(self@, 8),
    {
        proof {
            use_type_invariant(self);
        }
        read_le64(self.bytes, 8)
    }

    pub fn compression(&self) -> (r: u8)
        ensures
            r == self@[16],
    {
        proof {
            use_type_invariant(self);
        }
        self.bytes[16]
    }

    pub fn encryption(&self) -> (r: u8)
        ensures
            r == self@[17],
    {
        proof {
            use_type_invariant(self);
        }
        self.bytes[17]
    }

    pub fn other_encoding(&self) -> (r: u16)
        ensures
            r == le16(self@, 18),
    {
        proof {
            use_type_invariant(self);
        }
        read_le16(self.bytes, 18)
    }

    pub fn type_(&self) -> (r: u8)
        ensures
            r == self@[20],
    {
        proof {
            use_type_invariant(self);
        }
        self.bytes[20]
    }

    pub fn disk_bytenr(&self) -> (r: u64)
        ensures
            r == le64(self@, 21),
    {
        proof {
            use_type_invariant(self);
        }
        read_le64(self.bytes, 21)
    }

    pub fn disk_num_bytes(&self) -> (r: u64)
        ensures
            r == le64(self@, 29),
    {
        proof {
            use_type_invariant(self);
        }
        read_le64(self.bytes, 29)
    }

    pub fn offset(&self) -> (r: u64)
        ensures
            r == le64(self@, 37),
    {
        proof {
            use_type_invariant(self);
        }
        read_le64(self.bytes, 37)
    }

    pub fn num_bytes(&self) -> (r: u64)
        ensures
            r == le64(self@, 45),
    {
        proof {
            use_type_invariant(self);
        }
        read_le64(self.bytes, 45)
    }
}

impl<'a> TreeItem<'a> for FileExtentItem<'a> {
    const KEY: u32 = consts::BTRFS_EXTENT_DATA_KEY;

    open spec fn min_len() -> nat {
        53
    }

    open spec fn item_bytes(&self) -> Seq<u8> {
        self@
    }

    fn as_bytes(&self) -> (r: &'a [u8]) {
        self.bytes
    }

    fn from_bytes_unchecked(bytes: &'a [u8]) -> (r: Self) {
        FileExtentItem { bytes }
    }

    fn from_search(bytes: &'a [u8], key: u32) -> (r: Option<Self>) {
        if key == Self::KEY && bytes.len() >= 53 {
            Some(FileExtentItem { bytes })
        } else {
            None
        }
    }
}

/// Extent item.
#[derive(Clone, Copy)]
pub struct ExtentItem<'a> {
    bytes: &'a [u8],
}

impl<'a> View for ExtentItem<'a> {
    type V = Seq<u8>;

    closed spec fn view(&self) -> Seq<u8> {
        self.bytes@
    }
}

impl<'a> ExtentItem<'a> {
    #[verifier::type_invariant]
    closed spec fn wf(self) -> bool {
        self.bytes@.len() >= 24
    }

    /// Length of the fixed part of this item.
    pub const SIZE: usize = 24;

    /// The item held by `bytes`, when `bytes` is long enough.
    pub fn from_bytes(bytes: &'a [u8]) -> (r: Option<Self>)
        ensures
            r is Some <==> bytes@.len() >= 24,
            r matches Some(it) ==> it@ == bytes@,
    {
        if bytes.len() >= 24 {
            Some(ExtentItem { bytes })
        } else {
            None
        }
    }

    pub fn refs(&self) -> (r: u64)
        ensures
            r == le64(self@, 0),
    {
        proof {
            use_type_invariant(self);
        }
        read_le64(self.bytes, 0)
    }

    pub fn generation(&self) -> (r: u64)
        ensures
            r == le64(self@, 8),
    {
        proof {
            use_type_invariant(self);
        }
        read_le64(self.bytes, 8)
    }

    pub fn flags(&self) -> (r: u64)
        ensures
            r == le64(self@, 16),
    {
        proof {
            use_type_invariant(self);
        }
        read_le64(self.bytes, 16)
    }
}

impl<'a> TreeItem<'a> for ExtentItem<'a> {
    const KEY: u32 = consts::BTRFS_EXTENT_ITEM_KEY;

    open spec fn min_len() -> nat {
        24
    }

    open spec fn item_bytes(&self) -> Seq<u8> {
        self@
    }

    fn as_bytes(&self) -> (r: &'a [u8]) {
        self.bytes
    }

    fn from_bytes_unchecked(bytes: &'a [u8]) -> (r: Self) {
        ExtentItem { bytes }
    }

    fn from_search(bytes: &'a [u8], key: u32) -> (r: Option<Self>) {
        if key == Self::KEY && bytes.len() >= 24 {
            Some(ExtentItem { bytes })
        } else {
            None
        }
    }
}

/// Reference to a data extent from a file.
#[derive(Clone, Copy)]
pub struct ExtentDataRef<'a> {
    bytes: &'a [u8],
}

impl<'a> View for ExtentDataRef<'a> {
    type V = Seq<u8>;

    closed spec fn view(&self) -> Seq<u8> {
        self.bytes@
    }
}

impl<'a> ExtentDataRef<'a> {
    #[verifier::type_invariant]
    closed spec fn wf(self) -> bool {
        self.bytes@.len() >= 28
    }

    /// Length of the fixed part of this item.
    pub const SIZE: usize = 28;

    /// The item held by `bytes`, when `bytes` is long enough.
    pub fn from_bytes(bytes: &'a [u8]) -> (r: Option<Self>)
        ensures
            r is Some <==> bytes@.len() >= 28,
            r matches Some(it) ==> it@ == bytes@,
    {
        if bytes.len() >= 28 {
            Some(ExtentDataRef { bytes })
        } else {
            None
        }
    }

    pub fn root(&self) -> (r: u64)
        ensures
            r == le64(self@, 0),
    {
        proof {
            use_type_invariant(self);
        }
        read_le64(self.bytes, 0)
    }

    pub fn objectid(&self) -> (r: u64)
        ensures
            r == le64(self@, 8),
    {
        proof {
            use_type_invariant(self);
        }
        read_le64(self.bytes, 8)
    }

    pub fn offset(&self) -> (r: u64)
        ensures
            r == le64(self@, 16),
    {
        proof {
            use_type_invariant(self);
        }
        read_le64(self.bytes, 16)
    }

    pub fn count(&self) -> (r: u32)
        ensures
            r == le32(self@, 24),
    {
        proof {
            use_type_invariant(self);
        }
        read_le32(self.bytes, 24)
    }
}

/// Shared reference to a data extent.
#[derive(Clone, Copy)]
pub struct SharedDataRef<'a> {
    bytes: &'a [u8],
}

impl<'a> View for SharedDataRef<'a> {
    type V = Seq<u8>;

    closed spec fn view(&self) -> Seq<u8> {
        self.bytes@
    }
}

impl<'a> SharedDataRef<'a> {
    #[verifier::type_invariant]
    closed spec fn wf(self) -> bool {
        self.bytes@.len() >= 4
    }

    /// Length of the fixed part of this item.
    pub const SIZE: usize = 4;

    /// The item held by `bytes`, when `bytes` is long enough.
    pub fn from_bytes(bytes: &'a [u8]) -> (r: Option<Self>)
        ensures
            r is Some <==> bytes@.len() >= 4,
            r matches Some(it) ==> it@ == bytes@,
    {
        if bytes.len() >= 4 {
            Some(SharedDataRef { bytes })
        } else {
            None
        }
    }

    pub fn count(&self) -> (r: u32)
        ensures
            r == le32(self@, 0),
    {
        proof {
            use_type_invariant(self);
        }
        read_le32(self.bytes, 0)
    }
}

/// Inline reference of a metadata extent.
#[derive(Clone, Copy)]
pub struct ExtentInlineRef<'a> {
    bytes: &'a [u8],
}

impl<'a> View for ExtentInlineRef<'a> {
    type V = Seq<u8>;

    closed spec fn view(&self) -> Seq<u8> {
        self.bytes@
    }
}

impl<'a> ExtentInlineRef<'a> {
    #[verifier::type_invariant]
    closed spec fn wf(self) -> bool {
        self.bytes@.len() >= 9
    }

    /// Length of the fixed part of this item.
    pub const SIZE: usize = 9;

    /// The item held by `bytes`, when `bytes` is long enough.
    pub fn from_bytes(bytes: &'a [u8]) -> (r: Option<Self>)
        ensures
            r is Some <==> bytes@.len() >= 9,
            r matches Some(it) ==> it@ == bytes@,
    {
        if bytes.len() >= 9 {
            Some(ExtentInlineRef { bytes })
        } else {
            None
        }
    }

    pub fn type_(&self) -> (r: u8)
        ensures
            r == self@[0],
    {
        proof {
            use_type_invariant(self);
        }
        self.bytes[0]
    }

    pub fn offset(&self) -> (r: u64)
        ensures
            r == le64(self@, 1),
    {
        proof {
            use_type_invariant(self);
        }
        read_le64(self.bytes, 1)
    }
}

impl<'a> TreeItem<'a> for ExtentInlineRef<'a> {
    const KEY: u32 = consts::BTRFS_METADATA_ITEM_KEY;

    open spec fn min_len() -> nat {
        9
    }

    open spec fn item_bytes(&self) -> Seq<u8> {
        self@
    }

    fn as_bytes(&self) -> (r: &'a [u8]) {
        self.bytes
    }

    fn from_bytes_unchecked(bytes: &'a [u8]) -> (r: Self) {
        ExtentInlineRef { bytes }
    }

    fn from_search(bytes: &'a [u8], key: u32) -> (r: Option<Self>) {
        if key == Self::KEY && bytes.len() >= 9 {
            Some(ExtentInlineRef { bytes })
        } else {
            None
        }
    }
}

/// Checksum item.
#[derive(Clone, Copy)]
pub struct ExtentCsum<'a> {
    bytes: &'a [u8],
}

impl<'a> View for ExtentCsum<'a> {
    type V = Seq<u8>;

    closed spec fn view(&self) -> Seq<u8> {
        self.bytes@
    }
}

impl<'a> ExtentCsum<'a> {
    #[verifier::type_invariant]
    closed spec fn wf(self) -> bool {
        self.bytes@.len() >= 1
    }

    /// Length of the fixed part of this item.
    pub const SIZE: usize = 1;

    /// The item held by `bytes`, when `bytes` is long enough.
    pub fn from_bytes(bytes: &'a [u8]) -> (r: Option<Self>)
        ensures
            r is Some <==> bytes@.len() >= 1,
            r matches Some(it) ==> it@ == bytes@,
    {
        if bytes.len() >= 1 {
            Some(ExtentCsum { bytes })
        } else {
            None
        }
    }

    pub fn csum(&self) -> (r: u8)
        ensures
            r == self@[0],
    {
        proof {
            use_type_invariant(self);
        }
        self.bytes[0]
    }
}

impl<'a> TreeItem<'a> for ExtentCsum<'a> {
    const KEY: u32 = consts::BTRFS_EXTENT_CSUM_KEY;

    open spec fn min_len() -> nat {
        1
    }

    open spec fn item_bytes(&self) -> Seq<u8> {
        self@
    }

    fn as_bytes(&self) -> (r: &'a [u8]) {
        self.bytes
    }

    fn from_bytes_unchecked(bytes: &'a [u8]) -> (r: Self) {
        ExtentCsum { bytes }
    }

    fn from_search(bytes: &'a [u8], key: u32) -> (r: Option<Self>) {
        if key == Self::KEY && bytes.len() >= 1 {
            Some(ExtentCsum { bytes })
        } else {
            None
        }
    }
}

/// Free space info item (v2 cache).
#[derive(Clone, Copy)]
pub struct FreeSpaceInfo<'a> {
    bytes: &'a [u8],
}

impl<'a> View for FreeSpaceInfo<'a> {
    type V = Seq<u8>;

    closed spec fn view(&self) -> Seq<u8> {
        self.bytes@
    }
}

impl<'a> FreeSpaceInfo<'a> {
    #[verifier::type_invariant]
    closed spec fn wf(self) -> bool {
        self.bytes@.len() >= 8
    }

    /// Length of the fixed part of this item.
    pub const SIZE: usize = 8;

    /// The item held by `bytes`, when `bytes` is long enough.
    pub fn from_bytes(bytes: &'a [u8]) -> (r: Option<Self>)
        ensures
            r is Some <==> bytes@.len() >= 8,
            r matches Some(it) ==> it@ == bytes@,
    {
        if bytes.len() >= 8 {
            Some(FreeSpaceInfo { bytes })
        } else {
            None
        }
    }

    pub fn extent_count(&self) -> (r: u32)
        ensures
            r == le32(self@, 0),
    {
        proof {
            use_type_invariant(self);
        }
        read_le32(self.bytes, 0)
    }

    pub fn flags(&self) -> (r: u32)
        ensures
            r == le32(self@, 4),
    {
        proof {
            use_type_invariant(self);
        }
        read_le32(self.bytes, 4)
    }
}

impl<'a> TreeItem<'a> for FreeSpaceInfo<'a> {
    const KEY: u32 = consts::BTRFS_FREE_SPACE_INFO_KEY;

    open spec fn min_len() -> nat {
        8
    }

    open spec fn item_bytes(&self) -> Seq<u8> {
        self@
    }

    fn as_bytes(&self) -> (r: &'a [u8]) {
        self.bytes
    }

    fn from_bytes_unchecked(bytes: &'a [u8]) -> (r: Self) {
        FreeSpaceInfo { bytes }
    }

    fn from_search(bytes: &'a [u8], key: u32) -> (r: Option<Self>) {
        if key == Self::KEY && bytes.len() >= 8 {
            Some(FreeSpaceInfo { bytes })
        } else {
            None
        }
    }
}

/// Free space extent item (v2 cache).
#[derive(Clone, Copy)]
pub struct FreeSpaceExtent<'a> {
    bytes: &'a [u8],
}

impl<'a> View for FreeSpaceExtent<'a> {
    type V = Seq<u8>;

    closed spec fn view(&self) -> Seq<u8> {
        self.bytes@
    }
}

impl<'a> FreeSpaceExtent<'a> {
    #[verifier::type_invariant]
    closed spec fn wf(self) -> bool {
        true
    }

    /// Length of the fixed part of this item.
    pub const SIZE: usize = 0;

    /// The item held by `bytes`, when `bytes` is long enough.
    pub fn from_bytes(bytes: &'a [u8]) -> (r: Option<Self>)
        ensures
            r is Some <==> bytes@.len() >= 0,
            r matches Some(it) ==> it@ == bytes@,
    {
        if bytes.len() >= 0 {
            Some(FreeSpaceExtent { bytes })
        } else {
            None
        }
    }
}

impl<'a> TreeItem<'a> for FreeSpaceExtent<'a> {
    const KEY: u32 = consts::BTRFS_FREE_SPACE_EXTENT_KEY;

    open spec fn min_len() -> nat {
        0
    }

    open spec fn item_bytes(&self) -> Seq<u8> {
        self@
    }

    fn as_bytes(&self) -> (r: &'a [u8]) {
        self.bytes
    }

    fn from_bytes_unchecked(bytes: &'a [u8]) -> (r: Self) {
        FreeSpaceExtent { bytes }
    }

    fn from_search(bytes: &'a [u8], key: u32) -> (r: Option<Self>) {
        if key == Self::KEY && bytes.len() >= 0 {
            Some(FreeSpaceExtent { bytes })
        } else {
            None
        }
    }
}

/// Free space bitmap item (v2 cache).
#[derive(Clone, Copy)]
pub struct FreeSpaceBitmap<'a> {
    bytes: &'a [u8],
}

impl<'a> View for FreeSpaceBitmap<'a> {
    type V = Seq<u8>;

    closed spec fn view(&self) -> Seq<u8> {
        self.bytes@
    }
}

impl<'a> FreeSpaceBitmap<'a> {
    #[verifier::type_invariant]
    closed spec fn wf(self) -> bool {
        true
    }

    /// Length of the fixed part of this item.
    pub const SIZE: usize = 0;

    /// The item held by `bytes`, when `bytes` is long enough.
    pub fn from_bytes(bytes: &'a [u8]) -> (r: Option<Self>)
        ensures
            r is Some <==> bytes@.len() >= 0,
            r matches Some(it) ==> it@ == bytes@,
    {
        if bytes.len() >= 0 {
            Some(FreeSpaceBitmap { bytes })
        } else {
            None
        }
    }
}

impl<'a> TreeItem<'a> for FreeSpaceBitmap<'a> {
    const KEY: u32 = consts::BTRFS_FREE_SPACE_BITMAP_KEY;

    open spec fn min_len() -> nat {
        0
    }

    open spec fn item_bytes(&self) -> Seq<u8> {
        self@
    }

    fn as_bytes(&self) -> (r: &'a [u8]) {
        self.bytes
    }

    fn from_bytes_unchecked(bytes: &'a [u8]) -> (r: Self) {
        FreeSpaceBitmap { bytes }
    }

    fn from_search(bytes: &'a [u8], key: u32) -> (r: Option<Self>) {
        if key == Self::KEY && bytes.len() >= 0 {
            Some(FreeSpaceBitmap { bytes })
        } else {
            None
        }
    }
}

/// Free space header item (v1 cache).
#[derive(Clone, Copy)]
pub struct FreeSpaceHeader<'a> {
    bytes: &'a [u8],
}

impl<'a> View for FreeSpaceHeader<'a> {
    type V = Seq<u8>;

    closed spec fn view(&self) -> Seq<u8> {
        self.bytes@
    }
}

impl<'a> FreeSpaceHeader<'a> {
    #[verifier::type_invariant]
    closed spec fn wf(self) -> bool {
        self.bytes@.len() >= 41
    }

    /// Length of the fixed part of this item.
    pub const SIZE: usize = 41;

    /// The item held by `bytes`, when `bytes` is long enough.
    pub fn from_bytes(bytes: &'a [u8]) -> (r: Option<Self>)
        ensures
            r is Some <==> bytes@.len() >= 41,
            r matches Some(it) ==> it@ == bytes@,
    {
        if bytes.len() >= 41 {
            Some(FreeSpaceHeader { bytes })
        } else {
            None
        }
    }

    pub fn location(&self) -> (r: DiskKey<'a>)
        ensures
            r@ == self@.subrange(0, 17),
            17 <= self@.len(),
    {
        proof {
            use_type_invariant(self);
        }
        DiskKey { bytes: slice_subrange(self.bytes, 0, 17) }
    }

    pub fn generation(&self) -> (r: u64)
        ensures
            r == le64(self@, 17),
    {
        proof {
            use_type_invariant(self);
        }
        read_le64(self.bytes, 17)
    }

    pub fn num_entries(&self) -> (r: u64)
        ensures
            r == le64(self@, 25),
    {
        proof {
            use_type_invariant(self);
        }
        read_le64(self.bytes, 25)
    }

    pub fn num_bitmaps(&self) -> (r: u64)
        ensures
            r == le64(self@, 33),
    {
        proof {
            use_type_invariant(self);
        }
        read_le64(self.bytes, 33)
    }
}

impl<'a> TreeItem<'a> for FreeSpaceHeader<'a> {
    const KEY: u32 = 0;

    open spec fn min_len() -> nat {
        41
    }

    open spec fn item_bytes(&self) -> Seq<u8> {
        self@
    }

    fn as_bytes(&self) -> (r: &'a [u8]) {
        self.bytes
    }

    fn from_bytes_unchecked(bytes: &'a [u8]) -> (r: Self) {
        FreeSpaceHeader { bytes }
    }

    fn from_search(bytes: &'a [u8], key: u32) -> (r: Option<Self>) {
        if key == Self::KEY && bytes.len() >= 41 {
            Some(FreeSpaceHeader { bytes })
        } else {
            None
        }
    }
}

/// Directory item.
#[derive(Clone, Copy)]
pub struct DirItem<'a> {
    bytes: &'a [u8],
}

impl<'a> View for DirItem<'a> {
    type V = Seq<u8>;

    closed spec fn view(&self) -> Seq<u8> {
        self.bytes@
    }
}

impl<'a> DirItem<'a> {
    #[verifier::type_invariant]
    closed spec fn wf(self) -> bool {
        self.bytes@.len() >= 30
    }

    /// Length of the fixed part of this item.
    pub const SIZE: usize = 30;

    /// The item held by `bytes`, when `bytes` is long enough.
    pub fn from_bytes(bytes: &'a [u8]) -> (r: Option<Self>)
        ensures
            r is Some <==> bytes@.len() >= 30,
            r matches Some(it) ==> it@ == bytes@,
    {
        if bytes.len() >= 30 {
            Some(DirItem { bytes })
        } else {
            None
        }
    }

    pub fn data_len(&self) -> (r: u16)
        ensures
            r == le16(self@, 25),
    {
        proof {
            use_type_invariant(self);
        }
        read_le16(self.bytes, 25)
    }

    pub fn transid(&self) -> (r: u64)
        ensures
            r == le64(self@, 17),
    {
        proof {
            use_type_invariant(self);
        }
        read_le64(self.bytes, 17)
    }

    pub fn location(&self) -> (r: DiskKey<'a>)
        ensures
            r@ == self@.subrange(0, 17),
            17 <= self@.len(),
    {
        proof {
            use_type_invariant(self);
        }
        DiskKey { bytes: slice_subrange(self.bytes, 0, 17) }
    }
}

impl<'a> TreeItem<'a> for DirItem<'a> {
    const KEY: u32 = consts::BTRFS_DIR_ITEM_KEY;

    open spec fn min_len() -> nat {
        30
    }

    open spec fn item_bytes(&self) -> Seq<u8> {
        self@
    }

    fn as_bytes(&self) -> (r: &'a [u8]) {
        self.bytes
    }

    fn from_bytes_unchecked(bytes: &'a [u8]) -> (r: Self) {
        DirItem { bytes }
    }

    fn from_search(bytes: &'a [u8], key: u32) -> (r: Option<Self>) {
        if key == Self::KEY && bytes.len() >= 30 {
            Some(DirItem { bytes })
        } else {
            None
        }
    }
}

impl<'a> ItemNameMeta<'a> for DirItem<'a> {
    open spec fn spec_name_len_offset() -> nat {
        27
    }

    open spec fn spec_name_offset() -> nat {
        30
    }

    fn name_len(&self) -> (r: usize) {
        proof {
            use_type_invariant(self);
        }
        read_le16(self.bytes, 27) as usize
    }

    fn name_offset(&self) -> (r: usize) {
        proof {
            use_type_invariant(self);
        }
        30
    }
}

/// Directory index item.
#[derive(Clone, Copy)]
pub struct DirIndex<'a> {
    bytes: &'a [u8],
}

impl<'a> View for DirIndex<'a> {
    type V = Seq<u8>;

    closed spec fn view(&self) -> Seq<u8> {
        self.bytes@
    }
}

impl<'a> DirIndex<'a> {
    #[verifier::type_invariant]
    closed spec fn wf(self) -> bool {
        self.bytes@.len() >= 30
    }

    /// Length of the fixed part of this item.
    pub const SIZE: usize = 30;

    /// The item held by `bytes`, when `bytes` is long enough.
    pub fn from_bytes(bytes: &'a [u8]) -> (r: Option<Self>)
        ensures
            r is Some <==> bytes@.len() >= 30,
            r matches Some(it) ==> it@ == bytes@,
    {
        if bytes.len() >= 30 {
            Some(DirIndex { bytes })
        } else {
            None
        }
    }

    pub fn data_len(&self) -> (r: u16)
        ensures
            r == le16(self@, 25),
    {
        proof {
            use_type_invariant(self);
        }
        read_le16(self.bytes, 25)
    }

    pub fn transid(&self) -> (r: u64)
        ensures
            r == le64(self@, 17),
    {
        proof {
            use_type_invariant(self);
        }
        read_le64(self.bytes, 17)
    }

    pub fn location(&self) -> (r: DiskKey<'a>)
        ensures
            r@ == self@.subrange(0, 17),
            17 <= self@.len(),
    {
        proof {
            use_type_invariant(self);
        }
        DiskKey { bytes: slice_subrange(self.bytes, 0, 17) }
    }
}

impl<'a> TreeItem<'a> for DirIndex<'a> {
    const KEY: u32 = consts::BTRFS_DIR_INDEX_KEY;

    open spec fn min_len() -> nat {
        30
    }

    open spec fn item_bytes(&self) -> Seq<u8> {
        self@
    }

    fn as_bytes(&self) -> (r: &'a [u8]) {
        self.bytes
    }

    fn from_bytes_unchecked(bytes: &'a [u8]) -> (r: Self) {
        DirIndex { bytes }
    }

    fn from_search(bytes: &'a [u8], key: u32) -> (r: Option<Self>) {
        if key == Self::KEY && bytes.len() >= 30 {
            Some(DirIndex { bytes })
        } else {
            None
        }
    }
}

impl<'a> ItemNameMeta<'a> for DirIndex<'a> {
    open spec fn spec_name_len_offset() -> nat {
        27
    }

    open spec fn spec_name_offset() -> nat {
        30
    }

    fn name_len(&self) -> (r: usize) {
        proof {
            use_type_invariant(self);
        }
        read_le16(self.bytes, 27) as usize
    }

    fn name_offset(&self) -> (r: usize) {
        proof {
            use_type_invariant(self);
        }
        30
    }
}

/// Extended attribute item.
#[derive(Clone, Copy)]
pub struct XattrItem<'a> {
    bytes: &'a [u8],
}

impl<'a> View for XattrItem<'a> {
    type V = Seq<u8>;

    closed spec fn view(&self) -> Seq<u8> {
        self.bytes@
    }
}

impl<'a> XattrItem<'a> {
    #[verifier::type_invariant]
    closed spec fn wf(self) -> bool {
        self.bytes@.len() >= 30
    }

    /// Length of the fixed part of this item.
    pub const SIZE: usize = 30;

    /// The item held by `bytes`, when `bytes` is long enough.
    pub fn from_bytes(bytes: &'a [u8]) -> (r: Option<Self>)
        ensures
            r is Some <==> bytes@.len() >= 30,
            r matches Some(it) ==> it@ == bytes@,
    {
        if bytes.len() >= 30 {
            Some(XattrItem { bytes })
        } else {
            None
        }
    }

    pub fn data_len(&self) -> (r: u16)
        ensures
            r == le16(self@, 25),
    {
        proof {
            use_type_invariant(self);
        }
        read_le16(self.bytes, 25)
    }

    pub fn transid(&self) -> (r: u64)
        ensures
            r == le64(self@, 17),
    {
        proof {
            use_type_invariant(self);
        }
        read_le64(self.bytes, 17)
    }

    pub fn location(&self) -> (r: DiskKey<'a>)
        ensures
            r@ == self@.subrange(0, 17),
            17 <= self@.len(),
    {
        proof {
            use_type_invariant(self);
        }
        DiskKey { bytes: slice_subrange(self.bytes, 0, 17) }
    }
}

impl<'a> TreeItem<'a> for XattrItem<'a> {
    const KEY: u32 = consts::BTRFS_XATTR_ITEM_KEY;

    open spec fn min_len() -> nat {
        30
    }

    open spec fn item_bytes(&self) -> Seq<u8> {
        self@
    }

    fn as_bytes(&self) -> (r: &'a [u8]) {
        self.bytes
    }

    fn from_bytes_unchecked(bytes: &'a [u8]) -> (r: Self) {
        XattrItem { bytes }
    }

    fn from_search(bytes: &'a [u8], key: u32) -> (r: Option<Self>) {
        if key == Self::KEY && bytes.len() >= 30 {
            Some(XattrItem { bytes })
        } else {
            None
        }
    }
}

impl<'a> ItemNameMeta<'a> for XattrItem<'a> {
    open spec fn spec_name_len_offset() -> nat {
        27
    }

    open spec fn spec_name_offset() -> nat {
        30
    }

    fn name_len(&self) -> (r: usize) {
        proof {
            use_type_invariant(self);
        }
        read_le16(self.bytes, 27) as usize
    }

    fn name_offset(&self) -> (r: usize) {
        proof {
            use_type_invariant(self);
        }
        30
    }
}

/// Inode reference item.
#[derive(Clone, Copy)]
pub struct InodeRef<'a> {
    bytes: &'a [u8],
}

impl<'a> View for InodeRef<'a> {
    type V = Seq<u8>;

    closed spec fn view(&self) -> Seq<u8> {
        self.bytes@
    }
}

impl<'a> InodeRef<'a> {
    #[verifier::type_invariant]
    closed spec fn wf(self) -> bool {
        self.bytes@.len() >= 10
    }

    /// Length of the fixed part of this item.
    pub const SIZE: usize = 10;

    /// The item held by `bytes`, when `bytes` is long enough.
    pub fn from_bytes(bytes: &'a [u8]) -> (r: Option<Self>)
        ensures
            r is Some <==> bytes@.len() >= 10,
            r matches Some(it) ==> it@ == bytes@,
    {
        if bytes.len() >= 10 {
            Some(InodeRef { bytes })
        } else {
            None
        }
    }

    pub fn data_len(&self) -> (r: u64)
        ensures
            r == le64(self@, 0),
    {
        proof {
            use_type_invariant(self);
        }
        read_le64(self.bytes, 0)
    }
}

impl<'a> TreeItem<'a> for InodeRef<'a> {
    const KEY: u32 = consts::BTRFS_INODE_REF_KEY;

    open spec fn min_len() -> nat {
        10
    }

    open spec fn item_bytes(&self) -> Seq<u8> {
        self@
    }

    fn as_bytes(&self) -> (r: &'a [u8]) {
        self.bytes
    }

    fn from_bytes_unchecked(bytes: &'a [u8]) -> (r: Self) {
        InodeRef { bytes }
    }

    fn from_search(bytes: &'a [u8], key: u32) -> (r: Option<Self>) {
        if key == Self::KEY && bytes.len() >= 10 {
            Some(InodeRef { bytes })
        } else {
            None
        }
    }
}

impl<'a> ItemNameMeta<'a> for InodeRef<'a> {
    open spec fn spec_name_len_offset() -> nat {
        8
    }

    open spec fn spec_name_offset() -> nat {
        10
    }

    fn name_len(&self) -> (r: usize) {
        proof {
            use_type_invariant(self);
        }
        read_le16(self.bytes, 8) as usize
    }

    fn name_offset(&self) -> (r: usize) {
        proof {
            use_type_invariant(self);
        }
        10
    }
}

/// Extended inode reference item.
#[derive(Clone, Copy)]
pub struct InodeExtref<'a> {
    bytes: &'a [u8],
}

impl<'a> View for InodeExtref<'a> {
    type V = Seq<u8>;

    closed spec fn view(&self) -> Seq<u8> {
        self.bytes@
    }
}

impl<'a> InodeExtref<'a> {
    #[verifier::type_invariant]
    closed spec fn wf(self) -> bool {
        self.bytes@.len() >= 18
    }

    /// Length of the fixed part of this item.
    pub const SIZE: usize = 18;

    /// The item held by `bytes`, when `bytes` is long enough.
    pub fn from_bytes(bytes: &'a [u8]) -> (r: Option<Self>)
        ensures
            r is Some <==> bytes@.len() >= 18,
            r matches Some(it) ==> it@ == bytes@,
    {
        if bytes.len() >= 18 {
            Some(InodeExtref { bytes })
        } else {
            None
        }
    }

    pub fn parent_objectid(&self) -> (r: u64)
        ensures
            r == le64(self@, 0),
    {
        proof {
            use_type_invariant(self);
        }
        read_le64(self.bytes, 0)
    }

    pub fn index(&self) -> (r: u64)
        ensures
            r == le64(self@, 8),
    {
        proof {
            use_type_invariant(self);
        }
        read_le64(self.bytes, 8)
    }

    pub fn data_len(&self) -> (r: u64)
        ensures
            r == le64(self@, 8),
    {
        proof {
            use_type_invariant(self);
        }
        read_le64(self.bytes, 8)
    }
}

impl<'a> TreeItem<'a> for InodeExtref<'a> {
    const KEY: u32 = consts::BTRFS_INODE_EXTREF_KEY;

    open spec fn min_len() -> nat {
        18
    }

    open spec fn item_bytes(&self) -> Seq<u8> {
        self@
    }

    fn as_bytes(&self) -> (r: &'a [u8]) {
        self.bytes
    }

    fn from_bytes_unchecked(bytes: &'a [u8]) -> (r: Self) {
        InodeExtref { bytes }
    }

    fn from_search(bytes: &'a [u8], key: u32) -> (r: Option<Self>) {
        if key == Self::KEY && bytes.len() >= 18 {
            Some(InodeExtref { bytes })
        } else {
            None
        }
    }
}

impl<'a> ItemNameMeta<'a> for InodeExtref<'a> {
    open spec fn spec_name_len_offset() -> nat {
        16
    }

    open spec fn spec_name_offset() -> nat {
        18
    }

    fn name_len(&self) -> (r: usize) {
        proof {
            use_type_invariant(self);
        }
        read_le16(self.bytes, 16) as usize
    }

    fn name_offset(&self) -> (r: usize) {
        proof {
            use_type_invariant(self);
        }
        18
    }
}

/// Quota group status item.
#[derive(Clone, Copy)]
pub struct QgroupStatus<'a> {
    bytes: &'a [u8],
}

impl<'a> View for QgroupStatus<'a> {
    type V = Seq<u8>;

    closed spec fn view(&self) -> Seq<u8> {
        self.bytes@
    }
}

impl<'a> QgroupStatus<'a> {
    #[verifier::type_invariant]
    closed spec fn wf(self) -> bool {
        self.bytes@.len() >= 32
    }

    /// Length of the fixed part of this item.
    pub const SIZE: usize = 32;

    /// The item held by `bytes`, when `bytes` is long enough.
    pub fn from_bytes(bytes: &'a [u8]) -> (r: Option<Self>)
        ensures
            r is Some <==> bytes@.len() >= 32,
            r matches Some(it) ==> it@ == bytes@,
    {
        if bytes.len() >= 32 {
            Some(QgroupStatus { bytes })
        } else {
            None
        }
    }

    pub fn version(&self) -> (r: u64)
        ensures
            r == le64(self@, 0),
    {
        proof {
            use_type_invariant(self);
        }
        read_le64(self.bytes, 0)
    }

    pub fn generation(&self) -> (r: u64)
        ensures
            r == le64(self@, 8),
    {
        proof {
            use_type_invariant(self);
        }
        read_le64(self.bytes, 8)
    }

    pub fn flags(&self) -> (r: u64)
        ensures
            r == le64(self@, 16),
    {
        proof {
            use_type_invariant(self);
        }
        read_le64(self.bytes, 16)
    }

    pub fn rescan(&self) -> (r: u64)
        ensures
            r == le64(self@, 24),
    {
        proof {
            use_type_invariant(self);
        }
        read_le64(self.bytes, 24)
    }
}

impl<'a> TreeItem<'a> for QgroupStatus<'a> {
    const KEY: u32 = consts::BTRFS_QGROUP_STATUS_KEY;

    open spec fn min_len() -> nat {
        32
    }

    open spec fn item_bytes(&self) -> Seq<u8> {
        self@
    }

    fn as_bytes(&self) -> (r: &'a [u8]) {
        self.bytes
    }

    fn from_bytes_unchecked(bytes: &'a [u8]) -> (r: Self) {
        QgroupStatus { bytes }
    }

    fn from_search(bytes: &'a [u8], key: u32) -> (r: Option<Self>) {
        if key == Self::KEY && bytes.len() >= 32 {
            Some(QgroupStatus { bytes })
        } else {
            None
        }
    }
}

/// Quota group info item.
#[derive(Clone, Copy)]
pub struct QgroupInfo<'a> {
    bytes: &'a [u8],
}

impl<'a> View for QgroupInfo<'a> {
    type V = Seq<u8>;

    closed spec fn view(&self) -> Seq<u8> {
        self.bytes@
    }
}

impl<'a> QgroupInfo<'a> {
    #[verifier::type_invariant]
    closed spec fn wf(self) -> bool {
        self.bytes@.len() >= 40
    }

    /// Length of the fixed part of this item.
    pub const SIZE: usize = 40;

    /// The item held by `bytes`, when `bytes` is long enough.
    pub fn from_bytes(bytes: &'a [u8]) -> (r: Option<Self>)
        ensures
            r is Some <==> bytes@.len() >= 40,
            r matches Some(it) ==> it@ == bytes@,
    {
        if bytes.len() >= 40 {
            Some(QgroupInfo { bytes })
        } else {
            None
        }
    }

    pub fn generation(&self) -> (r: u64)
        ensures
            r == le64(self@, 0),
    {
        proof {
            use_type_invariant(self);
        }
        read_le64(self.bytes, 0)
    }

    pub fn rfer(&self) -> (r: u64)
        ensures
            r == le64(self@, 8),
    {
        proof {
            use_type_invariant(self);
        }
        read_le64(self.bytes, 8)
    }

    pub fn rfer_cmpr(&self) -> (r: u64)
        ensures
            r == le64(self@, 16),
    {
        proof {
            use_type_invariant(self);
        }
        read_le64(self.bytes, 16)
    }

    pub fn excl(&self) -> (r: u64)
        ensures
            r == le64(self@, 24),
    {
        proof {
            use_type_invariant(self);
        }
        read_le64(self.bytes, 24)
    }

    pub fn excl_cmpr(&self) -> (r: u64)
        ensures
            r == le64(self@, 32),
    {
        proof {
            use_type_invariant(self);
        }
        read_le64(self.bytes, 32)
    }
}

impl<'a> TreeItem<'a> for QgroupInfo<'a> {
    const KEY: u32 = consts::BTRFS_QGROUP_INFO_KEY;

    open spec fn min_len() -> nat {
        40
    }

    open spec fn item_bytes(&self) -> Seq<u8> {
        self@
    }

    fn as_bytes(&self) -> (r: &'a [u8]) {
        self.bytes
    }

    fn from_bytes_unchecked(bytes: &'a [u8]) -> (r: Self) {
        QgroupInfo { bytes }
    }

    fn from_search(bytes: &'a [u8], key: u32) -> (r: Option<Self>) {
        if key == Self::KEY && bytes.len() >= 40 {
            Some(QgroupInfo { bytes })
        } else {
            None
        }
    }
}

/// Quota group limit item.
#[derive(Clone, Copy)]
pub struct QgroupLimit<'a> {
    bytes: &'a [u8],
}

impl<'a> View for QgroupLimit<'a> {
    type V = Seq<u8>;

    closed spec fn view(&self) -> Seq<u8> {
        self.bytes@
    }
}

impl<'a> QgroupLimit<'a> {
    #[verifier::type_invariant]
    closed spec fn wf(self) -> bool {
        self.bytes@.len() >= 40
    }

    /// Length of the fixed part of this item.
    pub const SIZE: usize = 40;

    /// The item held by `bytes`, when `bytes` is long enough.
    pub fn from_bytes(bytes: &'a [u8]) -> (r: Option<Self>)
        ensures
            r is Some <==> bytes@.len() >= 40,
            r matches Some(it) ==> it@ == bytes@,
    {
        if bytes.len() >= 40 {
            Some(QgroupLimit { bytes })
        } else {
            None
        }
    }

    pub fn flags(&self) -> (r: u64)
        ensures
            r == le64(self@, 0),
    {
        proof {
            use_type_invariant(self);
        }
        read_le64(self.bytes, 0)
    }

    pub fn max_rfer(&self) -> (r: u64)
        ensures
            r == le64(self@, 8),
    {
        proof {
            use_type_invariant(self);
        }
        read_le64(self.bytes, 8)
    }

    pub fn max_excl(&self) -> (r: u64)
        ensures
            r == le64(self@, 16),
    {
        proof {
            use_type_invariant(self);
        }
        read_le64(self.bytes, 16)
    }

    pub fn rsv_rfer(&self) -> (r: u64)
        ensures
            r == le64(self@, 24),
    {
        proof {
            use_type_invariant(self);
        }
        read_le64(self.bytes, 24)
    }

    pub fn rsv_excl(&self) -> (r: u64)
        ensures
            r == le64(self@, 32),
    {
        proof {
            use_type_invariant(self);
        }
        read_le64(self.bytes, 32)
    }
}

impl<'a> TreeItem<'a> for QgroupLimit<'a> {
    const KEY: u32 = consts::BTRFS_QGROUP_LIMIT_KEY;

    open spec fn min_len() -> nat {
        40
    }

    open spec fn item_bytes(&self) -> Seq<u8> {
        self@
    }

    fn as_bytes(&self) -> (r: &'a [u8]) {
        self.bytes
    }

    fn from_bytes_unchecked(bytes: &'a [u8]) -> (r: Self) {
        QgroupLimit { bytes }
    }

    fn from_search(bytes: &'a [u8], key: u32) -> (r: Option<Self>) {
        if key == Self::KEY && bytes.len() >= 40 {
            Some(QgroupLimit { bytes })
        } else {
            None
        }
    }
}

/// Quota group relation item.
#[derive(Clone, Copy)]
pub struct QgroupRelation<'a> {
    bytes: &'a [u8],
}

impl<'a> View for QgroupRelation<'a> {
    type V = Seq<u8>;

    closed spec fn view(&self) -> Seq<u8> {
        self.bytes@
    }
}

impl<'a> QgroupRelation<'a> {
    #[verifier::type_invariant]
    closed spec fn wf(self) -> bool {
        true
    }

    /// Length of the fixed part of this item.
    pub const SIZE: usize = 0;

    /// The item held by `bytes`, when `bytes` is long enough.
    pub fn from_bytes(bytes: &'a [u8]) -> (r: Option<Self>)
        ensures
            r is Some <==> bytes@.len() >= 0,
            r matches Some(it) ==> it@ == bytes@,
    {
        if bytes.len() >= 0 {
            Some(QgroupRelation { bytes })
        } else {
            None
        }
    }
}

impl<'a> TreeItem<'a> for QgroupRelation<'a> {
    const KEY: u32 = consts::BTRFS_QGROUP_RELATION_KEY;

    open spec fn min_len() -> nat {
        0
    }

    open spec fn item_bytes(&self) -> Seq<u8> {
        self@
    }

    fn as_bytes(&self) -> (r: &'a [u8]) {
        self.bytes
    }

    fn from_bytes_unchecked(bytes: &'a [u8]) -> (r: Self) {
        QgroupRelation { bytes }
    }

    fn from_search(bytes: &'a [u8], key: u32) -> (r: Option<Self>) {
        if key == Self::KEY && bytes.len() >= 0 {
            Some(QgroupRelation { bytes })
        } else {
            None
        }
    }
}

/// Orphan item.
#[derive(Clone, Copy)]
pub struct OrphanItem<'a> {
    bytes: &'a [u8],
}

impl<'a> View for OrphanItem<'a> {
    type V = Seq<u8>;

    closed spec fn view(&self) -> Seq<u8> {
        self.bytes@
    }
}

impl<'a> OrphanItem<'a> {
    #[verifier::type_invariant]
    closed spec fn wf(self) -> bool {
        true
    }

    /// Length of the fixed part of this item.
    pub const SIZE: usize = 0;

    /// The item held by `bytes`, when `bytes` is long enough.
    pub fn from_bytes(bytes: &'a [u8]) -> (r: Option<Self>)
        ensures
            r is Some <==> bytes@.len() >= 0,
            r matches Some(it) ==> it@ == bytes@,
    {
        if bytes.len() >= 0 {
            Some(OrphanItem { bytes })
        } else {
            None
        }
    }
}

impl<'a> TreeItem<'a> for OrphanItem<'a> {
    const KEY: u32 = consts::BTRFS_ORPHAN_ITEM_KEY;

    open spec fn min_len() -> nat {
        0
    }

    open spec fn item_bytes(&self) -> Seq<u8> {
        self@
    }

    fn as_bytes(&self) -> (r: &'a [u8]) {
        self.bytes
    }

    fn from_bytes_unchecked(bytes: &'a [u8]) -> (r: Self) {
        OrphanItem { bytes }
    }

    fn from_search(bytes: &'a [u8], key: u32) -> (r: Option<Self>) {
        if key == Self::KEY && bytes.len() >= 0 {
            Some(OrphanItem { bytes })
        } else {
            None
        }
    }
}

/// Directory log item.
#[derive(Clone, Copy)]
pub struct DirLogItem<'a> {
    bytes: &'a [u8],
}

impl<'a> View for DirLogItem<'a> {
    type V = Seq<u8>;

    closed spec fn view(&self) -> Seq<u8> {
        self.bytes@
    }
}

impl<'a> DirLogItem<'a> {
    #[verifier::type_invariant]
    closed spec fn wf(self) -> bool {
        self.bytes@.len() >= 8
    }

    /// Length of the fixed part of this item.
    pub const SIZE: usize = 8;

    /// The item held by `bytes`, when `bytes` is long enough.
    pub fn from_bytes(bytes: &'a [u8]) -> (r: Option<Self>)
        ensures
            r is Some <==> bytes@.len() >= 8,
            r matches Some(it) ==> it@ == bytes@,
    {
        if bytes.len() >= 8 {
            Some(DirLogItem { bytes })
        } else {
            None
        }
    }

    pub fn end(&self) -> (r: u64)
        ensures
            r == le64(self@, 0),
    {
        proof {
            use_type_invariant(self);
        }
        read_le64(self.bytes, 0)
    }
}

impl<'a> TreeItem<'a> for DirLogItem<'a> {
    const KEY: u32 = consts::BTRFS_DIR_LOG_ITEM_KEY;

    open spec fn min_len() -> nat {
        8
    }

    open spec fn item_bytes(&self) -> Seq<u8> {
        self@
    }

    fn as_bytes(&self) -> (r: &'a [u8]) {
        self.bytes
    }

    fn from_bytes_unchecked(bytes: &'a [u8]) -> (r: Self) {
        DirLogItem { bytes }
    }

    fn from_search(bytes: &'a [u8], key: u32) -> (r: Option<Self>) {
        if key == Self::KEY && bytes.len() >= 8 {
            Some(DirLogItem { bytes })
        } else {
            None
        }
    }
}

/// Directory log index item.
#[derive(Clone, Copy)]
pub struct DirLogIndex<'a> {
    bytes: &'a [u8],
}

impl<'a> View for DirLogIndex<'a> {
    type V = Seq<u8>;

    closed spec fn view(&self) -> Seq<u8> {
        self.bytes@
    }
}

impl<'a> DirLogIndex<'a> {
    #[verifier::type_invariant]
    closed spec fn wf(self) -> bool {
        self.bytes@.len() >= 8
    }

    /// Length of the fixed part of this item.
    pub const SIZE: usize = 8;

    /// The item held by `bytes`, when `bytes` is long enough.
    pub fn from_bytes(bytes: &'a [u8]) -> (r: Option<Self>)
        ensures
            r is Some <==> bytes@.len() >= 8,
            r matches Some(it) ==> it@ == bytes@,
    {
        if bytes.len() >= 8 {
            Some(DirLogIndex { bytes })
        } else {
            None
        }
    }

    pub fn end(&self) -> (r: u64)
        ensures
            r == le64(self@, 0),
    {
        proof {
            use_type_invariant(self);
        }
        read_le64(self.bytes, 0)
    }
}

impl<'a> TreeItem<'a> for DirLogIndex<'a> {
    const KEY: u32 = consts::BTRFS_DIR_LOG_INDEX_KEY;

    open spec fn min_len() -> nat {
        8
    }

    open spec fn item_bytes(&self) -> Seq<u8> {
        self@
    }

    fn as_bytes(&self) -> (r: &'a [u8]) {
        self.bytes
    }

    fn from_bytes_unchecked(bytes: &'a [u8]) -> (r: Self) {
        DirLogIndex { bytes }
    }

    fn from_search(bytes: &'a [u8], key: u32) -> (r: Option<Self>) {
        if key == Self::KEY && bytes.len() >= 8 {
            Some(DirLogIndex { bytes })
        } else {
            None
        }
    }
}

/// Balance item.
#[derive(Clone, Copy)]
pub struct TemporaryItem<'a> {
    bytes: &'a [u8],
}

impl<'a> View for TemporaryItem<'a> {
    type V = Seq<u8>;

    closed spec fn view(&self) -> Seq<u8> {
        self.bytes@
    }
}

impl<'a> TemporaryItem<'a> {
    #[verifier::type_invariant]
    closed spec fn wf(self) -> bool {
        self.bytes@.len() >= 448
    }

    /// Length of the fixed part of this item.
    pub const SIZE: usize = 448;

    /// The item held by `bytes`, when `bytes` is long enough.
    pub fn from_bytes(bytes: &'a [u8]) -> (r: Option<Self>)
        ensures
            r is Some <==> bytes@.len() >= 448,
            r matches Some(it) ==> it@ == bytes@,
    {
        if bytes.len() >= 448 {
            Some(TemporaryItem { bytes })
        } else {
            None
        }
    }

    pub fn flags(&self) -> (r: u64)
        ensures
            r == le64(self@, 0),
    {
        proof {
            use_type_invariant(self);
        }
        read_le64(self.bytes, 0)
    }

    pub fn data(&self) -> (r: DiskBalanceArgs<'a>)
        ensures
            r@ == self@.subrange(8, 144),
            144 <= self@.len(),
    {
        proof {
            use_type_invariant(self);
        }
        DiskBalanceArgs { bytes: slice_subrange(self.bytes, 8, 144) }
    }

    pub fn meta(&self) -> (r: DiskBalanceArgs<'a>)
        ensures
            r@ == self@.subrange(144, 280),
            280 <= self@.len(),
    {
        proof {
            use_type_invariant(self);
        }
        DiskBalanceArgs { bytes: slice_subrange(self.bytes, 144, 280) }
    }

    pub fn sys(&self) -> (r: DiskBalanceArgs<'a>)
        ensures
            r@ == self@.subrange(280, 416),
            416 <= self@.len(),
    {
        proof {
            use_type_invariant(self);
        }
        DiskBalanceArgs { bytes: slice_subrange(self.bytes, 280, 416) }
    }
}

impl<'a> TreeItem<'a> for TemporaryItem<'a> {
    const KEY: u32 = consts::BTRFS_TEMPORARY_ITEM_KEY;

    open spec fn min_len() -> nat {
        448
    }

    open spec fn item_bytes(&self) -> Seq<u8> {
        self@
    }

    fn as_bytes(&self) -> (r: &'a [u8]) {
        self.bytes
    }

    fn from_bytes_unchecked(bytes: &'a [u8]) -> (r: Self) {
        TemporaryItem { bytes }
    }

    fn from_search(bytes: &'a [u8], key: u32) -> (r: Option<Self>) {
        if key == Self::KEY && bytes.len() >= 448 {
            Some(TemporaryItem { bytes })
        } else {
            None
        }
    }
}

/// Arguments of a balance, as stored on disk.
#[derive(Clone, Copy)]
pub struct DiskBalanceArgs<'a> {
    bytes: &'a [u8],
}

impl<'a> View for DiskBalanceArgs<'a> {
    type V = Seq<u8>;

    closed spec fn view(&self) -> Seq<u8> {
        self.bytes@
    }
}

impl<'a> DiskBalanceArgs<'a> {
    #[verifier::type_invariant]
    closed spec fn wf(self) -> bool {
        self.bytes@.len() >= 136
    }

    /// Length of the fixed part of this item.
    pub const SIZE: usize = 136;

    /// The item held by `bytes`, when `bytes` is long enough.
    pub fn from_bytes(bytes: &'a [u8]) -> (r: Option<Self>)
        ensures
            r is Some <==> bytes@.len() >= 136,
            r matches Some(it) ==> it@ == bytes@,
    {
        if bytes.len() >= 136 {
            Some(DiskBalanceArgs { bytes })
        } else {
            None
        }
    }

    pub fn limit(&self) -> (r: u64)
        requires
            le64(self@, 64) & consts::BTRFS_BALANCE_ARGS_LIMIT != 0,
        ensures
            r == le64(self@, 72),
    {
        proof {
            use_type_invariant(self);
        }
        read_le64(self.bytes, 72)
    }

    pub fn limit_range(&self) -> (r: (u32, u32))
        requires
            le64(self@, 64) & consts::BTRFS_BALANCE_ARGS_LIMIT_RANGE != 0,
        ensures
            r == (le32(self@, 72), le32(self@, 76)),
    {
        proof {
            use_type_invariant(self);
        }
        (read_le32(self.bytes, 72), read_le32(self.bytes, 76))
    }

    pub fn usage(&self) -> (r: u64)
        requires
            le64(self@, 64) & consts::BTRFS_BALANCE_ARGS_USAGE != 0,
        ensures
            r == le64(self@, 8),
    {
        proof {
            use_type_invariant(self);
        }
        read_le64(self.bytes, 8)
    }

    pub fn usage_range(&self) -> (r: (u32, u32))
        requires
            le64(self@, 64) & consts::BTRFS_BALANCE_ARGS_USAGE_RANGE != 0,
        ensures
            r == (le32(self@, 8), le32(self@, 12)),
    {
        proof {
            use_type_invariant(self);
        }
        (read_le32(self.bytes, 8), read_le32(self.bytes, 12))
    }

    pub fn profiles(&self) -> (r: u64)
        ensures
            r == le64(self@, 0),
    {
        proof {
            use_type_invariant(self);
        }
        read_le64(self.bytes, 0)
    }

    pub fn devid(&self) -> (r: u64)
        ensures
            r == le64(self@, 16),
    {
        proof {
            use_type_invariant(self);
        }
        read_le64(self.bytes, 16)
    }

    pub fn pstart(&self) -> (r: u64)
        ensures
            r == le64(self@, 24),
    {
        proof {
            use_type_invariant(self);
        }
        read_le64(self.bytes, 24)
    }

    pub fn vstart(&self) -> (r: u64)
        ensures
            r == le64(self@, 40),
    {
        proof {
            use_type_invariant(self);
        }
        read_le64(self.bytes, 40)
    }

    pub fn vend(&self) -> (r: u64)
        ensures
            r == le64(self@, 48),
    {
        proof {
            use_type_invariant(self);
        }
        read_le64(self.bytes, 48)
    }

    pub fn target(&self) -> (r: u64)
        ensures
            r == le64(self@, 56),
    {
        proof {
            use_type_invariant(self);
        }
        read_le64(self.bytes, 56)
    }

    pub fn flags(&self) -> (r: u64)
        ensures
            r == le64(self@, 64),
    {
        proof {
            use_type_invariant(self);
        }
        read_le64(self.bytes, 64)
    }

    pub fn stripes_min(&self) -> (r: u32)
        ensures
            r == le32(self@, 80),
    {
        proof {
            use_type_invariant(self);
        }
        read_le32(self.bytes, 80)
    }

    pub fn stripes_max(&self) -> (r: u32)
        ensures
            r == le32(self@, 84),
    {
        proof {
            use_type_invariant(self);
        }
        read_le32(self.bytes, 84)
    }
}

/// Uuid tree item of a subvolume.
#[derive(Clone, Copy)]
pub struct UuidSubvol<'a> {
    bytes: &'a [u8],
}

impl<'a> View for UuidSubvol<'a> {
    type V = Seq<u8>;

    closed spec fn view(&self) -> Seq<u8> {
        self.bytes@
    }
}

impl<'a> UuidSubvol<'a> {
    #[verifier::type_invariant]
    closed spec fn wf(self) -> bool {
        true
    }

    /// Length of the fixed part of this item.
    pub const SIZE: usize = 0;

    /// The item held by `bytes`, when `bytes` is long enough.
    pub fn from_bytes(bytes: &'a [u8]) -> (r: Option<Self>)
        ensures
            r is Some <==> bytes@.len() >= 0,
            r matches Some(it) ==> it@ == bytes@,
    {
        if bytes.len() >= 0 {
            Some(UuidSubvol { bytes })
        } else {
            None
        }
    }
}

impl<'a> TreeItem<'a> for UuidSubvol<'a> {
    const KEY: u32 = consts::BTRFS_UUID_KEY_SUBVOL;

    open spec fn min_len() -> nat {
        0
    }

    open spec fn item_bytes(&self) -> Seq<u8> {
        self@
    }

    fn as_bytes(&self) -> (r: &'a [u8]) {
        self.bytes
    }

    fn from_bytes_unchecked(bytes: &'a [u8]) -> (r: Self) {
        UuidSubvol { bytes }
    }

    fn from_search(bytes: &'a [u8], key: u32) -> (r: Option<Self>) {
        if key == Self::KEY && bytes.len() >= 0 {
            Some(UuidSubvol { bytes })
        } else {
            None
        }
    }
}

/// Uuid tree item of a received subvolume.
#[derive(Clone, Copy)]
pub struct UuidReceivedSubvol<'a> {
    bytes: &'a [u8],
}

impl<'a> View for UuidReceivedSubvol<'a> {
    type V = Seq<u8>;

    closed spec fn view(&self) -> Seq<u8> {
        self.bytes@
    }
}

impl<'a> UuidReceivedSubvol<'a> {
    #[verifier::type_invariant]
    closed spec fn wf(self) -> bool {
        true
    }

    /// Length of the fixed part of this item.
    pub const SIZE: usize = 0;

    /// The item held by `bytes`, when `bytes` is long enough.
    pub fn from_bytes(bytes: &'a [u8]) -> (r: Option<Self>)
        ensures
            r is Some <==> bytes@.len() >= 0,
            r matches Some(it) ==> it@ == bytes@,
    {
        if bytes.len() >= 0 {
            Some(UuidReceivedSubvol { bytes })
        } else {
            None
        }
    }
}

impl<'a> TreeItem<'a> for UuidReceivedSubvol<'a> {
    const KEY: u32 = consts::BTRFS_UUID_KEY_RECEIVED_SUBVOL;

    open spec fn min_len() -> nat {
        0
    }

    open spec fn item_bytes(&self) -> Seq<u8> {
        self@
    }

    fn as_bytes(&self) -> (r: &'a [u8]) {
        self.bytes
    }

    fn from_bytes_unchecked(bytes: &'a [u8]) -> (r: Self) {
        UuidReceivedSubvol { bytes }
    }

    fn from_search(bytes: &'a [u8], key: u32) -> (r: Option<Self>) {
        if key == Self::KEY && bytes.len() >= 0 {
            Some(UuidReceivedSubvol { bytes })
        } else {
            None
        }
    }
}


/// Where each item type with a name keeps it, as its on-disk structure lays it out: a directory
/// item, a directory index entry and an extended attribute (`btrfs_dir_item`: a 17 byte key, an
/// 8 byte transid, a 2 byte data length, a 2 byte name length, a 1 byte type) keep the name
/// length at 27 and the name at 30; a root reference or back reference (`btrfs_root_ref`: dirid,
/// sequence, name length) at 16 and 18; an inode reference (`btrfs_inode_ref`: index, name
/// length) at 8 and 10; an extended inode reference (`btrfs_inode_extref`: parent, index, name
/// length) at 16 and 18. The name follows its length, after the type byte of a directory item.
pub proof fn lemma_name_layouts()
    ensures
        DirItem::spec_name_len_offset() == 27 && DirItem::spec_name_offset() == 30,
        DirIndex::spec_name_len_offset() == 27 && DirIndex::spec_name_offset() == 30,
        XattrItem::spec_name_len_offset() == 27 && XattrItem::spec_name_offset() == 30,
        RootRef::spec_name_len_offset() == 16 && RootRef::spec_name_offset() == 18,
        RootBackref::spec_name_len_offset() == 16 && RootBackref::spec_name_offset() == 18,
        InodeRef::spec_name_len_offset() == 8 && InodeRef::spec_name_offset() == 10,
        InodeExtref::spec_name_len_offset() == 16 && InodeExtref::spec_name_offset() == 18,
{
}

} // verus!
