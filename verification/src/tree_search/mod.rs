//! Btrfs tree searches.
//!
//! The search ioctl itself is performed by the caller with the key of a [`TreeSearch`] or a
//! [`BoxedTreeSearch`]; [`SearchResults`] then walks the items that it returned.
pub mod builder;
pub mod query;
pub mod tree_item;

use crate::bytes::{le32, le64, read_le32, read_le64};
use crate::consts;
use builder::seal::SearchKeyBuilderExt;
use builder::SearchKey;
use core::cmp::Ordering;
use tree_item::TreeItem;
use vstd::prelude::*;

pub use builder::{KeyBound, SearchBuilder, SearchKeyBuilder};
pub use query::{next_objectid, next_offset, next_type, FromQueryKey, ObjectId, Offset, QueryKey, Ty};

verus! {

/// Represents a tree in the BTRFS filesystem.
///
/// Argument for [`SearchKeyBuilder::tree()`], which will determine what tree will be searched.
///
/// Note: documenation for fields has been taken verbatum from the Linux Kernel at, `btrfs_tree.h`
#[derive(Debug, Clone, Copy, PartialEq, Eq, Structural)]
pub enum TreeId {
    /// Holds pointers to all of the tree roots.
    RootTree,
    /// Stores information about which extents are in use, and reference counts.
    ExtentTree,
    /// Chunk tree stores translations from logical -> physical block numbering.
    /// The super block points to the chunk tree.
    ChunkTree,
    /// Stores information about which areas of a given device are in use. One per device. The
    /// tree of tree roots points to the device tree.
    DevTree,
    /// One per subvolume, storing files and directories.
    FsTree,
    /// Directory objectid inside the root tree.
    RootTreeDir,
    /// Holds checksums of all the data extents.
    CsumTree,
    /// Holds quota configuration and tracking.
    QuotaTree,
    /// For storing items that use the BTRFS_UUID_KEY* types.
    UuidTree,
    /// Tracks free space in block groups.
    FreeSpaceTree,
    /// Holds the block group items for extent tree v2.
    BlockGroupTree,
    /// Tracks RAID stripes in block groups.
    RaidStripeTree,
    /// Holds details of remapped addresses after relocation.
    RemapTree,
}

impl TreeId {
    /// Object id of the tree.
    pub open spec fn spec_id(self) -> u64 {
        match self {
            TreeId::RootTree => consts::BTRFS_ROOT_TREE_OBJECTID,
            TreeId::ExtentTree => consts::BTRFS_EXTENT_TREE_OBJECTID,
            TreeId::ChunkTree => consts::BTRFS_CHUNK_TREE_OBJECTID,
            TreeId::DevTree => consts::BTRFS_DEV_TREE_OBJECTID,
            TreeId::FsTree => consts::BTRFS_FS_TREE_OBJECTID,
            TreeId::RootTreeDir => consts::BTRFS_ROOT_TREE_DIR_OBJECTID,
            TreeId::CsumTree => consts::BTRFS_CSUM_TREE_OBJECTID,
            TreeId::QuotaTree => consts::BTRFS_QUOTA_TREE_OBJECTID,
            TreeId::UuidTree => consts::BTRFS_UUID_TREE_OBJECTID,
            TreeId::FreeSpaceTree => consts::BTRFS_FREE_SPACE_TREE_OBJECTID,
            TreeId::BlockGroupTree => consts::BTRFS_BLOCK_GROUP_TREE_OBJECTID,
            TreeId::RaidStripeTree => consts::BTRFS_RAID_STRIPE_TREE_OBJECTID,
            TreeId::RemapTree => consts::BTRFS_REMAP_TREE_OBJECTID,
        }
    }

    /// Object id of the tree.
    pub fn as_u64(self) -> (r: u64)
        ensures
            r == self.spec_id(),
    {
        match self {
            TreeId::RootTree => consts::BTRFS_ROOT_TREE_OBJECTID,
            TreeId::ExtentTree => consts::BTRFS_EXTENT_TREE_OBJECTID,
            TreeId::ChunkTree => consts::BTRFS_CHUNK_TREE_OBJECTID,
            TreeId::DevTree => consts::BTRFS_DEV_TREE_OBJECTID,
            TreeId::FsTree => consts::BTRFS_FS_TREE_OBJECTID,
            TreeId::RootTreeDir => consts::BTRFS_ROOT_TREE_DIR_OBJECTID,
            TreeId::CsumTree => consts::BTRFS_CSUM_TREE_OBJECTID,
            TreeId::QuotaTree => consts::BTRFS_QUOTA_TREE_OBJECTID,
            TreeId::UuidTree => consts::BTRFS_UUID_TREE_OBJECTID,
            TreeId::FreeSpaceTree => consts::BTRFS_FREE_SPACE_TREE_OBJECTID,
            TreeId::BlockGroupTree => consts::BTRFS_BLOCK_GROUP_TREE_OBJECTID,
            TreeId::RaidStripeTree => consts::BTRFS_RAID_STRIPE_TREE_OBJECTID,
            TreeId::RemapTree => consts::BTRFS_REMAP_TREE_OBJECTID,
        }
    }
}

impl PartialEq<u64> for TreeId {
    fn eq(&self, other: &u64) -> (r: bool) {
        self.as_u64() == *other
    }
}

impl vstd::std_specs::cmp::PartialEqSpecImpl<u64> for TreeId {
    open spec fn obeys_eq_spec() -> bool {
        true
    }

    open spec fn eq_spec(&self, other: &u64) -> bool {
        self.spec_id() == *other
    }
}

impl PartialEq<TreeId> for u64 {
    fn eq(&self, other: &TreeId) -> (r: bool) {
        other.as_u64() == *self
    }
}

impl vstd::std_specs::cmp::PartialEqSpecImpl<TreeId> for u64 {
    open spec fn obeys_eq_spec() -> bool {
        true
    }

    open spec fn eq_spec(&self, other: &TreeId) -> bool {
        other.spec_id() == *self
    }
}

/// How the object id `a` orders against the object id `b`.
pub open spec fn id_order(a: u64, b: u64) -> Option<Ordering> {
    if a < b {
        Some(Ordering::Less)
    } else if a == b {
        Some(Ordering::Equal)
    } else {
        Some(Ordering::Greater)
    }
}

/// How the object id `a` orders against the object id `b`; see [`id_order`].
fn order_ids(a: u64, b: u64) -> (r: Option<Ordering>)
    ensures
        r == id_order(a, b),
{
    if a < b {
        Some(Ordering::Less)
    } else if a == b {
        Some(Ordering::Equal)
    } else {
        Some(Ordering::Greater)
    }
}

impl PartialOrd<u64> for TreeId {
    fn partial_cmp(&self, other: &u64) -> (r: Option<Ordering>) {
        order_ids(self.as_u64(), *other)
    }
}

impl vstd::std_specs::cmp::PartialOrdSpecImpl<u64> for TreeId {
    open spec fn obeys_partial_cmp_spec() -> bool {
        true
    }

    open spec fn partial_cmp_spec(&self, other: &u64) -> Option<Ordering> {
        id_order(self.spec_id(), *other)
    }
}

impl PartialOrd<TreeId> for u64 {
    fn partial_cmp(&self, other: &TreeId) -> (r: Option<Ordering>) {
        order_ids(*self, other.as_u64())
    }
}

impl vstd::std_specs::cmp::PartialOrdSpecImpl<TreeId> for u64 {
    open spec fn obeys_partial_cmp_spec() -> bool {
        true
    }

    open spec fn partial_cmp_spec(&self, other: &TreeId) -> Option<Ordering> {
        id_order(*self, other.spec_id())
    }
}

/// Length of the header that precedes each item returned by a tree search.
pub const SEARCH_HEADER_LEN: usize = 32;

/// Items returned from a btrfs tree search: a search header followed by the item data.
///
/// The header holds the transaction id, object id, offset, type and data length of the item.
#[derive(Debug, Clone, Copy)]
pub struct SearchItem<'buf> {
    bytes: &'buf [u8],
}

impl<'buf> View for SearchItem<'buf> {
    type V = Seq<u8>;

    closed spec fn view(&self) -> Seq<u8> {
        self.bytes@
    }
}

/// Whether `bytes` is a search header followed by exactly the data length that it records.
pub open spec fn spec_search_item_wf(bytes: Seq<u8>) -> bool {
    &&& bytes.len() >= SEARCH_HEADER_LEN
    &&& bytes.len() == SEARCH_HEADER_LEN + le32(bytes, 28)
}

impl<'buf> SearchItem<'buf> {
    #[verifier::type_invariant]
    closed spec fn wf(self) -> bool {
        spec_search_item_wf(self.bytes@)
    }

    /// The item held by `bytes`, when `bytes` is a search header followed by the data length
    /// that it records.
    pub fn from_bytes(bytes: &'buf [u8]) -> (r: Option<SearchItem<'buf>>)
        ensures
            r is Some <==> spec_search_item_wf(bytes@),
            r matches Some(it) ==> it@ == bytes@,
    {
        if bytes.len() < SEARCH_HEADER_LEN {
            return None;
        }
        let len = read_le32(bytes, 28) as usize;
        if bytes.len() - SEARCH_HEADER_LEN != len {
            return None;
        }
        Some(SearchItem { bytes })
    }

    /// Whole bytes of the item, header included.
    pub fn as_bytes(&self) -> (r: &'buf [u8])
        ensures
            r@ == self@,
    {
        self.bytes
    }

    /// Gets the object id for this item
    pub fn objectid(&self) -> (r: u64)
        ensures
            r == le64(self@, 8),
    {
        proof {
            use_type_invariant(self);
        }
        read_le64(self.bytes, 8)
    }

    /// Gets the key type for this item
    pub fn ty(&self) -> (r: u32)
        ensures
            r == le32(self@, 24),
    {
        proof {
            use_type_invariant(self);
        }
        read_le32(self.bytes, 24)
    }

    /// Gets the offset for this item
    pub fn offset(&self) -> (r: u64)
        ensures
            r == le64(self@, 16),
    {
        proof {
            use_type_invariant(self);
        }
        read_le64(self.bytes, 16)
    }

    /// Return the sorting key for this item
    pub fn key(&self) -> (r: QueryKey)
        ensures
            r == (le64(self@, 8), le32(self@, 24), le64(self@, 16)),
    {
        (self.objectid(), self.ty(), self.offset())
    }

    /// Gets the transaction id for this item
    pub fn transid(&self) -> (r: u64)
        ensures
            r == le64(self@, 0),
    {
        proof {
            use_type_invariant(self);
        }
        read_le64(self.bytes, 0)
    }

    /// Gets the data length for this item
    pub fn len(&self) -> (r: u32)
        ensures
            r == le32(self@, 28),
    {
        proof {
            use_type_invariant(self);
        }
        read_le32(self.bytes, 28)
    }

    /// The item data that follows the header.
    pub fn data(&self) -> (r: &'buf [u8])
        ensures
            r@ == self@.subrange(SEARCH_HEADER_LEN as int, self@.len() as int),
    {
        proof {
            use_type_invariant(self);
        }
        vstd::slice::slice_subrange(self.bytes, SEARCH_HEADER_LEN, self.bytes.len())
    }

    /// Reads the item data as a [`TreeItem`] without checking the type.
    pub fn get_unchecked<T: TreeItem<'buf>>(&self) -> (r: T)
        requires
            self@.len() - SEARCH_HEADER_LEN >= T::min_len(),
        ensures
            r.item_bytes() == self@.subrange(SEARCH_HEADER_LEN as int, self@.len() as int),
    {
        proof {
            use_type_invariant(self);
        }
        T::from_bytes_unchecked(self.data())
    }

    /// Attempt to read the item data as a [`TreeItem`]: the type of the item must be the key of
    /// `T` and the data must be long enough for it.
    pub fn get<T: TreeItem<'buf>>(&self) -> (r: Option<T>)
        ensures
            r is Some <==> le32(self@, 24) == T::KEY && self@.len() - SEARCH_HEADER_LEN
                >= T::min_len(),
            r matches Some(it) ==> it.item_bytes() == self@.subrange(
                SEARCH_HEADER_LEN as int,
                self@.len() as int,
            ),
    {
        proof {
            use_type_invariant(self);
        }
        T::from_search(self.data(), self.ty())
    }
}

/// Where the item at `off` in the result buffer `buf` ends, when its header and data fit.
pub open spec fn spec_item_end(buf: Seq<u8>, off: int) -> Option<int> {
    if 0 <= off && off + SEARCH_HEADER_LEN <= buf.len() && off + SEARCH_HEADER_LEN + le32(
        buf,
        off + 28,
    ) <= buf.len() {
        Some(off + SEARCH_HEADER_LEN + le32(buf, off + 28))
    } else {
        None
    }
}

/// Position of a walk over the results of a tree search.
pub struct SearchResultsView {
    /// The result buffer.
    pub buf: Seq<u8>,
    /// Items not yet returned.
    pub remaining: nat,
    /// Where the next item starts.
    pub curr_offset: nat,
    /// Where the last returned item starts.
    pub prev_offset: nat,
    /// Whether an item was returned.
    pub any_returned: bool,
}

/// The bytes of the items that a walk at `off`, with `remaining` items left, returns in order:
/// it stops at the first item whose header or data does not fit in `buf`.
pub open spec fn spec_items(buf: Seq<u8>, remaining: nat, off: int) -> Seq<Seq<u8>>
    decreases remaining,
{
    if remaining == 0 {
        Seq::empty()
    } else {
        match spec_item_end(buf, off) {
            Some(end) => seq![buf.subrange(off, end)] + spec_items(buf, (remaining - 1) as nat, end),
            None => Seq::empty(),
        }
    }
}

impl SearchResultsView {
    /// The bytes of the items that the rest of the walk returns, in order.
    pub open spec fn items(self) -> Seq<Seq<u8>> {
        spec_items(self.buf, self.remaining, self.curr_offset as int)
    }
}

/// Walks the items that a tree search returned in a result buffer.
pub struct SearchResults<'buf> {
    buf: &'buf [u8],
    index: usize,
    curr_offset: usize,
    prev_offset: usize,
    any_returned: bool,
}

impl<'buf> View for SearchResults<'buf> {
    type V = SearchResultsView;

    closed spec fn view(&self) -> SearchResultsView {
        SearchResultsView {
            buf: self.buf@,
            remaining: self.index as nat,
            curr_offset: self.curr_offset as nat,
            prev_offset: self.prev_offset as nat,
            any_returned: self.any_returned,
        }
    }
}

impl<'buf> SearchResults<'buf> {
    #[verifier::type_invariant]
    closed spec fn wf(self) -> bool {
        &&& self.curr_offset <= self.buf@.len()
        &&& self.prev_offset <= self.buf@.len()
        &&& self.any_returned ==> self.prev_offset + SEARCH_HEADER_LEN <= self.buf@.len()
    }

    /// A walk over the `nr_items` items that a search returned in `buf`.
    pub fn new(buf: &'buf [u8], nr_items: u32) -> (r: SearchResults<'buf>)
        ensures
            r@.buf == buf@,
            r@.remaining == nr_items,
            r@.curr_offset == 0,
            r@.prev_offset == 0,
            !r@.any_returned,
    {
        SearchResults { buf, index: nr_items as usize, curr_offset: 0, prev_offset: 0, any_returned: false }
    }

    /// Number of items not yet returned.
    pub fn len(&self) -> (r: usize)
        ensures
            r == self@.remaining,
    {
        self.index
    }

    /// Returns the next item, if any is left and it fits in the buffer.
    pub fn next(&mut self) -> (r: Option<SearchItem<'buf>>)
        ensures
            final(self)@.buf == old(self)@.buf,
            old(self)@.remaining == 0 ==> r is None && final(self)@ == old(self)@,
            old(self)@.remaining > 0 ==> match spec_item_end(
                old(self)@.buf,
                old(self)@.curr_offset as int,
            ) {
                Some(end) => {
                    &&& r matches Some(it) && it@ == old(self)@.buf.subrange(
                        old(self)@.curr_offset as int,
                        end,
                    )
                    &&& final(self)@.remaining == old(self)@.remaining - 1
                    &&& final(self)@.prev_offset == old(self)@.curr_offset
                    &&& final(self)@.curr_offset == end
                    &&& final(self)@.any_returned
                },
                None => {
                    &&& r is None
                    &&& final(self)@.remaining == 0
                    &&& final(self)@.curr_offset == old(self)@.curr_offset
                    &&& final(self)@.prev_offset == old(self)@.prev_offset
                    &&& final(self)@.any_returned == old(self)@.any_returned
                },
            },
            match r {
                Some(it) => old(self)@.items() == seq![it@] + final(self)@.items(),
                None => old(self)@.items().len() == 0 && final(self)@.items().len() == 0,
            },
    {
        proof {
            use_type_invariant(&*self);
        }
        if self.index == 0 {
            return None;
        }
        let off = self.curr_offset;
        if self.buf.len() - off < SEARCH_HEADER_LEN {
            self.index = 0;
            return None;
        }
        let len = read_le32(self.buf, off + 28) as usize;
        if self.buf.len() - off - SEARCH_HEADER_LEN < len {
            self.index = 0;
            return None;
        }
        let end = off + SEARCH_HEADER_LEN + len;
        let bytes = vstd::slice::slice_subrange(self.buf, off, end);
        assert(le32(bytes@, 28) == le32(self.buf@, off + 28));
        let item = SearchItem { bytes };
        self.index = self.index - 1;
        self.prev_offset = off;
        self.curr_offset = end;
        self.any_returned = true;
        Some(item)
    }

    /// Key of the last returned item, from which a search continues; `None` when no item was
    /// returned.
    pub fn last_key(&self) -> (r: Option<QueryKey>)
        ensures
            !self@.any_returned ==> r is None,
            self@.any_returned ==> r == Some(
                (
                    le64(self@.buf, self@.prev_offset + 8int),
                    le32(self@.buf, self@.prev_offset + 24int),
                    le64(self@.buf, self@.prev_offset + 16int),
                ),
            ),
    {
        proof {
            use_type_invariant(self);
        }
        if !self.any_returned {
            return None;
        }
        let off = self.prev_offset;
        let n = self.buf.len();
        assert(off + SEARCH_HEADER_LEN <= n);
        Some((read_le64(self.buf, off + 8), read_le32(self.buf, off + 24), read_le64(self.buf, off + 16)))
    }
}

/// The search key after the items of a search were walked: when the callback asked to continue
/// from `next`, the minimum objectid, type and offset become those of `next`.
pub open spec fn spec_key_after(key: SearchKey, next: Option<QueryKey>) -> SearchKey {
    match next {
        Some(k) => SearchKey { min_objectid: k.0, min_type: k.1, min_offset: k.2, ..key },
        None => key,
    }
}

/// Can perform tree searches using a fixed size buffer.
///
/// See the [`SearchKeyBuilder`] trait for updating the search key.
pub struct TreeSearch<R> {
    resource: R,
    key: SearchKey,
}

impl<R> SearchKeyBuilderExt for TreeSearch<R> {
    closed spec fn spec_key(&self) -> SearchKey {
        self.key
    }

    closed spec fn spec_rest(&self) -> Self {
        TreeSearch { key: builder::spec_default_key(), resource: self.resource }
    }

    fn get_key(&self) -> (r: SearchKey) {
        self.key
    }

    fn set_key(&mut self, key: SearchKey) {
        self.key = key;
    }
}

impl<R> SearchKeyBuilder for TreeSearch<R> {

}

impl<R> TreeSearch<R> {
    /// Size of the result buffer of a tree search.
    pub const BUF_SIZE: usize = 3992;

    /// The resource that is searched.
    pub closed spec fn spec_resource(&self) -> R {
        self.resource
    }

    /// Setting the search key keeps the resource: two searches that differ only in their keys
    /// search the same resource.
    pub proof fn lemma_rest_keeps_resource(a: Self, b: Self)
        requires
            a.spec_rest() == b.spec_rest(),
        ensures
            a.spec_resource() == b.spec_resource(),
    {
    }

    /// A search of the tree behind `resource` with the key `key`.
    pub fn new(resource: R, key: SearchKey) -> (r: Self)
        ensures
            r.spec_key() == key,
            r.spec_resource() == resource,
    {
        TreeSearch { resource, key }
    }

    /// The resource that is searched.
    pub fn resource(&self) -> (r: &R)
        ensures
            *r == self.spec_resource(),
    {
        &self.resource
    }

    /// Moves the search key past the items of the last search, as the callback asked.
    pub fn update_key<K: FromQueryKey>(&mut self, next: K)
        ensures
            final(self).spec_key() == spec_key_after(old(self).spec_key(), next.spec_query_key()),
            final(self).spec_resource() == old(self).spec_resource(),
    {
        self.key = key_after(self.key, next.as_query_key());
    }
}

/// Can perform tree searches using a result buffer of a chosen size.
///
/// See the [`SearchKeyBuilder`] trait for updating the search key.
pub struct BoxedTreeSearch<R> {
    resource: R,
    key: SearchKey,
    buf_size: u64,
}

impl<R> SearchKeyBuilderExt for BoxedTreeSearch<R> {
    closed spec fn spec_key(&self) -> SearchKey {
        self.key
    }

    closed spec fn spec_rest(&self) -> Self {
        BoxedTreeSearch { key: builder::spec_default_key(), resource: self.resource, buf_size: self.buf_size }
    }

    fn get_key(&self) -> (r: SearchKey) {
        self.key
    }

    fn set_key(&mut self, key: SearchKey) {
        self.key = key;
    }
}

impl<R> SearchKeyBuilder for BoxedTreeSearch<R> {

}

impl<R> BoxedTreeSearch<R> {
    /// Size of the result buffer.
    pub closed spec fn spec_buf_size(&self) -> u64 {
        self.buf_size
    }

    /// The resource that is searched.
    pub closed spec fn spec_resource(&self) -> R {
        self.resource
    }

    /// Setting the search key keeps the resource and the buffer size: two searches that differ
    /// only in their keys search the same resource with the same buffer.
    pub proof fn lemma_rest_keeps_resource(a: Self, b: Self)
        requires
            a.spec_rest() == b.spec_rest(),
        ensures
            a.spec_resource() == b.spec_resource(),
            a.spec_buf_size() == b.spec_buf_size(),
    {
    }

    /// A search of the tree behind `resource` with the key `key` and a result buffer of
    /// `buf_size` bytes.
    pub fn new(resource: R, key: SearchKey, buf_size: u64) -> (r: Self)
        ensures
            r.spec_key() == key,
            r.spec_buf_size() == buf_size,
            r.spec_resource() == resource,
    {
        BoxedTreeSearch { resource, key, buf_size }
    }

    /// Size of the result buffer.
    pub fn buf_size(&self) -> (r: u64)
        ensures
            r == self.spec_buf_size(),
    {
        self.buf_size
    }

    /// The resource that is searched.
    pub fn resource(&self) -> (r: &R)
        ensures
            *r == self.spec_resource(),
    {
        &self.resource
    }

    /// Moves the search key past the items of the last search, as the callback asked.
    pub fn update_key<K: FromQueryKey>(&mut self, next: K)
        ensures
            final(self).spec_key() == spec_key_after(old(self).spec_key(), next.spec_query_key()),
            final(self).spec_resource() == old(self).spec_resource(),
            final(self).spec_buf_size() == old(self).spec_buf_size(),
    {
        self.key = key_after(self.key, next.as_query_key());
    }
}

/// The search key after the items of a search were walked; see [`spec_key_after`].
pub fn key_after(key: SearchKey, next: Option<QueryKey>) -> (r: SearchKey)
    ensures
        r == spec_key_after(key, next),
{
    match next {
        Some(k) => SearchKey { min_objectid: k.0, min_type: k.1, min_offset: k.2, ..key },
        None => key,
    }
}


/// Moving a search key past the items of a search changes only where the search starts: the
/// tree, the upper limits, the transaction range and the item count stay.
pub proof fn lemma_key_after_keeps_limits(key: SearchKey, next: Option<QueryKey>)
    ensures
        ({
            let k = spec_key_after(key, next);
            &&& k.tree_id == key.tree_id
            &&& k.max_objectid == key.max_objectid
            &&& k.max_type == key.max_type
            &&& k.max_offset == key.max_offset
            &&& k.min_transid == key.min_transid
            &&& k.max_transid == key.max_transid
            &&& k.nr_items == key.nr_items
        }),
{
}

} // verus!
