//! Keys by which items of a btrfs tree are sorted, and how a search moves past them.
use vstd::prelude::*;

verus! {

/// Primary sort key for a btrfs item. Field 0 of [`QueryKey`] tuple.
pub type ObjectId = u64;

/// Secondary sort key for a btrfs item. Field 1 of [`QueryKey`] tuple.
pub type Ty = u32;

/// Tertiary sort key for a btrfs item. Field 2 of [`QueryKey`] tuple.
pub type Offset = u64;

/// Represents the sorting order, in wich items are returned from a tree search.
pub type QueryKey = (ObjectId, Ty, Offset);

/// Lexicographic order of query keys: `a` sorts before `b`.
pub open spec fn key_lt(a: QueryKey, b: QueryKey) -> bool {
    ||| a.0 < b.0
    ||| a.0 == b.0 && a.1 < b.1
    ||| a.0 == b.0 && a.1 == b.1 && a.2 < b.2
}

/// Set the search key from the last seen [`QueryKey`]
///
/// Return value for the closure called when the items of a search are done with. Sets the search
/// key used for future searches based on the last seen [`QueryKey`].
pub trait FromQueryKey: Sized {
    /// The key that `self` asks the search to continue from, if any.
    spec fn spec_query_key(self) -> Option<QueryKey>;

    /// The key that `self` asks the search to continue from, if any.
    fn as_query_key(self) -> (r: Option<QueryKey>)
        ensures
            r == self.spec_query_key(),
    ;
}

/// Does not update the search key.
impl FromQueryKey for Option<()> {
    open spec fn spec_query_key(self) -> Option<QueryKey> {
        None
    }

    fn as_query_key(self) -> (r: Option<QueryKey>) {
        None
    }
}

/// Does not update the search key.
impl FromQueryKey for () {
    open spec fn spec_query_key(self) -> Option<QueryKey> {
        None
    }

    fn as_query_key(self) -> (r: Option<QueryKey>) {
        None
    }
}

/// Updates the [`QueryKey`] with provided value.
impl FromQueryKey for QueryKey {
    open spec fn spec_query_key(self) -> Option<QueryKey> {
        Some(self)
    }

    fn as_query_key(self) -> (r: Option<QueryKey>) {
        Some(self)
    }
}

/// The key after `key` in objectid order: the next objectid with type and offset zero, or `key`
/// itself when the objectid is already `u64::MAX`.
pub open spec fn spec_next_objectid(key: QueryKey) -> QueryKey {
    if key.0 < u64::MAX {
        ((key.0 + 1) as u64, 0, 0)
    } else {
        key
    }
}

/// The key after `key` in type order. The type is read as a `u8`; past `u8::MAX` the key moves
/// to the next objectid.
pub open spec fn spec_next_type(key: QueryKey) -> QueryKey {
    if (key.1 as u8) < u8::MAX {
        (key.0, ((key.1 as u8) + 1) as u32, 0)
    } else {
        spec_next_objectid(key)
    }
}

/// The key after `key` in offset order; past `u64::MAX` the key moves to the next type.
pub open spec fn spec_next_offset(key: QueryKey) -> QueryKey {
    if key.2 < u64::MAX {
        (key.0, key.1, (key.2 + 1) as u64)
    } else {
        spec_next_type(key)
    }
}

/// Increment the key to the next objectid
///
/// Returns a [`QueryKey`] with the `objectid` incremeted by one from `key`. If the objectid for `key`
/// is [`u64::MAX`] then `key` is returned unmodified.
pub fn next_objectid(key: QueryKey) -> (r: QueryKey)
    ensures
        r == spec_next_objectid(key),
        key.0 < u64::MAX ==> key_lt(key, r),
        key.0 == u64::MAX ==> r == key,
{
    if key.0 < u64::MAX {
        (key.0 + 1, 0, 0)
    } else {
        key
    }
}

/// Increment the key to the next type
///
/// Returns a [`QueryKey`] with the `type` incremeted by one from `key`. If the type for `key` is
/// [`u8::MAX`] then the `type` is set to 0 and the `objectid` is incremeted.
pub fn next_type(key: QueryKey) -> (r: QueryKey)
    ensures
        r == spec_next_type(key),
        key.1 <= u8::MAX && (key.1 < u8::MAX || key.0 < u64::MAX) ==> key_lt(key, r),
{
    let ty = key.1 as u8;
    if ty < u8::MAX {
        (key.0, (ty + 1) as u32, 0)
    } else {
        next_objectid(key)
    }
}

/// Increment the key to the next offset
///
/// Returns a [`QueryKey`] with the `offset` incremeted by one from `key`. If the offset for `key`
/// is [`u64::MAX`] then the `offset` is set to 0 and the `type` is incremeted.
pub fn next_offset(key: QueryKey) -> (r: QueryKey)
    ensures
        r == spec_next_offset(key),
        key.2 < u64::MAX ==> key_lt(key, r),
        key.1 <= u8::MAX && (key.1 < u8::MAX || key.0 < u64::MAX) ==> key_lt(key, r),
{
    if key.2 < u64::MAX {
        (key.0, key.1, key.2 + 1)
    } else {
        next_type(key)
    }
}

/// Each of the next-key functions moves a key forward in sort order, unless the key is already
/// the last one it can reach; a type above `u8::MAX` is read by its low byte.
pub proof fn lemma_next_keys_advance(key: QueryKey)
    requires
        key.1 <= u8::MAX,
    ensures
        key.0 < u64::MAX ==> key_lt(key, spec_next_objectid(key)),
        (key.1 < u8::MAX || key.0 < u64::MAX) ==> key_lt(key, spec_next_type(key)),
        (key.2 < u64::MAX || key.1 < u8::MAX || key.0 < u64::MAX) ==> key_lt(
            key,
            spec_next_offset(key),
        ),
{
    let t = key.1;
    assert(t as u8 == t) by (bit_vector)
        requires
            t <= 255u32,
    ;
}

} // verus!
