//! The search key of a btrfs tree search, and how it is built.
pub mod seal;

use super::TreeId;
use crate::consts;
use vstd::prelude::*;

verus! {

/// The key of a tree search: which tree, which items, and at most how many.
#[derive(Debug, Clone, Copy, PartialEq, Eq, Structural)]
pub struct SearchKey {
    pub tree_id: u64,
    pub min_objectid: u64,
    pub max_objectid: u64,
    pub min_offset: u64,
    pub max_offset: u64,
    pub min_transid: u64,
    pub max_transid: u64,
    pub min_type: u32,
    pub max_type: u32,
    pub nr_items: u32,
    pub unused: u32,
    pub unused1: u64,
    pub unused2: u64,
    pub unused3: u64,
    pub unused4: u64,
}

/// The key that a new search starts with: the root tree, every item, no limit.
pub open spec fn spec_default_key() -> SearchKey {
    SearchKey {
        tree_id: consts::BTRFS_ROOT_TREE_OBJECTID,
        min_objectid: u64::MIN,
        max_objectid: u64::MAX,
        min_offset: u64::MIN,
        max_offset: u64::MAX,
        min_transid: u64::MIN,
        max_transid: u64::MAX,
        min_type: u32::MIN,
        max_type: u32::MAX,
        nr_items: u32::MAX,
        unused: 0,
        unused1: 0,
        unused2: 0,
        unused3: 0,
        unused4: 0,
    }
}

impl Default for SearchKey {
    fn default() -> (r: SearchKey)
        ensures
            r == spec_default_key(),
    {
        SearchKey {
            tree_id: consts::BTRFS_ROOT_TREE_OBJECTID,
            min_objectid: u64::MIN,
            max_objectid: u64::MAX,
            min_offset: u64::MIN,
            max_offset: u64::MAX,
            min_transid: u64::MIN,
            max_transid: u64::MAX,
            min_type: u32::MIN,
            max_type: u32::MAX,
            nr_items: u32::MAX,
            unused: 0,
            unused1: 0,
            unused2: 0,
            unused3: 0,
            unused4: 0,
        }
    }
}

/// One end of a range of key values.
#[derive(Debug, Clone, Copy, PartialEq, Eq, Structural)]
pub enum KeyBound<T> {
    Included(T),
    Excluded(T),
    Unbounded,
}

/// The minimum and maximum that the range from `start` to `end` sets, starting from `min` and
/// `max`.
///
/// All ranges are treated as inclusive and unbounded ends are ignored. An unbounded start with
/// an included end (the `..=b` syntax) sets both the minimum and the maximum to that end.
pub open spec fn spec_range_bounds<T>(start: KeyBound<T>, end: KeyBound<T>, min: T, max: T) -> (
    T,
    T,
) {
    match (start, end) {
        (KeyBound::Unbounded, KeyBound::Included(b)) => (b, b),
        (KeyBound::Unbounded, KeyBound::Excluded(b)) => (min, b),
        (KeyBound::Unbounded, KeyBound::Unbounded) => (min, max),
        (KeyBound::Included(a), KeyBound::Included(b)) => (a, b),
        (KeyBound::Included(a), KeyBound::Excluded(b)) => (a, b),
        (KeyBound::Included(a), KeyBound::Unbounded) => (a, max),
        (KeyBound::Excluded(a), KeyBound::Included(b)) => (a, b),
        (KeyBound::Excluded(a), KeyBound::Excluded(b)) => (a, b),
        (KeyBound::Excluded(a), KeyBound::Unbounded) => (a, max),
    }
}

/// The rule of the search key builder: an unbounded start with an included end sets both
/// bounds to that end; otherwise an unbounded start or end leaves its bound as it was, and a
/// bounded one, included or excluded, sets it to its value.
pub proof fn lemma_range_bounds<T>(start: KeyBound<T>, end: KeyBound<T>, min: T, max: T)
    ensures
        ({
            let r = spec_range_bounds(start, end, min, max);
            if start is Unbounded && end is Included {
                r.0 == end->Included_0 && r.1 == end->Included_0
            } else {
                &&& r.0 == match start {
                    KeyBound::Included(a) => a,
                    KeyBound::Excluded(a) => a,
                    KeyBound::Unbounded => min,
                }
                &&& r.1 == match end {
                    KeyBound::Included(b) => b,
                    KeyBound::Excluded(b) => b,
                    KeyBound::Unbounded => max,
                }
            }
        }),
{
}

/// Applies the range from `start` to `end` to the bounds `(min, max)`.
pub fn range_bounds<T: Copy>(start: KeyBound<T>, end: KeyBound<T>, min: T, max: T) -> (r: (T, T))
    ensures
        r == spec_range_bounds(start, end, min, max),
{
    let mut lo = min;
    let mut hi = max;
    match start {
        KeyBound::Unbounded => {
            if let KeyBound::Included(b) = end {
                return (b, b);
            }
        },
        KeyBound::Excluded(b) | KeyBound::Included(b) => {
            lo = b;
        },
    }
    match end {
        KeyBound::Included(b) | KeyBound::Excluded(b) => {
            hi = b;
        },
        KeyBound::Unbounded => {},
    }
    (lo, hi)
}

/// This trait provides methods used to set and update the search key used for a Btrfs Tree Search.
///
/// Search key fields that are used to set minimum and maximum bounds are set by a start and an
/// end bound, where the start sets the lower bound and the end sets the higher bound. All ranges
/// are treated as inclusive, and unbounded ends are ignored. An unbounded start with an included
/// end sets both the minimum and maximum bounds to the same thing.
pub trait SearchKeyBuilder: seal::SearchKeyBuilderExt + Sized {
    /// Set the tree to be searched. Default is `TreeId::RootTree`
    fn tree(self, tree_id: TreeId) -> (r: Self)
        ensures
            r.spec_rest() == self.spec_rest(),
            r.spec_key() == (SearchKey { tree_id: tree_id.spec_id(), ..self.spec_key() }),
    {
        let mut s = self;
        let key = s.get_key();
        s.set_key(SearchKey { tree_id: tree_id.as_u64(), ..key });
        s
    }

    /// Limit the number of items that the search will find. Default is `u32::MAX`
    fn item_limit(self, limit: u32) -> (r: Self)
        ensures
            r.spec_rest() == self.spec_rest(),
            r.spec_key() == (SearchKey { nr_items: limit, ..self.spec_key() }),
    {
        let mut s = self;
        let key = s.get_key();
        s.set_key(SearchKey { nr_items: limit, ..key });
        s
    }

    /// Set the minimum and maximum offset bounds. Default is `u64::MIN..u64::MAX`
    fn offset(self, start: KeyBound<u64>, end: KeyBound<u64>) -> (r: Self)
        ensures
            r.spec_rest() == self.spec_rest(),
            ({
                let k = self.spec_key();
                let b = spec_range_bounds(start, end, k.min_offset, k.max_offset);
                r.spec_key() == (SearchKey { min_offset: b.0, max_offset: b.1, ..k })
            }),
    {
        let mut s = self;
        let key = s.get_key();
        let (lo, hi) = range_bounds(start, end, key.min_offset, key.max_offset);
        s.set_key(SearchKey { min_offset: lo, max_offset: hi, ..key });
        s
    }

    /// Set the minimum and maximum objectid bounds. Default is `u64::MIN..u64::MAX`
    fn objectid(self, start: KeyBound<u64>, end: KeyBound<u64>) -> (r: Self)
        ensures
            r.spec_rest() == self.spec_rest(),
            ({
                let k = self.spec_key();
                let b = spec_range_bounds(start, end, k.min_objectid, k.max_objectid);
                r.spec_key() == (SearchKey { min_objectid: b.0, max_objectid: b.1, ..k })
            }),
    {
        let mut s = self;
        let key = s.get_key();
        let (lo, hi) = range_bounds(start, end, key.min_objectid, key.max_objectid);
        s.set_key(SearchKey { min_objectid: lo, max_objectid: hi, ..key });
        s
    }

    /// Set the minimum and maximum transid bounds. Default is `u64::MIN..u64::MAX`
    fn transid(self, start: KeyBound<u64>, end: KeyBound<u64>) -> (r: Self)
        ensures
            r.spec_rest() == self.spec_rest(),
            ({
                let k = self.spec_key();
                let b = spec_range_bounds(start, end, k.min_transid, k.max_transid);
                r.spec_key() == (SearchKey { min_transid: b.0, max_transid: b.1, ..k })
            }),
    {
        let mut s = self;
        let key = s.get_key();
        let (lo, hi) = range_bounds(start, end, key.min_transid, key.max_transid);
        s.set_key(SearchKey { min_transid: lo, max_transid: hi, ..key });
        s
    }

    /// Set the minimum and maximum type bounds. Default is `u32::MIN..u32::MAX`
    fn item_type(self, start: KeyBound<u32>, end: KeyBound<u32>) -> (r: Self)
        ensures
            r.spec_rest() == self.spec_rest(),
            ({
                let k = self.spec_key();
                let b = spec_range_bounds(start, end, k.min_type, k.max_type);
                r.spec_key() == (SearchKey { min_type: b.0, max_type: b.1, ..k })
            }),
    {
        let mut s = self;
        let key = s.get_key();
        let (lo, hi) = range_bounds(start, end, key.min_type, key.max_type);
        s.set_key(SearchKey { min_type: lo, max_type: hi, ..key });
        s
    }
}

/// Constructs either a [`TreeSearch`](super::TreeSearch) or a
/// [`BoxedTreeSearch`](super::BoxedTreeSearch)
pub struct SearchBuilder<R> {
    key: SearchKey,
    resource: R,
}

impl<R> seal::SearchKeyBuilderExt for SearchBuilder<R> {
    closed spec fn spec_key(&self) -> SearchKey {
        self.key
    }

    closed spec fn spec_rest(&self) -> Self {
        SearchBuilder { key: spec_default_key(), resource: self.resource }
    }

    fn get_key(&self) -> (r: SearchKey) {
        self.key
    }

    fn set_key(&mut self, key: SearchKey) {
        self.key = key;
    }
}

impl<R> SearchKeyBuilder for SearchBuilder<R> {

}

impl<R> SearchBuilder<R> {
    /// The IO resource that the search is run on.
    pub closed spec fn spec_resource(&self) -> R {
        self.resource
    }

    /// Constructs a new `SearchBuilder` from an IO resouce
    pub fn new(resource: R) -> (r: Self)
        ensures
            seal::SearchKeyBuilderExt::spec_key(&r) == spec_default_key(),
            r.spec_resource() == resource,
    {
        SearchBuilder { key: SearchKey::default(), resource }
    }

    /// Setting the search key of a builder keeps its resource: two builders that differ only in
    /// their keys hold the same resource.
    pub proof fn lemma_rest_keeps_resource(a: Self, b: Self)
        requires
            seal::SearchKeyBuilderExt::spec_rest(&a) == seal::SearchKeyBuilderExt::spec_rest(&b),
        ensures
            a.spec_resource() == b.spec_resource(),
    {
    }

    /// Build a new [`TreeSearch`](super::TreeSearch).
    pub fn build(self) -> (r: super::TreeSearch<R>)
        ensures
            seal::SearchKeyBuilderExt::spec_key(&r) == seal::SearchKeyBuilderExt::spec_key(&self),
            r.spec_resource() == self.spec_resource(),
    {
        super::TreeSearch::new(self.resource, self.key)
    }

    /// Build a new [`BoxedTreeSearch`](super::BoxedTreeSearch) whose result buffer holds
    /// `buf_size` bytes.
    pub fn build_boxed(self, buf_size: u64) -> (r: super::BoxedTreeSearch<R>)
        ensures
            seal::SearchKeyBuilderExt::spec_key(&r) == seal::SearchKeyBuilderExt::spec_key(&self),
            r.spec_buf_size() == buf_size,
            r.spec_resource() == self.spec_resource(),
    {
        super::BoxedTreeSearch::new(self.resource, self.key, buf_size)
    }
}

} // verus!
