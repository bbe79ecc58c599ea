//! The tree searches that find the default subvolume and the path of a subvolume.
//!
//! The caller runs each tree search, and each inode lookup, that these ask for, and hands the
//! results back.
use super::info::spec_item_data;
use crate::bytes::{append_bytes, lemma_le_subrange, le32, le64};
use crate::consts;
use crate::error::{Error, ErrorKind, IoResult};
use crate::tree_search::builder::seal::SearchKeyBuilderExt;
use crate::tree_search::builder::{spec_default_key, KeyBound, SearchBuilder, SearchKey, SearchKeyBuilder};
use crate::tree_search::query::QueryKey;
use crate::tree_search::tree_item::{spec_item_name, DirItem, RootBackref, TreeItem, TreeItemName};
use crate::tree_search::{key_after, spec_key_after, SearchResults, TreeId};
use vstd::prelude::*;

verus! {

/// The name of the entry of the root tree directory that points at the default subvolume.
pub open spec fn spec_default_name() -> Seq<u8> {
    seq![100u8, 101, 102, 97, 117, 108, 116]
}

/// The name of the entry that points at the default subvolume spells `default`, one byte per
/// character.
pub proof fn lemma_default_name_spells_default()
    ensures
        spec_default_name().len() == 7,
        forall|i: int| 0 <= i < 7 ==> spec_default_name()[i] as char == #[trigger] "default"@[i],
{
    reveal_strlit("default");
    assert("default"@ =~= seq!['d', 'e', 'f', 'a', 'u', 'l', 't']);
}

/// Whether `n` is the name of the entry that points at the default subvolume.
pub fn is_default_name(n: &[u8]) -> (r: bool)
    ensures
        r == (n@ == spec_default_name()),
{
    let r = n.len() == 7 && n[0] == 100 && n[1] == 101 && n[2] == 102 && n[3] == 97 && n[4] == 117
        && n[5] == 108 && n[6] == 116;
    if r {
        assert(n@ =~= spec_default_name());
    }
    r
}

/// The key of a search item.
pub open spec fn spec_item_key(item: Seq<u8>) -> QueryKey {
    (le64(item, 8), le32(item, 24), le64(item, 16))
}

/// Whether `item` is a directory item named `default`.
pub open spec fn spec_is_default_entry(item: Seq<u8>) -> bool {
    let data = spec_item_data(item);
    &&& le32(item, 24) == consts::BTRFS_DIR_ITEM_KEY
    &&& data.len() >= 30
    &&& spec_item_name(data, 27, 30) == Some(spec_default_name())
}

/// The subvolume that the first directory item named `default` among `items` points at.
pub open spec fn spec_default_entry(items: Seq<Seq<u8>>) -> Option<u64>
    decreases items.len(),
{
    if items.len() == 0 {
        None
    } else if spec_is_default_entry(items[0]) {
        Some(le64(spec_item_data(items[0]), 0))
    } else {
        spec_default_entry(items.drop_first())
    }
}

/// The key of the last of `items`, or `before` when there are none.
pub open spec fn spec_last_key(items: Seq<Seq<u8>>, before: Option<QueryKey>) -> Option<QueryKey> {
    if items.len() == 0 {
        before
    } else {
        Some(spec_item_key(items.last()))
    }
}

/// The key of the search for the entries of the root tree directory.
pub open spec fn spec_default_subvol_key() -> SearchKey {
    SearchKey {
        tree_id: consts::BTRFS_ROOT_TREE_OBJECTID,
        nr_items: u32::MAX,
        min_objectid: consts::BTRFS_ROOT_TREE_DIR_OBJECTID,
        max_objectid: consts::BTRFS_ROOT_TREE_DIR_OBJECTID,
        min_type: consts::BTRFS_DIR_ITEM_KEY,
        max_type: consts::BTRFS_DIR_ITEM_KEY,
        ..spec_default_key()
    }
}

/// Looks for the default subvolume among the entries of the root tree directory.
///
/// The caller runs the tree search whose key [`DefaultSubvolSearch::search_key`] gives and
/// hands its results to [`DefaultSubvolSearch::feed`], until it gives the subvolume id.
pub struct DefaultSubvolSearch {
    key: SearchKey,
}

impl View for DefaultSubvolSearch {
    type V = SearchKey;

    closed spec fn view(&self) -> SearchKey {
        self.key
    }
}

impl DefaultSubvolSearch {
    /// A search that starts at the first entry of the root tree directory.
    pub fn new() -> (r: DefaultSubvolSearch)
        ensures
            r@ == spec_default_subvol_key(),
    {
        let b = SearchBuilder::new(()).tree(TreeId::RootTree).item_limit(u32::MAX).objectid(
            KeyBound::Unbounded,
            KeyBound::Included(consts::BTRFS_ROOT_TREE_DIR_OBJECTID),
        ).item_type(KeyBound::Unbounded, KeyBound::Included(consts::BTRFS_DIR_ITEM_KEY));
        DefaultSubvolSearch { key: b.get_key() }
    }

    /// The key of the tree search to run next.
    pub fn search_key(&self) -> (r: SearchKey)
        ensures
            r == self@,
    {
        self.key
    }

    /// Takes the results of one tree search: gives the default subvolume when an entry named
    /// `default` is among them, else moves the search past the last entry. A search that found
    /// nothing means that there is no such entry, as does a last entry at the largest offset.
    pub fn feed(&mut self, results: SearchResults) -> (r: IoResult<Option<u64>>)
        ensures
            results@.remaining == 0 ==> r == Err::<Option<u64>, Error>(
                Error::Kind(ErrorKind::NotFound),
            ) && final(self)@ == old(self)@,
            results@.remaining > 0 ==> match spec_default_entry(results@.items()) {
                Some(id) => r == Ok::<Option<u64>, Error>(Some(id)) && final(self)@ == old(self)@,
                None => match spec_last_key(results@.items(), None) {
                    None => r == Err::<Option<u64>, Error>(Error::Kind(ErrorKind::InvalidData))
                        && final(self)@ == old(self)@,
                    Some(k) => if k.2 == u64::MAX {
                        r == Err::<Option<u64>, Error>(Error::Kind(ErrorKind::NotFound))
                            && final(self)@ == old(self)@
                    } else {
                        r == Ok::<Option<u64>, Error>(None) && final(self)@ == spec_key_after(
                            old(self)@,
                            Some((k.0, k.1, (k.2 + 1) as u64)),
                        )
                    },
                },
            },
    {
        if results.len() == 0 {
            return Err(Error::Kind(ErrorKind::NotFound));
        }
        let ghost all = results@.items();
        let mut walk = results;
        let mut last: Option<QueryKey> = None;
        loop
            invariant
                results@.remaining > 0,
                all == results@.items(),
                *self == *old(self),
                spec_default_entry(all) == spec_default_entry(walk@.items()),
                spec_last_key(all, None) == spec_last_key(walk@.items(), last),
            decreases walk@.items().len(),
        {
            let ghost before = walk@.items();
            match walk.next() {
                None => {
                    return match last {
                        None => Err(Error::Kind(ErrorKind::InvalidData)),
                        Some(k) => {
                            if k.2 == u64::MAX {
                                Err(Error::Kind(ErrorKind::NotFound))
                            } else {
                                self.key = key_after(self.key, Some((k.0, k.1, k.2 + 1)));
                                Ok(None)
                            }
                        },
                    };
                },
                Some(item) => {
                    assert(before[0] == item@);
                    assert(before.drop_first() =~= walk@.items());
                    proof {
                        if before.len() > 1 {
                            assert(before.last() == walk@.items().last());
                        }
                    }
                    let found = if item.ty() == consts::BTRFS_DIR_ITEM_KEY {
                        DirItem::from_bytes(item.data())
                    } else {
                        None
                    };
                    if let Some(di) = found {
                        if let Ok(n) = di.name_bytes() {
                            if is_default_name(n) {
                                let loc = di.location();
                                proof {
                                    lemma_le_subrange(di@, 0, 17, 0);
                                }
                                return Ok(Some(loc.objectid()));
                            }
                        }
                    }
                    last = Some(item.key());
                },
            }
        }
    }
}

/// The key of the search for the root back reference of the subvolume `treeid`.
pub open spec fn spec_path_key(treeid: u64) -> SearchKey {
    SearchKey {
        tree_id: consts::BTRFS_ROOT_TREE_OBJECTID,
        nr_items: 1,
        min_objectid: treeid,
        max_objectid: treeid,
        min_type: consts::BTRFS_ROOT_BACKREF_KEY,
        max_type: consts::BTRFS_ROOT_BACKREF_KEY,
        ..spec_default_key()
    }
}

/// One step up the tree of subvolumes: the name of a subvolume, the directory that holds it,
/// and the subvolume that holds that directory.
pub struct PathStep {
    pub name: Vec<u8>,
    pub dirid: u64,
    pub parent: u64,
}

/// Progress of the search for the path of a subvolume: the key of the next search, and the
/// part of the path found so far.
pub struct PathSearchView {
    pub key: SearchKey,
    pub path: Seq<u8>,
}

/// Builds the path of a subvolume from the top level subvolume, one parent at a time.
///
/// The caller runs the tree search whose key [`PathSearch::search_key`] gives and hands its
/// results to [`PathSearch::step`]; it then looks up the path of the step's directory within the
/// step's parent and hands it to [`PathSearch::join`], until that gives the path.
pub struct PathSearch {
    key: SearchKey,
    path: Vec<u8>,
}

impl View for PathSearch {
    type V = PathSearchView;

    closed spec fn view(&self) -> PathSearchView {
        PathSearchView { key: self.key, path: self.path@ }
    }
}

impl PathSearch {
    /// A search for the path of the subvolume `treeid`.
    pub fn new(treeid: u64) -> (r: PathSearch)
        ensures
            r@.key == spec_path_key(treeid),
            r@.path == Seq::<u8>::empty(),
    {
        let b = SearchBuilder::new(()).tree(TreeId::RootTree).item_limit(1).objectid(
            KeyBound::Unbounded,
            KeyBound::Included(treeid),
        ).item_type(KeyBound::Unbounded, KeyBound::Included(consts::BTRFS_ROOT_BACKREF_KEY));
        PathSearch { key: b.get_key(), path: Vec::new() }
    }

    /// The key of the tree search to run next.
    pub fn search_key(&self) -> (r: SearchKey)
        ensures
            r == self@.key,
    {
        self.key
    }

    /// Takes the results of one tree search: the root back reference that it found gives the
    /// next step, and the next search looks for the back reference of its parent.
    pub fn step(&mut self, results: SearchResults) -> (r: IoResult<PathStep>)
        ensures
            results@.items().len() == 0 ==> r == Err::<PathStep, Error>(
                Error::Kind(ErrorKind::NotFound),
            ) && final(self)@ == old(self)@,
            results@.items().len() > 0 ==> {
                let it = results@.items()[0];
                let data = spec_item_data(it);
                let parent = le64(it, 16);
                &&& final(self)@.path == old(self)@.path
                &&& final(self)@.key == spec_key_after(
                    old(self)@.key,
                    Some((parent, consts::BTRFS_ROOT_BACKREF_KEY, 0u64)),
                )
                &&& data.len() < 18 ==> r == Err::<PathStep, Error>(
                    Error::Kind(ErrorKind::InvalidData),
                )
                &&& data.len() >= 18 ==> match spec_item_name(data, 16, 18) {
                    Some(n) => r matches Ok(s) && s.name@ == n && s.dirid == le64(data, 0)
                        && s.parent == parent,
                    None => r == Err::<PathStep, Error>(Error::Kind(ErrorKind::InvalidData)),
                }
            },
    {
        let mut walk = results;
        let ghost all = walk@.items();
        let item = match walk.next() {
            None => return Err(Error::Kind(ErrorKind::NotFound)),
            Some(item) => item,
        };
        assert(all[0] == item@);
        let parent = item.offset();
        self.key = key_after(self.key, Some((parent, consts::BTRFS_ROOT_BACKREF_KEY, 0)));
        let backref = match RootBackref::from_bytes(item.data()) {
            None => return Err(Error::Kind(ErrorKind::InvalidData)),
            Some(b) => b,
        };
        let name = backref.name_bytes()?;
        let mut owned: Vec<u8> = Vec::new();
        append_bytes(&mut owned, name);
        assert(owned@ =~= name@);
        Ok(PathStep { name: owned, dirid: backref.dirid(), parent })
    }

    /// Puts the lookup path of the step's directory and the step's name in front of the path
    /// found so far. When the step's parent is the top level subvolume, this is the whole path;
    /// otherwise a separator goes in front and the search goes on.
    pub fn join(&mut self, step: PathStep, lookup: &[u8]) -> (r: Option<Vec<u8>>)
        ensures
            final(self)@.key == old(self)@.key,
            step.parent == consts::BTRFS_FS_TREE_OBJECTID ==> (r matches Some(p) && p@ == lookup@
                + step.name@ + old(self)@.path) && final(self)@.path == old(self)@.path,
            step.parent != consts::BTRFS_FS_TREE_OBJECTID ==> r is None && final(self)@.path
                == seq![47u8] + lookup@ + step.name@ + old(self)@.path,
    {
        let rootvol = step.parent == consts::BTRFS_FS_TREE_OBJECTID;
        let mut p: Vec<u8> = Vec::new();
        if !rootvol {
            p.push(47);
        }
        append_bytes(&mut p, lookup);
        append_bytes(&mut p, step.name.as_slice());
        append_bytes(&mut p, self.path.as_slice());
        if rootvol {
            assert(p@ =~= lookup@ + step.name@ + self.path@);
            Some(p)
        } else {
            assert(p@ =~= seq![47u8] + lookup@ + step.name@ + self.path@);
            self.path = p;
            None
        }
    }
}

} // verus!
