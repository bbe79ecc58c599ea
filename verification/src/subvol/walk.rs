//! Walking the subvolumes below a subvolume.
//!
//! A walk keeps the subvolumes still to be returned on a stack. The caller pops one, runs the
//! searches or ioctls that list the subvolumes it references, builds an entry for each with the
//! functions of this module, and pushes them back in the order that the walk's flags ask for.
use super::info::{spec_item_data, spec_root_item_info, subvol_info_args_from_root_item, SubvolInfo, SubvolInfoView, SUBVOL_NAME_BUF_LEN};
use crate::bytes::le64;
use crate::consts;
use crate::error::{Error, ErrorKind, IoResult};
use crate::flags::Flags;
use crate::tree_search::tree_item::{spec_item_name, RootItem, RootRef, TreeItemName};
use crate::tree_search::{SearchItem, SearchResults};
use crate::util::{utf8_lossy, utf8_lossy_result};
use vstd::prelude::*;
use vstd::string::StringExecFns;

verus! {

/// `parent`, a separator, `lookup` and `name`, one after the other.
pub open spec fn spec_join_path(parent: Seq<char>, lookup: Seq<char>, name: Seq<char>) -> Seq<
    char,
> {
    parent + seq!['/'] + lookup + name
}

/// `parent`, a separator, `lookup` and `name`, one after the other.
pub fn join_path(parent: &str, lookup: &str, name: &str) -> (r: String)
    ensures
        r@ == spec_join_path(parent@, lookup@, name@),
{
    let mut s = String::new();
    s.append(parent);
    let sep = "/";
    proof {
        reveal_strlit("/");
    }
    s.append(sep);
    s.append(lookup);
    s.append(name);
    s
}

/// A subvolume that references a root subvolume: its id and the directory it is rooted in.
#[derive(Debug, Clone, Copy, PartialEq, Eq, Structural)]
pub struct SubvolRootRef {
    pub treeid: u64,
    pub dirid: u64,
}

impl SubvolRootRef {
    /// Subvolume ID
    pub fn treeid(&self) -> (r: u64)
        ensures
            r == self.treeid,
    {
        self.treeid
    }

    /// Inode of directory where this subvolume is rooted
    pub fn dirid(&self) -> (r: u64)
        ensures
            r == self.dirid,
    {
        self.dirid
    }
}

/// The root references that a root reference ioctl returned: the first `num_items` of
/// `rootref`, or all of them when it holds fewer.
pub fn returned_rootrefs(rootref: &Vec<SubvolRootRef>, num_items: u8) -> (r: Vec<SubvolRootRef>)
    ensures
        r@ == rootref@.take(if (num_items as int) < rootref@.len() {
            num_items as int
        } else {
            rootref@.len() as int
        }),
{
    let n: usize = if (num_items as usize) < rootref.len() {
        num_items as usize
    } else {
        rootref.len()
    };
    let mut r: Vec<SubvolRootRef> = Vec::new();
    let mut i: usize = 0;
    while i < n
        invariant
            n <= rootref@.len(),
            i <= n,
            r@ == rootref@.take(i as int),
        decreases n - i,
    {
        r.push(rootref[i]);
        i = i + 1;
        assert(r@ =~= rootref@.take(i as int));
    }
    r
}

/// The fields of a [`SubvolEntry`].
pub struct SubvolEntryView {
    pub treeid: u64,
    pub name: Seq<char>,
    pub parent_id: u64,
    pub dirid: u64,
    pub path: Option<Seq<char>>,
    pub info: Option<SubvolInfoView>,
}

/// A subvolume found by a walk.
pub struct SubvolEntry {
    treeid: u64,
    name: String,
    parent_id: u64,
    dirid: u64,
    path: Option<String>,
    info: Option<SubvolInfo>,
}

impl View for SubvolEntry {
    type V = SubvolEntryView;

    closed spec fn view(&self) -> SubvolEntryView {
        SubvolEntryView {
            treeid: self.treeid,
            name: self.name@,
            parent_id: self.parent_id,
            dirid: self.dirid,
            path: match self.path {
                Some(p) => Some(p@),
                None => None,
            },
            info: match self.info {
                Some(i) => Some(i@),
                None => None,
            },
        }
    }
}

/// Information about a subvolume that is not read yet: the id, parent, directory and name are
/// set, the name when it fits, and every other field is zero.
pub open spec fn spec_start_info(treeid: u64, parent_id: u64, dirid: u64, name: Seq<u8>) -> SubvolInfoView {
    let z = SubvolInfo::zeroed_view();
    SubvolInfoView {
        treeid,
        parent_id,
        dirid,
        name: if name.len() < SUBVOL_NAME_BUF_LEN {
            name + z.name.subrange(name.len() as int, SUBVOL_NAME_BUF_LEN as int)
        } else {
            z.name
        },
        ..z
    }
}

/// Information about a subvolume that is not read yet; see [`spec_start_info`].
pub fn start_info(treeid: u64, parent_id: u64, dirid: u64, name: &[u8]) -> (r: SubvolInfo)
    ensures
        r@ == spec_start_info(treeid, parent_id, dirid, name@),
{
    let mut info = SubvolInfo::zeroed();
    info.treeid = treeid;
    info.parent_id = parent_id;
    info.dirid = dirid;
    if name.len() < SUBVOL_NAME_BUF_LEN {
        let mut i: usize = 0;
        while i < name.len()
            invariant
                name@.len() < SUBVOL_NAME_BUF_LEN,
                info.name@.len() == SUBVOL_NAME_BUF_LEN,
                i <= name@.len(),
                forall|k: int| 0 <= k < i ==> info.name@[k] == name@[k],
                forall|k: int| i <= k < SUBVOL_NAME_BUF_LEN ==> info.name@[k] == 0u8,
                info.treeid == treeid && info.parent_id == parent_id && info.dirid == dirid,
                info@ == (SubvolInfoView { name: info.name@, treeid, parent_id, dirid, ..SubvolInfo::zeroed_view() }),
            decreases name@.len() - i,
        {
            info.name.set(i, name[i]);
            i = i + 1;
        }
    }
    assert(info@.name =~= spec_start_info(treeid, parent_id, dirid, name@).name);
    info
}

impl SubvolEntry {
    /// An entry with the given fields.
    pub fn new(
        treeid: u64,
        name: String,
        parent_id: u64,
        dirid: u64,
        path: Option<String>,
        info: Option<SubvolInfo>,
    ) -> (r: SubvolEntry)
        ensures
            r@.treeid == treeid && r@.name == name@ && r@.parent_id == parent_id && r@.dirid
                == dirid,
            r@.path == (match path {
                Some(p) => Some(p@),
                None => None::<Seq<char>>,
            }),
            r@.info == (match info {
                Some(i) => Some(i@),
                None => None::<SubvolInfoView>,
            }),
    {
        SubvolEntry { treeid, name, parent_id, dirid, path, info }
    }

    /// Id of this subvolume
    pub fn treeid(&self) -> (r: u64)
        ensures
            r == self@.treeid,
    {
        self.treeid
    }

    /// Name for this subvolume
    pub fn name(&self) -> (r: &str)
        ensures
            r@ == self@.name,
    {
        self.name.as_str()
    }

    /// Id of the subvolume which contains this subvolume
    pub fn parent_id(&self) -> (r: u64)
        ensures
            r == self@.parent_id,
    {
        self.parent_id
    }

    /// Inode of the directory containing this subvolume
    pub fn dirid(&self) -> (r: u64)
        ensures
            r == self@.dirid,
    {
        self.dirid
    }

    /// Whether the walk that found this entry was asked for paths.
    pub fn has_path(&self) -> (r: bool)
        ensures
            r == self@.path is Some,
    {
        self.path.is_some()
    }

    /// Path for this subvolume relative to the top of the walk; the walk must have been asked
    /// for paths.
    pub fn path(&self) -> (r: &str)
        requires
            self@.path is Some,
        ensures
            r@ == self@.path->0,
    {
        self.path.as_ref().unwrap().as_str()
    }

    /// Whether the walk that found this entry was asked for information.
    pub fn has_info(&self) -> (r: bool)
        ensures
            r == self@.info is Some,
    {
        self.info.is_some()
    }

    /// [`SubvolInfo`] for this subvolume; the walk must have been asked for information.
    pub fn info(&self) -> (r: &SubvolInfo)
        requires
            self@.info is Some,
        ensures
            r@ == self@.info->0,
    {
        self.info.as_ref().unwrap()
    }

    /// Drops the path, for a walk that was not asked for paths.
    pub fn clear_path(&mut self)
        ensures
            final(self)@ == (SubvolEntryView { path: None, ..old(self)@ }),
    {
        self.path = None;
    }

    /// Sets the information, which the caller read.
    pub fn set_info(&mut self, info: SubvolInfo)
        ensures
            final(self)@ == (SubvolEntryView { info: Some(info@), ..old(self)@ }),
    {
        self.info = Some(info);
    }

    /// Completes the information from the results of the search for the root item of this
    /// subvolume: the first item found is that root item. Without information nothing is done.
    pub fn finish_info(&mut self, results: SearchResults) -> (r: IoResult<()>)
        ensures
            old(self)@.info is None ==> r is Ok && final(self)@ == old(self)@,
            old(self)@.info is Some ==> {
                let info = old(self)@.info->0;
                if results@.items().len() == 0 {
                    r == Err::<(), Error>(Error::Kind(ErrorKind::NotFound)) && final(self)@
                        == old(self)@
                } else if spec_item_data(results@.items()[0]).len() < 439 {
                    r == Err::<(), Error>(Error::Kind(ErrorKind::InvalidData)) && final(self)@
                        == old(self)@
                } else {
                    r is Ok && final(self)@ == (SubvolEntryView {
                        info: Some(spec_root_item_info(info, spec_item_data(results@.items()[0]))),
                        ..old(self)@
                    })
                }
            },
    {
        if self.info.is_none() {
            return Ok(());
        }
        let mut walk = results;
        let ghost all = walk@.items();
        let item = match walk.next() {
            None => return Err(Error::Kind(ErrorKind::NotFound)),
            Some(item) => item,
        };
        assert(all[0] == item@);
        let ri = match RootItem::from_bytes(item.data()) {
            None => return Err(Error::Kind(ErrorKind::InvalidData)),
            Some(ri) => ri,
        };
        let mut info = match self.info.take() {
            Some(i) => i,
            None => return Ok(()),
        };
        subvol_info_args_from_root_item(&ri, &mut info);
        self.info = Some(info);
        Ok(())
    }
}

/// The id, directory and name of the subvolume that a root reference item, found among the
/// references of a subvolume, points at.
pub open spec fn spec_root_ref_item(item: Seq<u8>) -> Option<(SubvolRootRef, Seq<u8>)> {
    let data = spec_item_data(item);
    if data.len() < 18 {
        None
    } else {
        match spec_item_name(data, 16, 18) {
            Some(n) => Some((SubvolRootRef { treeid: le64(item, 16), dirid: le64(data, 0) }, n)),
            None => None,
        }
    }
}

/// The subvolume that a root reference item points at, with its name; fails with `InvalidData`
/// when the item is too short or its name is not valid.
pub fn root_ref_of_item(item: &SearchItem) -> (r: IoResult<(SubvolRootRef, String)>)
    ensures
        match spec_root_ref_item(item@) {
            Some((rr, n)) => r matches Ok((a, s)) && a == rr && s@ == utf8_lossy_result(n),
            None => r == Err::<(SubvolRootRef, String), Error>(Error::Kind(ErrorKind::InvalidData)),
        },
{
    let rref = match RootRef::from_bytes(item.data()) {
        None => return Err(Error::Kind(ErrorKind::InvalidData)),
        Some(r) => r,
    };
    let name = rref.name_str()?;
    Ok((SubvolRootRef { treeid: item.offset(), dirid: rref.dirid() }, name))
}

/// Entry for a subvolume referenced by the top of a walk as root `top`: its path, when paths
/// are wanted, is its name.
pub fn top_entry(top: u64, rref: SubvolRootRef, name: String, flags: Flags) -> (r: SubvolEntry)
    ensures
        r@.treeid == rref.treeid && r@.parent_id == top && r@.dirid == rref.dirid && r@.name
            == name@,
        r@.path == if flags@ & Flags::GET_PATH == Flags::GET_PATH {
            Some(name@)
        } else {
            None::<Seq<char>>
        },
        r@.info == if flags@ & Flags::GET_INFO == Flags::GET_INFO {
            Some(spec_start_info(rref.treeid, top, rref.dirid, vstd::utf8::encode_utf8(name@)))
        } else {
            None::<SubvolInfoView>
        },
{
    let path = if flags.contains(Flags::GET_PATH) {
        Some(name.clone())
    } else {
        None
    };
    let info = if flags.contains(Flags::GET_INFO) {
        Some(start_info(rref.treeid, top, rref.dirid, name.as_str().as_bytes()))
    } else {
        None
    };
    SubvolEntry { treeid: rref.treeid, name, parent_id: top, dirid: rref.dirid, path, info }
}

/// Entry for a subvolume referenced by `parent`: its path, when the parent has one, is the
/// parent's path, a separator, the lookup path `lookup` of its directory within the parent, and
/// its name.
pub fn child_entry(
    parent: &SubvolEntry,
    rref: SubvolRootRef,
    lookup: &str,
    name: String,
    flags: Flags,
) -> (r: SubvolEntry)
    ensures
        r@.treeid == rref.treeid && r@.parent_id == parent@.treeid && r@.dirid == rref.dirid
            && r@.name == name@,
        r@.path == match parent@.path {
            Some(p) => Some(spec_join_path(p, lookup@, name@)),
            None => None::<Seq<char>>,
        },
        r@.info == if flags@ & Flags::GET_INFO == Flags::GET_INFO {
            Some(
                spec_start_info(
                    rref.treeid,
                    parent@.treeid,
                    rref.dirid,
                    vstd::utf8::encode_utf8(name@),
                ),
            )
        } else {
            None::<SubvolInfoView>
        },
{
    let path = match &parent.path {
        Some(p) => Some(join_path(p.as_str(), lookup, name.as_str())),
        None => None,
    };
    let info = if flags.contains(Flags::GET_INFO) {
        Some(start_info(rref.treeid, parent.treeid, rref.dirid, name.as_str().as_bytes()))
    } else {
        None
    };
    SubvolEntry {
        treeid: rref.treeid,
        name,
        parent_id: parent.treeid,
        dirid: rref.dirid,
        path,
        info,
    }
}

/// Entry for a subvolume found by an unprivileged walk below the subvolume `parent_id`: its
/// path is the lookup path `lookup` of its directory followed by its name.
pub fn user_top_entry(parent_id: u64, rref: SubvolRootRef, lookup: &str, name: &str) -> (r:
    SubvolEntry)
    ensures
        r@.treeid == rref.treeid && r@.parent_id == parent_id && r@.dirid == rref.dirid && r@.name
            == name@,
        r@.path == Some(lookup@ + name@),
        r@.info is None,
{
    let mut path = String::new();
    path.append(lookup);
    path.append(name);
    assert(path@ =~= lookup@ + name@);
    SubvolEntry {
        treeid: rref.treeid,
        name: name.to_owned(),
        parent_id,
        dirid: rref.dirid,
        path: Some(path),
        info: None,
    }
}

/// Entry for a subvolume found by an unprivileged walk below the subvolume `parent`, whose
/// path must be known: its path is the parent's path, a separator, the lookup path `lookup` of
/// its directory and its name.
pub fn user_child_entry(parent: &SubvolEntry, rref: SubvolRootRef, lookup: &str, name: &str) -> (r:
    SubvolEntry)
    requires
        parent@.path is Some,
    ensures
        r@.treeid == rref.treeid && r@.parent_id == parent@.treeid && r@.dirid == rref.dirid
            && r@.name == name@,
        r@.path == Some(spec_join_path(parent@.path->0, lookup@, name@)),
        r@.info is None,
{
    let path = match &parent.path {
        Some(p) => join_path(p.as_str(), lookup, name),
        None => String::new(),
    };
    SubvolEntry {
        treeid: rref.treeid,
        name: name.to_owned(),
        parent_id: parent.treeid,
        dirid: rref.dirid,
        path: Some(path),
        info: None,
    }
}

/// Whether an unprivileged walk passes over a subvolume whose lookup failed with `e`: the lookup
/// is refused with `EACCES` when the subvolume is not below the directory that the walk started
/// from, which happens when that directory is not a subvolume root.
pub fn skips_lookup_error(e: &Error) -> (r: bool)
    ensures
        r == (*e == Error::Os(consts::EACCES)),
{
    match e {
        Error::Os(code) => *code == consts::EACCES,
        _ => false,
    }
}

/// The order in which the subvolumes that one subvolume references go on the stack of a walk:
/// the stack is popped from its end, so they come out in the order found, or in the reverse
/// order when `descending`.
pub open spec fn spec_push_order<T>(found: Seq<T>, descending: bool) -> Seq<T> {
    if descending {
        found
    } else {
        found.reverse()
    }
}

/// The subvolumes still to be returned by a walk, and the walk's flags.
pub struct WalkView {
    pub stack: Seq<SubvolEntryView>,
    pub flags: u64,
}

/// The stack of a walk over subvolumes.
pub struct Walk {
    stack: Vec<SubvolEntry>,
    flags: Flags,
}

/// The views of `entries`.
pub open spec fn spec_entry_views(entries: Seq<SubvolEntry>) -> Seq<SubvolEntryView> {
    entries.map_values(|e: SubvolEntry| e@)
}

impl View for Walk {
    type V = WalkView;

    closed spec fn view(&self) -> WalkView {
        WalkView { stack: spec_entry_views(self.stack@), flags: self.flags@ }
    }
}

impl Walk {
    /// A walk with nothing on its stack.
    pub fn new(flags: Flags) -> (r: Walk)
        ensures
            r@.stack == Seq::<SubvolEntryView>::empty(),
            r@.flags == flags@,
    {
        let w = Walk { stack: Vec::new(), flags };
        assert(w@.stack =~= Seq::<SubvolEntryView>::empty());
        w
    }

    /// The flags of the walk.
    pub fn flags(&self) -> (r: Flags)
        ensures
            r@ == self@.flags,
    {
        self.flags
    }

    /// Pushes the subvolumes that one subvolume references, in the order found, so that they
    /// come out in ascending order, or in descending order with [`Flags::DESCENDING`].
    pub fn push_found(&mut self, found: Vec<SubvolEntry>)
        ensures
            final(self)@.flags == old(self)@.flags,
            final(self)@.stack == old(self)@.stack + spec_push_order(
                spec_entry_views(found@),
                old(self)@.flags & Flags::DESCENDING == Flags::DESCENDING,
            ),
    {
        let descending = self.flags.contains(Flags::DESCENDING);
        let ghost start = self.stack@;
        let mut found = found;
        let ghost all = found@;
        if descending {
            let mut rest: Vec<SubvolEntry> = Vec::new();
            while found.len() > 0
                invariant
                    found@ + rest@.reverse() == all,
                decreases found@.len(),
            {
                let e = found.pop().unwrap();
                rest.push(e);
                assert(found@ + rest@.reverse() =~= all);
            }
            while rest.len() > 0
                invariant
                    self.flags == old(self).flags,
                    self.stack@ + rest@.reverse() == start + all,
                decreases rest@.len(),
            {
                let e = rest.pop().unwrap();
                self.stack.push(e);
                assert(self.stack@ + rest@.reverse() =~= start + all);
            }
            assert(self.stack@ =~= start + all);
        } else {
            while found.len() > 0
                invariant
                    self.flags == old(self).flags,
                    found@ == all.subrange(0, found@.len() as int),
                    found@.len() <= all.len(),
                    self.stack@ == start + all.subrange(found@.len() as int, all.len() as int).reverse(),
                decreases found@.len(),
            {
                let e = found.pop().unwrap();
                self.stack.push(e);
                assert(self.stack@ =~= start + all.subrange(found@.len() as int, all.len() as int).reverse());
            }
            assert(self.stack@ =~= start + all.reverse());
        }
        assert(spec_entry_views(self.stack@) =~= spec_entry_views(start) + spec_push_order(
            spec_entry_views(all),
            descending,
        ));
    }

    /// Takes the next subvolume to return: the last one on the stack.
    pub fn pop(&mut self) -> (r: Option<SubvolEntry>)
        ensures
            final(self)@.flags == old(self)@.flags,
            old(self)@.stack.len() == 0 ==> r is None && final(self)@ == old(self)@,
            old(self)@.stack.len() > 0 ==> (r matches Some(e) && e@ == old(self)@.stack.last())
                && final(self)@.stack == old(self)@.stack.drop_last(),
    {
        let r = self.stack.pop();
        proof {
            if old(self)@.stack.len() > 0 {
                assert(spec_entry_views(self.stack@) =~= old(self)@.stack.drop_last());
            }
        }
        r
    }
}


/// Popping the stack of a walk after [`Walk::push_found`] gives the subvolumes found in the
/// order that the search found them, or in the reverse order for a descending walk: the `k`-th
/// popped is `found[k]`, or `found[found.len() - 1 - k]`.
pub proof fn lemma_pop_order<T>(stack: Seq<T>, found: Seq<T>, descending: bool, k: int)
    requires
        0 <= k < found.len(),
    ensures
        ({
            let s = stack + spec_push_order(found, descending);
            s[s.len() - 1 - k] == if descending {
                found[found.len() - 1 - k]
            } else {
                found[k]
            }
        }),
{
}

} // verus!
