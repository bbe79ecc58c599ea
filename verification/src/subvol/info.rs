//! Information about a btrfs subvolume root.
use crate::bytes::{le32, le64, Uuid};
use crate::consts;
use crate::error::{Error, ErrorKind, IoResult};
use crate::tree_search::builder::seal::SearchKeyBuilderExt;
use crate::tree_search::builder::{spec_default_key, SearchKey};
use crate::tree_search::builder::{KeyBound, SearchBuilder, SearchKeyBuilder};
use crate::tree_search::tree_item::{spec_item_name, RootItem, RootRef, Timespec as ItemTimespec, TreeItem, TreeItemName};
use crate::tree_search::{SearchItem, SearchResults, TreeId, SEARCH_HEADER_LEN};
use crate::util::{utf8_lossy, utf8_lossy_result, KernelStr};
use vstd::prelude::*;

verus! {

/// Describes time in seonds and nanoseconds
#[derive(Debug, Clone, Copy, PartialEq, Eq, Structural)]
pub struct Timespec {
    pub sec: u64,
    pub nsec: u32,
}

impl Timespec {
    /// Seconds
    pub fn sec(&self) -> (r: u64)
        ensures
            r == self.sec,
    {
        self.sec
    }

    /// Nanoseconds
    pub fn nsec(&self) -> (r: u32)
        ensures
            r == self.nsec,
    {
        self.nsec
    }

    /// The time stored in an on-disk timespec.
    pub fn from_item(t: &ItemTimespec) -> (r: Timespec)
        ensures
            r.sec == le64(t@, 0),
            r.nsec == le32(t@, 8),
    {
        Timespec { sec: t.sec(), nsec: t.nsec() }
    }
}

impl<'a> From<ItemTimespec<'a>> for Timespec {
    fn from(t: ItemTimespec<'a>) -> (r: Timespec) {
        Timespec::from_item(&t)
    }
}

impl<'a> vstd::std_specs::convert::FromSpecImpl<ItemTimespec<'a>> for Timespec {
    open spec fn obeys_from_spec() -> bool {
        true
    }

    open spec fn from_spec(t: ItemTimespec<'a>) -> Timespec {
        Timespec { sec: le64(t@, 0), nsec: le32(t@, 8) }
    }
}

/// Length of the name buffer of the subvolume info ioctl.
pub const SUBVOL_NAME_BUF_LEN: usize = 256;

/// Information about a btrfs subvolume root
///
/// This structure is what the subvolume info ioctl fills and represents information about a
/// btrfs subvolume root.
#[derive(Debug, Clone)]
pub struct SubvolInfo {
    pub treeid: u64,
    /// Zero terminated name of the subvolume, in a buffer of `SUBVOL_NAME_BUF_LEN` bytes.
    pub name: Vec<u8>,
    pub parent_id: u64,
    pub dirid: u64,
    pub generation: u64,
    pub flags: u64,
    pub uuid: Uuid,
    pub parent_uuid: Uuid,
    pub received_uuid: Uuid,
    pub ctransid: u64,
    pub otransid: u64,
    pub stransid: u64,
    pub rtransid: u64,
    pub ctime: Timespec,
    pub otime: Timespec,
    pub stime: Timespec,
    pub rtime: Timespec,
}

/// The fields of a [`SubvolInfo`], with the name and the UUIDs as byte sequences.
pub struct SubvolInfoView {
    pub treeid: u64,
    pub name: Seq<u8>,
    pub parent_id: u64,
    pub dirid: u64,
    pub generation: u64,
    pub flags: u64,
    pub uuid: Seq<u8>,
    pub parent_uuid: Seq<u8>,
    pub received_uuid: Seq<u8>,
    pub ctransid: u64,
    pub otransid: u64,
    pub stransid: u64,
    pub rtransid: u64,
    pub ctime: Timespec,
    pub otime: Timespec,
    pub stime: Timespec,
    pub rtime: Timespec,
}

impl View for SubvolInfo {
    type V = SubvolInfoView;

    open spec fn view(&self) -> SubvolInfoView {
        SubvolInfoView {
            treeid: self.treeid,
            name: self.name@,
            parent_id: self.parent_id,
            dirid: self.dirid,
            generation: self.generation,
            flags: self.flags,
            uuid: self.uuid@,
            parent_uuid: self.parent_uuid@,
            received_uuid: self.received_uuid@,
            ctransid: self.ctransid,
            otransid: self.otransid,
            stransid: self.stransid,
            rtransid: self.rtransid,
            ctime: self.ctime,
            otime: self.otime,
            stime: self.stime,
            rtime: self.rtime,
        }
    }
}

/// The bytes of `name` before its first zero byte, or all of them when it holds none.
pub open spec fn spec_c_name(name: Seq<u8>) -> Seq<u8> {
    if exists|i: int| 0 <= i < name.len() && name[i] == 0 {
        name.subrange(0, choose|i: int| 0 <= i < name.len() && name[i] == 0 && forall|j: int| 0 <= j < i ==> name[j] != 0)
    } else {
        name
    }
}

/// Whether `name` is `n` bytes without zero, followed by a zero byte.
pub open spec fn spec_c_name_at(name: Seq<u8>, n: int) -> bool {
    &&& 0 <= n < name.len()
    &&& name[n] == 0
    &&& forall|j: int| 0 <= j < n ==> name[j] != 0
}

proof fn lemma_c_name(name: Seq<u8>, n: int)
    requires
        spec_c_name_at(name, n),
    ensures
        spec_c_name(name) == name.subrange(0, n),
{
    let k = choose|i: int| 0 <= i < name.len() && name[i] == 0 && forall|j: int| 0 <= j < i ==> name[j] != 0;
    assert(0 <= k < name.len() && name[k] == 0 && forall|j: int| 0 <= j < k ==> name[j] != 0);
    if k < n {
        assert(name[k] != 0);
    } else if k > n {
        assert(name[n] != 0);
    }
}

/// The bytes of `name` before its first zero byte, or all of them when it holds none.
pub fn c_name(name: &[u8]) -> (r: &[u8])
    ensures
        r@ == spec_c_name(name@),
{
    let mut i: usize = 0;
    while i < name.len()
        invariant
            i <= name@.len(),
            forall|j: int| 0 <= j < i ==> name@[j] != 0,
        decreases name@.len() - i,
    {
        if name[i] == 0 {
            proof {
                lemma_c_name(name@, i as int);
            }
            return vstd::slice::slice_subrange(name, 0, i);
        }
        i = i + 1;
    }
    name
}

impl SubvolInfo {
    /// Subvolume information with every field zero.
    pub open spec fn zeroed_view() -> SubvolInfoView {
        SubvolInfoView {
            treeid: 0,
            name: Seq::new(SUBVOL_NAME_BUF_LEN as nat, |i: int| 0u8),
            parent_id: 0,
            dirid: 0,
            generation: 0,
            flags: 0,
            uuid: Seq::new(16, |i: int| 0u8),
            parent_uuid: Seq::new(16, |i: int| 0u8),
            received_uuid: Seq::new(16, |i: int| 0u8),
            ctransid: 0,
            otransid: 0,
            stransid: 0,
            rtransid: 0,
            ctime: Timespec { sec: 0, nsec: 0 },
            otime: Timespec { sec: 0, nsec: 0 },
            stime: Timespec { sec: 0, nsec: 0 },
            rtime: Timespec { sec: 0, nsec: 0 },
        }
    }

    /// Subvolume information with every field zero.
    pub fn zeroed() -> (r: SubvolInfo)
        ensures
            r@ == SubvolInfo::zeroed_view(),
    {
        let mut name: Vec<u8> = Vec::new();
        let mut i: usize = 0;
        while i < SUBVOL_NAME_BUF_LEN
            invariant
                i <= SUBVOL_NAME_BUF_LEN,
                name@ =~= Seq::new(i as nat, |j: int| 0u8),
            decreases SUBVOL_NAME_BUF_LEN - i,
        {
            name.push(0);
            i = i + 1;
        }
        let nil = Uuid::from_bytes([0u8; 16]);
        assert(nil@ =~= Seq::new(16, |i: int| 0u8));
        assert(name@ =~= Seq::new(SUBVOL_NAME_BUF_LEN as nat, |i: int| 0u8));
        let t = Timespec { sec: 0, nsec: 0 };
        SubvolInfo {
            treeid: 0,
            name,
            parent_id: 0,
            dirid: 0,
            generation: 0,
            flags: 0,
            uuid: nil,
            parent_uuid: nil,
            received_uuid: nil,
            ctransid: 0,
            otransid: 0,
            stransid: 0,
            rtransid: 0,
            ctime: t,
            otime: t,
            stime: t,
            rtime: t,
        }
    }

    /// Id of this subvolume
    pub fn treeid(&self) -> (r: u64)
        ensures
            r == self.treeid,
    {
        self.treeid
    }

    /// Name of this subvolume
    pub fn name_bytes(&self) -> (r: &[u8])
        ensures
            r@ == spec_c_name(self.name@),
    {
        c_name(self.name.as_slice())
    }

    /// Name of this subvolume, with invalid UTF-8 replaced.
    pub fn name_str(&self) -> (r: KernelStr)
        ensures
            r@ == utf8_lossy_result(spec_c_name(self.name@)),
    {
        utf8_lossy(self.name_bytes())
    }

    /// Id of the subvolume which contains this subvolume
    pub fn parent_id(&self) -> (r: u64)
        ensures
            r == self.parent_id,
    {
        self.parent_id
    }

    /// Inode of the directory which contains this subvolume
    pub fn dirid(&self) -> (r: u64)
        ensures
            r == self.dirid,
    {
        self.dirid
    }

    /// Latest transaction id of this subvolume
    pub fn generation(&self) -> (r: u64)
        ensures
            r == self.generation,
    {
        self.generation
    }

    /// Flags for this subvolume
    pub fn flags(&self) -> (r: u64)
        ensures
            r == self.flags,
    {
        self.flags
    }

    /// Readonly status for this subvolume
    pub fn readonly(&self) -> (r: bool)
        ensures
            r == (self.flags & consts::BTRFS_SUBVOL_RDONLY != 0),
    {
        self.flags & consts::BTRFS_SUBVOL_RDONLY != 0
    }

    /// UUID of this subvolume
    pub fn uuid(&self) -> (r: Uuid)
        ensures
            r == self.uuid,
    {
        self.uuid
    }

    /// UUID of the subvolume of which this subvolume is a snapshot. This will be nil for
    /// non-snapshot subvolumes
    pub fn parent_uuid(&self) -> (r: Uuid)
        ensures
            r == self.parent_uuid,
    {
        self.parent_uuid
    }

    /// UUID of the subvolume from which this subvolume was received. This will be nil for
    /// non-received subvolumes
    pub fn received_uuid(&self) -> (r: Uuid)
        ensures
            r == self.received_uuid,
    {
        self.received_uuid
    }

    /// transaction ID indicating when change happened
    pub fn ctransid(&self) -> (r: u64)
        ensures
            r == self.ctransid,
    {
        self.ctransid
    }

    /// transaction ID indicating when create happened
    pub fn otransid(&self) -> (r: u64)
        ensures
            r == self.otransid,
    {
        self.otransid
    }

    /// transaction ID indicating when send happened
    pub fn stransid(&self) -> (r: u64)
        ensures
            r == self.stransid,
    {
        self.stransid
    }

    /// transaction ID indicating when receive happened
    pub fn rtransid(&self) -> (r: u64)
        ensures
            r == self.rtransid,
    {
        self.rtransid
    }

    /// Time corresponding to ctransid
    pub fn ctime(&self) -> (r: Timespec)
        ensures
            r == self.ctime,
    {
        self.ctime
    }

    /// Time corresponding to otransid
    pub fn otime(&self) -> (r: Timespec)
        ensures
            r == self.otime,
    {
        self.otime
    }

    /// Time corresponding to stransid
    pub fn stime(&self) -> (r: Timespec)
        ensures
            r == self.stime,
    {
        self.stime
    }

    /// Time corresponding to rtransid
    pub fn rtime(&self) -> (r: Timespec)
        ensures
            r == self.rtime,
    {
        self.rtime
    }
}

/// `info` with the fields that the root item `ri` holds taken from it; the id, name, parent and
/// directory are kept.
pub open spec fn spec_root_item_info(info: SubvolInfoView, ri: Seq<u8>) -> SubvolInfoView {
    SubvolInfoView {
        generation: le64(ri, 160),
        flags: le64(ri, 208),
        uuid: ri.subrange(247, 263),
        parent_uuid: ri.subrange(263, 279),
        received_uuid: ri.subrange(279, 295),
        ctransid: le64(ri, 295),
        otransid: le64(ri, 303),
        stransid: le64(ri, 311),
        rtransid: le64(ri, 319),
        ctime: Timespec { sec: le64(ri, 327), nsec: le32(ri, 335) },
        otime: Timespec { sec: le64(ri, 339), nsec: le32(ri, 347) },
        stime: Timespec { sec: le64(ri, 351), nsec: le32(ri, 359) },
        rtime: Timespec { sec: le64(ri, 363), nsec: le32(ri, 371) },
        ..info
    }
}

proof fn lemma_timespec_slice(s: Seq<u8>, at: int)
    requires
        0 <= at,
        at + 12 <= s.len(),
    ensures
        le64(s.subrange(at, at + 12), 0) == le64(s, at),
        le32(s.subrange(at, at + 12), 8) == le32(s, at + 8),
{
    let t = s.subrange(at, at + 12);
    assert(forall|k: int| 0 <= k < 12 ==> t[k] == s[at + k]);
}

/// The information filled from the bytes `ri` of a root item takes each field from that field of
/// the on-disk `btrfs_root_item`, at the offsets that the [`RootItem`] accessors read: the
/// generation (160), the flags (208), the uuid (247..263), the uuid of the subvolume it is a
/// snapshot of (263..279), the uuid it was received as (279..295), the four transaction ids
/// (295, 303, 311, 319) and the four times (327, 339, 351, 363: seconds, then nanoseconds 8 bytes
/// on). The id, the name, the parent and the directory are not in the root item and stay.
pub proof fn lemma_root_item_info_fields(info: SubvolInfoView, ri: Seq<u8>)
    ensures
        ({
            let r = spec_root_item_info(info, ri);
            &&& r.generation == le64(ri, 160)
            &&& r.flags == le64(ri, 208)
            &&& r.uuid == ri.subrange(247, 263)
            &&& r.parent_uuid == ri.subrange(263, 279)
            &&& r.received_uuid == ri.subrange(279, 295)
            &&& r.ctransid == le64(ri, 295)
            &&& r.otransid == le64(ri, 303)
            &&& r.stransid == le64(ri, 311)
            &&& r.rtransid == le64(ri, 319)
            &&& r.ctime.sec == le64(ri, 327) && r.ctime.nsec == le32(ri, 335)
            &&& r.otime.sec == le64(ri, 339) && r.otime.nsec == le32(ri, 347)
            &&& r.stime.sec == le64(ri, 351) && r.stime.nsec == le32(ri, 359)
            &&& r.rtime.sec == le64(ri, 363) && r.rtime.nsec == le32(ri, 371)
            &&& r.treeid == info.treeid && r.name == info.name
            &&& r.parent_id == info.parent_id && r.dirid == info.dirid
        }),
{
}

/// Fill the relevant fields of a [`SubvolInfo`] from a [`RootItem`].
pub fn subvol_info_args_from_root_item(ri: &RootItem, args: &mut SubvolInfo)
    ensures
        final(args)@ == spec_root_item_info(old(args)@, ri@),
{
    args.generation = ri.generation();
    args.flags = ri.flags();
    args.uuid = ri.uuid();
    args.parent_uuid = ri.parent_uuid();
    args.received_uuid = ri.received_uuid();
    args.ctransid = ri.ctransid();
    args.otransid = ri.otransid();
    args.stransid = ri.stransid();
    args.rtransid = ri.rtransid();
    let c = ri.ctime();
    let o = ri.otime();
    let s = ri.stime();
    let t = ri.rtime();
    args.ctime = Timespec::from_item(&c);
    args.otime = Timespec::from_item(&o);
    args.stime = Timespec::from_item(&s);
    args.rtime = Timespec::from_item(&t);
    proof {
        lemma_timespec_slice(ri@, 327);
        lemma_timespec_slice(ri@, 339);
        lemma_timespec_slice(ri@, 351);
        lemma_timespec_slice(ri@, 363);
    }
}

/// Progress of the search for the information about a subvolume given by its id.
pub struct InfoByIdView {
    pub treeid: u64,
    pub info: SubvolInfoView,
    pub got_root_item: bool,
    pub got_root_ref: bool,
}

/// The data of a search item: what follows its header.
pub open spec fn spec_item_data(item: Seq<u8>) -> Seq<u8> {
    item.subrange(SEARCH_HEADER_LEN as int, item.len() as int)
}

/// `name` with `n` written at its start and followed by a zero byte.
pub open spec fn spec_set_c_name(name: Seq<u8>, n: Seq<u8>) -> Seq<u8> {
    n + seq![0u8] + name.subrange(n.len() + 1int, name.len() as int)
}

/// What one found item does to the search: a root item fills the information, a root back
/// reference gives the name, the directory and the parent; other items are passed over.
pub open spec fn spec_info_by_id_item(s: InfoByIdView, item: Seq<u8>) -> IoResult<InfoByIdView> {
    let data = spec_item_data(item);
    let ty = le32(item, 24);
    if ty == consts::BTRFS_ROOT_ITEM_KEY {
        if data.len() >= 439 {
            Ok(InfoByIdView { info: spec_root_item_info(s.info, data), got_root_item: true, ..s })
        } else {
            Err(Error::Kind(ErrorKind::InvalidData))
        }
    } else if ty == consts::BTRFS_ROOT_BACKREF_KEY {
        if data.len() < 18 {
            Err(Error::Kind(ErrorKind::InvalidData))
        } else {
            match spec_item_name(data, 16, 18) {
                Some(n) => if n.len() < s.info.name.len() {
                    Ok(
                        InfoByIdView {
                            info: SubvolInfoView {
                                name: spec_set_c_name(s.info.name, n),
                                dirid: le64(data, 0),
                                parent_id: le64(item, 16),
                                ..s.info
                            },
                            got_root_ref: true,
                            ..s
                        },
                    )
                } else {
                    Err(Error::Kind(ErrorKind::InvalidData))
                },
                None => Err(Error::Kind(ErrorKind::InvalidData)),
            }
        }
    } else {
        Ok(s)
    }
}

/// What the search learns from an item of the root tree: a root item (type `ROOT_ITEM`) fills
/// the information from its bytes, a root back reference (type `ROOT_BACKREF`) gives the name it
/// holds (after its dirid and sequence, `btrfs_root_ref`), the directory it names (its first 8
/// bytes) and the parent, which is the offset of its key (bytes 16..24 of the search header).
/// An item of another type teaches nothing.
pub proof fn lemma_info_by_id_item(s: InfoByIdView, item: Seq<u8>)
    ensures
        ({
            let data = item.subrange(32, item.len() as int);
            let ty = le32(item, 24);
            &&& ty == consts::BTRFS_ROOT_ITEM_KEY && data.len() >= 439 ==> spec_info_by_id_item(
                s,
                item,
            ) == Ok::<InfoByIdView, Error>(
                InfoByIdView { info: spec_root_item_info(s.info, data), got_root_item: true, ..s },
            )
            &&& ty == consts::BTRFS_ROOT_BACKREF_KEY ==> match spec_info_by_id_item(s, item) {
                Ok(n) => {
                    &&& n.got_root_ref
                    &&& n.info.dirid == le64(data, 0)
                    &&& n.info.parent_id == le64(item, 16)
                    &&& spec_item_name(data, 16, 18) matches Some(name) && n.info.name
                        == spec_set_c_name(s.info.name, name)
                },
                Err(_) => true,
            }
            &&& ty != consts::BTRFS_ROOT_ITEM_KEY && ty != consts::BTRFS_ROOT_BACKREF_KEY
                ==> spec_info_by_id_item(s, item) == Ok::<InfoByIdView, Error>(s)
        }),
{
}

/// Whether the search for a subvolume has found both its root item and its root back reference
/// (the top level subvolume starts with the latter counted as found, having none).
pub open spec fn spec_info_by_id_done(s: InfoByIdView) -> bool {
    s.got_root_item && s.got_root_ref
}

/// The items of one search, taken in order; the first error ends the batch.
pub open spec fn spec_info_by_id_batch(s: InfoByIdView, items: Seq<Seq<u8>>) -> IoResult<
    InfoByIdView,
>
    decreases items.len(),
{
    if items.len() == 0 {
        Ok(s)
    } else {
        match spec_info_by_id_item(s, items[0]) {
            Ok(next) => spec_info_by_id_batch(next, items.drop_first()),
            Err(e) => Err(e),
        }
    }
}

/// The key of the search for the subvolume `treeid`: its root item, and its root back reference
/// unless it is the top level subvolume.
pub open spec fn spec_info_by_id_key(treeid: u64) -> SearchKey {
    SearchKey {
        tree_id: consts::BTRFS_ROOT_TREE_OBJECTID,
        nr_items: u32::MAX,
        min_objectid: treeid,
        max_objectid: treeid,
        min_type: consts::BTRFS_ROOT_ITEM_KEY,
        max_type: if treeid == consts::BTRFS_FS_TREE_OBJECTID {
            consts::BTRFS_ROOT_ITEM_KEY
        } else {
            consts::BTRFS_ROOT_BACKREF_KEY
        },
        ..spec_default_key()
    }
}

/// Gathers the information about a subvolume given by its id from the root tree.
///
/// The caller runs the tree search whose key [`InfoByIdSearch::search_key`] gives and hands its
/// results to [`InfoByIdSearch::feed`], until [`InfoByIdSearch::is_done`]; then
/// [`InfoByIdSearch::finish`] gives the information.
pub struct InfoByIdSearch {
    treeid: u64,
    info: SubvolInfo,
    got_root_item: bool,
    got_root_ref: bool,
}

impl View for InfoByIdSearch {
    type V = InfoByIdView;

    closed spec fn view(&self) -> InfoByIdView {
        InfoByIdView {
            treeid: self.treeid,
            info: self.info@,
            got_root_item: self.got_root_item,
            got_root_ref: self.got_root_ref,
        }
    }
}

impl InfoByIdSearch {
    #[verifier::type_invariant]
    closed spec fn wf(self) -> bool {
        self.info.name@.len() == SUBVOL_NAME_BUF_LEN
    }


    /// A search for the subvolume `treeid`, with nothing found yet. The top level subvolume has
    /// no root back reference, so only its root item is looked for; it is still to be found.
    pub fn new(treeid: u64) -> (r: InfoByIdSearch)
        ensures
            r@.treeid == treeid,
            r@.info == SubvolInfo::zeroed_view(),
            !r@.got_root_item,
            r@.got_root_ref == (treeid == consts::BTRFS_FS_TREE_OBJECTID),
    {
        InfoByIdSearch {
            treeid,
            info: SubvolInfo::zeroed(),
            got_root_item: false,
            got_root_ref: treeid == consts::BTRFS_FS_TREE_OBJECTID,
        }
    }

    /// The key of the tree search to run next.
    pub fn search_key(&self) -> (r: SearchKey)
        ensures
            r == spec_info_by_id_key(self@.treeid),
    {
        let end = if self.treeid == consts::BTRFS_FS_TREE_OBJECTID {
            consts::BTRFS_ROOT_ITEM_KEY
        } else {
            consts::BTRFS_ROOT_BACKREF_KEY
        };
        let b = SearchBuilder::new(()).tree(TreeId::RootTree).item_limit(u32::MAX).objectid(
            KeyBound::Unbounded,
            KeyBound::Included(self.treeid),
        ).item_type(KeyBound::Included(consts::BTRFS_ROOT_ITEM_KEY), KeyBound::Excluded(end));
        b.get_key()
    }

    /// Whether the search has found all it looks for: the root item and the root back
    /// reference.
    pub fn is_done(&self) -> (r: bool)
        ensures
            r == spec_info_by_id_done(self@),
    {
        self.got_root_item && self.got_root_ref
    }

    /// Takes the results of one tree search. One search holds all the items of the subvolume
    /// that its key asks for, so a search that does not give both the root item and the root
    /// back reference (the root item alone for the top level subvolume) means that the
    /// subvolume does not exist.
    pub fn feed(self, results: SearchResults) -> (r: IoResult<InfoByIdSearch>)
        ensures
            results@.remaining == 0 ==> r == Err::<InfoByIdSearch, Error>(
                Error::Kind(ErrorKind::NotFound),
            ),
            results@.remaining > 0 ==> match spec_info_by_id_batch(self@, results@.items()) {
                Ok(v) => if spec_info_by_id_done(v) {
                    r matches Ok(n) && n@ == v
                } else {
                    r == Err::<InfoByIdSearch, Error>(Error::Kind(ErrorKind::NotFound))
                },
                Err(e) => r == Err::<InfoByIdSearch, Error>(e),
            },
            r matches Ok(n) ==> spec_info_by_id_done(n@),
    {
        if results.len() == 0 {
            return Err(Error::Kind(ErrorKind::NotFound));
        }
        let ghost start = self@;
        let ghost all = results@.items();
        let mut st = self;
        let mut walk = results;
        loop
            invariant
                results@.remaining > 0,
                start == self@,
                all == results@.items(),
                spec_info_by_id_batch(start, all) == spec_info_by_id_batch(st@, walk@.items()),
            decreases walk@.items().len(),
        {
            let ghost before = walk@.items();
            match walk.next() {
                None => {
                    if st.is_done() {
                        return Ok(st);
                    }
                    return Err(Error::Kind(ErrorKind::NotFound));
                },
                Some(item) => {
                    assert(before[0] == item@);
                    assert(before.drop_first() =~= walk@.items());
                    st = st.take_item(item)?;
                },
            }
        }
    }

    fn take_item(self, item: SearchItem) -> (r: IoResult<InfoByIdSearch>)
        ensures
            match spec_info_by_id_item(self@, item@) {
                Ok(v) => r matches Ok(n) && n@ == v,
                Err(e) => r == Err::<InfoByIdSearch, Error>(e),
            },
    {
        proof {
            use_type_invariant(&self);
        }
        let InfoByIdSearch { treeid, mut info, mut got_root_item, mut got_root_ref } = self;
        let ty = item.ty();
        if ty == consts::BTRFS_ROOT_ITEM_KEY {
            match RootItem::from_bytes(item.data()) {
                Some(ri) => {
                    subvol_info_args_from_root_item(&ri, &mut info);
                    got_root_item = true;
                },
                None => return Err(Error::Kind(ErrorKind::InvalidData)),
            }
        } else if ty == consts::BTRFS_ROOT_BACKREF_KEY {
            match RootRef::from_bytes(item.data()) {
                Some(rr) => {
                    let name = rr.name_bytes()?;
                    if name.len() >= info.name.len() {
                        return Err(Error::Kind(ErrorKind::InvalidData));
                    }
                    set_c_name(&mut info.name, name);
                    info.dirid = rr.dirid();
                    info.parent_id = item.offset();
                    got_root_ref = true;
                },
                None => return Err(Error::Kind(ErrorKind::InvalidData)),
            }
        }
        Ok(InfoByIdSearch { treeid, info, got_root_item, got_root_ref })
    }

    /// The information gathered, for the subvolume that was asked for, once it was all found.
    pub fn finish(self) -> (r: SubvolInfo)
        requires
            spec_info_by_id_done(self@),
        ensures
            r@ == (SubvolInfoView { treeid: self@.treeid, ..self@.info }),
    {
        let mut info = self.info;
        info.treeid = self.treeid;
        info
    }
}

/// Writes `n` at the start of `name`, followed by a zero byte.
pub fn set_c_name(name: &mut Vec<u8>, n: &[u8])
    requires
        n@.len() < old(name)@.len(),
    ensures
        final(name)@ == spec_set_c_name(old(name)@, n@),
{
    let mut i: usize = 0;
    while i < n.len()
        invariant
            n@.len() < name@.len(),
            name@.len() == old(name)@.len(),
            i <= n@.len(),
            forall|k: int| 0 <= k < i ==> name@[k] == n@[k],
            forall|k: int| i <= k < name@.len() ==> name@[k] == old(name)@[k],
        decreases n@.len() - i,
    {
        name.set(i, n[i]);
        i = i + 1;
    }
    name.set(i, 0);
    assert(name@ =~= spec_set_c_name(old(name)@, n@));
}


/// Writing a name with [`set_c_name`] and reading it back with [`c_name`] gives the name, for
/// a name without zero bytes that leaves room for its terminating zero.
pub proof fn lemma_c_name_round_trip(buf: Seq<u8>, n: Seq<u8>)
    requires
        n.len() < buf.len(),
        forall|i: int| 0 <= i < n.len() ==> n[i] != 0,
    ensures
        spec_c_name(spec_set_c_name(buf, n)) == n,
{
    let w = spec_set_c_name(buf, n);
    assert(spec_c_name_at(w, n.len() as int));
    lemma_c_name(w, n.len() as int);
    assert(w.subrange(0, n.len() as int) =~= n);
}

} // verus!
