use libbtrfs::flags::Flags;
use libbtrfs::subvol::info::{c_name, InfoByIdSearch, SubvolInfo, SUBVOL_NAME_BUF_LEN};
use libbtrfs::subvol::search::{is_default_name, DefaultSubvolSearch, PathSearch};
use libbtrfs::subvol::vol_args::{
    create_args, destroy_args, destroy_by_id_args, flags_readonly, is_subvol, readonly_update,
    snapshot_args, VolTarget, VOL_ARGS_V2_NAME_LEN,
};
use libbtrfs::subvol::walk::{
    child_entry, join_path, returned_rootrefs, root_ref_of_item, skips_lookup_error, start_info,
    top_entry, user_child_entry, user_top_entry, SubvolEntry, SubvolRootRef, Walk,
};
use libbtrfs::tree_search::{SearchItem, SearchResults};
use libbtrfs::{Error, ErrorKind};

fn item(objectid: u64, ty: u32, offset: u64, data: &[u8]) -> Vec<u8> {
    let mut v = Vec::new();
    v.extend_from_slice(&1u64.to_le_bytes());
    v.extend_from_slice(&objectid.to_le_bytes());
    v.extend_from_slice(&offset.to_le_bytes());
    v.extend_from_slice(&ty.to_le_bytes());
    v.extend_from_slice(&(data.len() as u32).to_le_bytes());
    v.extend_from_slice(data);
    v
}

fn root_ref(dirid: u64, name: &[u8]) -> Vec<u8> {
    let mut b = Vec::new();
    b.extend_from_slice(&dirid.to_le_bytes());
    b.extend_from_slice(&0u64.to_le_bytes());
    b.extend_from_slice(&(name.len() as u16).to_le_bytes());
    b.extend_from_slice(name);
    b
}

fn root_item(generation: u64, flags: u64, uuid_byte: u8) -> Vec<u8> {
    let mut b = vec![0u8; 439];
    b[160..168].copy_from_slice(&generation.to_le_bytes());
    b[208..216].copy_from_slice(&flags.to_le_bytes());
    for i in 247..263 {
        b[i] = uuid_byte;
    }
    b[295..303].copy_from_slice(&40u64.to_le_bytes());
    b[303..311].copy_from_slice(&41u64.to_le_bytes());
    b[327..335].copy_from_slice(&1_700_000_000u64.to_le_bytes());
    b[335..339].copy_from_slice(&123u32.to_le_bytes());
    b
}

fn dir_item(location: u64, name: &[u8]) -> Vec<u8> {
    let mut b = Vec::new();
    b.extend_from_slice(&location.to_le_bytes());
    b.push(132);
    b.extend_from_slice(&u64::MAX.to_le_bytes());
    b.extend_from_slice(&1u64.to_le_bytes());
    b.extend_from_slice(&0u16.to_le_bytes());
    b.extend_from_slice(&(name.len() as u16).to_le_bytes());
    b.push(2);
    b.extend_from_slice(name);
    b
}

#[test]
fn zeroed_info_has_a_full_name_buffer() {
    let info = SubvolInfo::zeroed();
    assert_eq!(info.name.len(), SUBVOL_NAME_BUF_LEN);
    assert_eq!(info.name_bytes(), b"");
    assert!(!info.readonly());
}

#[test]
fn info_by_id_fills_from_root_item_and_backref() {
    let mut s = InfoByIdSearch::new(257);
    let key = s.search_key();
    assert_eq!((key.min_objectid, key.max_objectid), (257, 257));
    assert_eq!((key.min_type, key.max_type), (132, 144));
    assert_eq!(key.tree_id, 1);
    assert!(!s.is_done());
    let mut buf = item(257, 132, 0, &root_item(9, 2, 0xaa));
    buf.extend(item(257, 144, 5, &root_ref(256, b"home")));
    s = s.feed(SearchResults::new(&buf, 2)).unwrap();
    assert!(s.is_done());
    let info = s.finish();
    assert_eq!(info.treeid(), 257);
    assert_eq!(info.generation(), 9);
    assert_eq!(info.flags(), 2);
    assert!(info.readonly());
    assert_eq!(info.uuid().into_bytes(), [0xaa; 16]);
    assert_eq!(info.ctransid(), 40);
    assert_eq!(info.otransid(), 41);
    assert_eq!(info.ctime().sec(), 1_700_000_000);
    assert_eq!(info.ctime().nsec(), 123);
    assert_eq!(info.name_bytes(), b"home");
    assert_eq!(info.name_str(), "home");
    assert_eq!(info.dirid(), 256);
    assert_eq!(info.parent_id(), 5);
}

#[test]
fn info_by_id_of_missing_subvolume_is_not_found() {
    let s = InfoByIdSearch::new(300);
    assert_eq!(
        s.feed(SearchResults::new(&[], 0)).err(),
        Some(Error::Kind(ErrorKind::NotFound))
    );
}

#[test]
fn info_by_id_of_top_level_reads_its_root_item() {
    let mut s = InfoByIdSearch::new(5);
    assert!(!s.is_done());
    let key = s.search_key();
    assert_eq!((key.min_objectid, key.max_objectid), (5, 5));
    assert_eq!((key.min_type, key.max_type), (132, 132));
    let buf = item(5, 132, 0, &root_item(7, 0, 0x55));
    s = s.feed(SearchResults::new(&buf, 1)).unwrap();
    assert!(s.is_done());
    let info = s.finish();
    assert_eq!(info.treeid(), 5);
    assert_eq!(info.generation(), 7);
    assert_eq!(info.uuid().into_bytes(), [0x55; 16]);
    assert_eq!(info.ctime().sec(), 1_700_000_000);
    assert_eq!(info.name_bytes(), b"");
}

#[test]
fn info_by_id_without_back_reference_is_not_found() {
    let s = InfoByIdSearch::new(257);
    let buf = item(257, 132, 0, &root_item(9, 0, 0xaa));
    assert_eq!(
        s.feed(SearchResults::new(&buf, 1)).err(),
        Some(Error::Kind(ErrorKind::NotFound))
    );
}

#[test]
fn info_by_id_refuses_a_short_root_item() {
    let s = InfoByIdSearch::new(257);
    let buf = item(257, 132, 0, &[0u8; 100]);
    assert_eq!(
        s.feed(SearchResults::new(&buf, 1)).err(),
        Some(Error::Kind(ErrorKind::InvalidData))
    );
}

#[test]
fn default_subvolume_is_found_by_name() {
    let mut s = DefaultSubvolSearch::new();
    let key = s.search_key();
    assert_eq!((key.min_objectid, key.max_objectid), (6, 6));
    assert_eq!((key.min_type, key.max_type), (84, 84));
    let mut buf = item(6, 84, 10, &dir_item(300, b"other"));
    buf.extend(item(6, 84, 20, &dir_item(256, b"default")));
    assert_eq!(s.feed(SearchResults::new(&buf, 2)), Ok(Some(256)));
}

#[test]
fn default_subvolume_search_moves_past_other_entries() {
    let mut s = DefaultSubvolSearch::new();
    let buf = item(6, 84, 10, &dir_item(300, b"other"));
    assert_eq!(s.feed(SearchResults::new(&buf, 1)), Ok(None));
    let key = s.search_key();
    assert_eq!((key.min_objectid, key.min_type, key.min_offset), (6, 84, 11));
    assert_eq!(s.feed(SearchResults::new(&[], 0)), Err(Error::Kind(ErrorKind::NotFound)));
}

#[test]
fn default_name() {
    assert!(is_default_name(b"default"));
    assert!(!is_default_name(b"defaults"));
    assert!(!is_default_name(b"Default"));
}

#[test]
fn path_is_built_up_to_the_top_level() {
    let mut s = PathSearch::new(258);
    let key = s.search_key();
    assert_eq!((key.min_objectid, key.max_objectid, key.nr_items), (258, 258, 1));
    assert_eq!((key.min_type, key.max_type), (144, 144));

    let buf = item(258, 144, 257, &root_ref(300, b"child"));
    let step = s.step(SearchResults::new(&buf, 1)).unwrap();
    assert_eq!((step.dirid, step.parent), (300, 257));
    assert_eq!(step.name, b"child".to_vec());
    let key = s.search_key();
    assert_eq!((key.min_objectid, key.min_type, key.min_offset), (257, 144, 0));
    assert_eq!(s.join(step, b"dir/"), None);

    let buf = item(257, 144, 5, &root_ref(256, b"parent"));
    let step = s.step(SearchResults::new(&buf, 1)).unwrap();
    assert_eq!(s.join(step, b""), Some(b"parent/dir/child".to_vec()));
}

#[test]
fn path_of_missing_subvolume_is_not_found() {
    let mut s = PathSearch::new(258);
    assert_eq!(s.step(SearchResults::new(&[], 0)).err(), Some(Error::Kind(ErrorKind::NotFound)));
}

#[test]
fn volume_arguments() {
    let a = create_args(b"new").unwrap();
    assert_eq!((a.fd, a.flags), (0, 0));
    match a.target {
        VolTarget::Name(b) => {
            assert_eq!(b.len(), VOL_ARGS_V2_NAME_LEN);
            assert_eq!(c_name(&b), b"new");
        }
        VolTarget::Id(_) => panic!("expected a name"),
    }
    assert!(destroy_args(b"old").is_ok());
    assert_eq!(create_args(b"a\0b").err(), Some(Error::Kind(ErrorKind::InvalidInput)));
    assert_eq!(
        create_args(&vec![b'x'; VOL_ARGS_V2_NAME_LEN]).err(),
        Some(Error::Kind(ErrorKind::InvalidInput))
    );
    let s = snapshot_args(3, b"snap", true).unwrap();
    assert_eq!((s.fd, s.flags), (3, 2));
    let s = snapshot_args(3, b"snap", false).unwrap();
    assert_eq!(s.flags, 0);
    let d = destroy_by_id_args(260);
    assert_eq!(d.flags, 0x10);
    assert!(matches!(d.target, VolTarget::Id(260)));
}

#[test]
fn readonly_flags() {
    assert!(flags_readonly(2));
    assert!(!flags_readonly(1));
    assert_eq!(readonly_update(0, true), Some(2));
    assert_eq!(readonly_update(3, false), Some(1));
    assert_eq!(readonly_update(2, true), None);
    assert_eq!(readonly_update(1, false), None);
}

#[test]
fn subvolume_root_is_a_btrfs_directory_with_inode_256() {
    assert!(is_subvol(true, true, 256));
    assert!(!is_subvol(true, true, 257));
    assert!(!is_subvol(true, false, 256));
    assert!(!is_subvol(false, true, 256));
}

fn entry(treeid: u64) -> SubvolEntry {
    SubvolEntry::new(treeid, format!("s{treeid}"), 5, 256, Some(format!("s{treeid}")), None)
}

#[test]
fn walk_returns_found_subvolumes_in_ascending_order() {
    let mut w = Walk::new(Flags::from_bits_retain(Flags::ASCENDING));
    w.push_found(vec![entry(256), entry(257), entry(258)]);
    assert_eq!(w.pop().unwrap().treeid(), 256);
    w.push_found(vec![entry(300), entry(301)]);
    assert_eq!(w.pop().unwrap().treeid(), 300);
    assert_eq!(w.pop().unwrap().treeid(), 301);
    assert_eq!(w.pop().unwrap().treeid(), 257);
    assert_eq!(w.pop().unwrap().treeid(), 258);
    assert!(w.pop().is_none());
}

#[test]
fn walk_returns_found_subvolumes_in_descending_order() {
    let mut w = Walk::new(Flags::from_bits_retain(Flags::DESCENDING));
    w.push_found(vec![entry(256), entry(257), entry(258)]);
    assert_eq!(w.pop().unwrap().treeid(), 258);
    assert_eq!(w.pop().unwrap().treeid(), 257);
    assert_eq!(w.pop().unwrap().treeid(), 256);
    assert!(w.pop().is_none());
}

#[test]
fn entries_from_root_references() {
    let bytes = item(5, 156, 257, &root_ref(256, b"home"));
    let it = SearchItem::from_bytes(&bytes).unwrap();
    let (rr, name) = root_ref_of_item(&it).unwrap();
    assert_eq!(rr, SubvolRootRef { treeid: 257, dirid: 256 });
    assert_eq!(name, "home");

    let flags = Flags::from_bits_retain(Flags::GET_PATH | Flags::GET_INFO);
    let top = top_entry(5, rr, name, flags);
    assert_eq!(top.treeid(), 257);
    assert_eq!(top.parent_id(), 5);
    assert_eq!(top.dirid(), 256);
    assert_eq!(top.name(), "home");
    assert_eq!(top.path(), "home");
    assert_eq!(top.info().treeid(), 257);
    assert_eq!(top.info().name_bytes(), b"home");

    let child = child_entry(&top, SubvolRootRef { treeid: 300, dirid: 400 }, "a/", "b".into(), flags);
    assert_eq!(child.parent_id(), 257);
    assert_eq!(child.path(), "home/a/b");
    assert_eq!(child.info().parent_id(), 257);

    let plain = top_entry(5, rr, "home".into(), Flags::from_bits_retain(0));
    assert!(!plain.has_path());
    assert!(!plain.has_info());
}

#[test]
fn finishing_info_reads_the_root_item() {
    let flags = Flags::from_bits_retain(Flags::GET_INFO);
    let mut e = top_entry(5, SubvolRootRef { treeid: 257, dirid: 256 }, "v".into(), flags);
    let buf = item(257, 132, 0, &root_item(77, 0, 1));
    e.finish_info(SearchResults::new(&buf, 1)).unwrap();
    assert_eq!(e.info().generation(), 77);
    assert_eq!(e.info().name_bytes(), b"v");
    assert_eq!(
        e.finish_info(SearchResults::new(&[], 0)),
        Err(Error::Kind(ErrorKind::NotFound))
    );
}

#[test]
fn unprivileged_entries() {
    let rr = SubvolRootRef { treeid: 260, dirid: 256 };
    let top = user_top_entry(5, rr, "dir/", "vol");
    assert_eq!(top.path(), "dir/vol");
    let child = user_child_entry(&top, SubvolRootRef { treeid: 261, dirid: 256 }, "", "sub");
    assert_eq!(child.path(), "dir/vol/sub");
    assert_eq!(child.parent_id(), 260);
    assert!(skips_lookup_error(&Error::Os(13)));
    assert!(!skips_lookup_error(&Error::Os(2)));
    assert!(!skips_lookup_error(&Error::Kind(ErrorKind::NotFound)));
}

#[test]
fn root_references_returned_by_the_ioctl() {
    let refs: Vec<SubvolRootRef> =
        (0..5).map(|i| SubvolRootRef { treeid: 256 + i, dirid: 256 }).collect();
    assert_eq!(returned_rootrefs(&refs, 3).len(), 3);
    assert_eq!(returned_rootrefs(&refs, 9).len(), 5);
    assert_eq!(returned_rootrefs(&refs, 0).len(), 0);
}

#[test]
fn paths_are_joined_with_a_separator() {
    assert_eq!(join_path("a", "b/", "c"), "a/b/c");
    let info = start_info(300, 5, 256, b"name");
    assert_eq!(info.treeid(), 300);
    assert_eq!(info.name_bytes(), b"name");
}
