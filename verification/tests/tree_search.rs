use libbtrfs::tree_search::builder::seal::SearchKeyBuilderExt;
use libbtrfs::tree_search::builder::{KeyBound, SearchBuilder, SearchKey, SearchKeyBuilder};
use libbtrfs::tree_search::key_after;
use libbtrfs::tree_search::tree_item::{ChunkItem, DirItem, RootItem, RootRef, TreeItem, TreeItemName};
use libbtrfs::tree_search::{
    next_objectid, next_offset, next_type, SearchItem, SearchResults, TreeId, TreeSearch,
};
use libbtrfs::{Error, ErrorKind};

fn item(objectid: u64, ty: u32, offset: u64, transid: u64, data: &[u8]) -> Vec<u8> {
    let mut v = Vec::new();
    v.extend_from_slice(&transid.to_le_bytes());
    v.extend_from_slice(&objectid.to_le_bytes());
    v.extend_from_slice(&offset.to_le_bytes());
    v.extend_from_slice(&ty.to_le_bytes());
    v.extend_from_slice(&(data.len() as u32).to_le_bytes());
    v.extend_from_slice(data);
    v
}

#[test]
fn search_item_header_fields() {
    let bytes = item(256, 132, 7, 99, b"abc");
    let it = SearchItem::from_bytes(&bytes).unwrap();
    assert_eq!(it.objectid(), 256);
    assert_eq!(it.ty(), 132);
    assert_eq!(it.offset(), 7);
    assert_eq!(it.transid(), 99);
    assert_eq!(it.len(), 3);
    assert_eq!(it.key(), (256, 132, 7));
    assert_eq!(it.data(), b"abc");
}

#[test]
fn search_item_with_wrong_length_is_refused() {
    let mut bytes = item(1, 2, 3, 4, b"abc");
    bytes.push(0);
    assert!(SearchItem::from_bytes(&bytes).is_none());
    assert!(SearchItem::from_bytes(&bytes[..20]).is_none());
}

#[test]
fn results_are_walked_in_order() {
    let mut buf = item(5, 132, 0, 1, b"x");
    buf.extend(item(5, 144, 6, 1, b"yz"));
    buf.extend(vec![0u8; 40]);
    let mut r = SearchResults::new(&buf, 2);
    assert_eq!(r.len(), 2);
    assert_eq!(r.last_key(), None);
    let a = r.next().unwrap();
    assert_eq!(a.key(), (5, 132, 0));
    assert_eq!(a.data(), b"x");
    assert_eq!(r.last_key(), Some((5, 132, 0)));
    let b = r.next().unwrap();
    assert_eq!(b.key(), (5, 144, 6));
    assert_eq!(b.data(), b"yz");
    assert_eq!(r.len(), 0);
    assert!(r.next().is_none());
    assert_eq!(r.last_key(), Some((5, 144, 6)));
}

#[test]
fn walk_stops_at_an_item_that_does_not_fit() {
    let mut buf = item(5, 132, 0, 1, b"x");
    let mut broken = item(6, 132, 0, 1, b"xyz");
    broken.truncate(34);
    buf.extend(broken);
    let mut r = SearchResults::new(&buf, 3);
    assert!(r.next().is_some());
    assert!(r.next().is_none());
    assert_eq!(r.len(), 0);
}

#[test]
fn next_objectid_moves_to_the_next_object() {
    assert_eq!(next_objectid((5, 132, 9)), (6, 0, 0));
    assert_eq!(next_objectid((u64::MAX, 1, 2)), (u64::MAX, 1, 2));
}

#[test]
fn next_type_moves_to_the_next_type() {
    assert_eq!(next_type((5, 132, 9)), (5, 133, 0));
    assert_eq!(next_type((5, 255, 9)), (6, 0, 0));
}

#[test]
fn next_offset_moves_to_the_next_offset() {
    assert_eq!(next_offset((5, 132, 9)), (5, 132, 10));
    assert_eq!(next_offset((5, 132, u64::MAX)), (5, 133, 0));
}

#[test]
fn default_key_covers_everything() {
    let k = SearchKey::default();
    assert_eq!(k.tree_id, 1);
    assert_eq!((k.min_objectid, k.max_objectid), (0, u64::MAX));
    assert_eq!((k.min_type, k.max_type), (0, u32::MAX));
    assert_eq!((k.min_offset, k.max_offset), (0, u64::MAX));
    assert_eq!((k.min_transid, k.max_transid), (0, u64::MAX));
    assert_eq!(k.nr_items, u32::MAX);
}

#[test]
fn builder_sets_ranges() {
    let b = SearchBuilder::new(())
        .tree(TreeId::FsTree)
        .item_limit(20)
        .objectid(KeyBound::Unbounded, KeyBound::Included(7))
        .item_type(KeyBound::Included(132), KeyBound::Excluded(144))
        .offset(KeyBound::Included(256), KeyBound::Unbounded)
        .transid(KeyBound::Unbounded, KeyBound::Excluded(50));
    let k = b.get_key();
    assert_eq!(k.tree_id, 5);
    assert_eq!(k.nr_items, 20);
    assert_eq!((k.min_objectid, k.max_objectid), (7, 7));
    assert_eq!((k.min_type, k.max_type), (132, 144));
    assert_eq!((k.min_offset, k.max_offset), (256, u64::MAX));
    assert_eq!((k.min_transid, k.max_transid), (0, 50));
    let s = b.build();
    assert_eq!(s.get_key(), k);
}

#[test]
fn search_key_moves_past_the_last_item() {
    let mut s = TreeSearch::new((), SearchKey::default());
    s.update_key((5u64, 144u32, 9u64));
    let k = s.get_key();
    assert_eq!((k.min_objectid, k.min_type, k.min_offset), (5, 144, 9));
    assert_eq!(k.max_objectid, u64::MAX);
    s.update_key(());
    assert_eq!(s.get_key(), k);
    assert_eq!(key_after(k, None), k);
}

#[test]
fn tree_ids() {
    assert_eq!(TreeId::RootTree.as_u64(), 1);
    assert_eq!(TreeId::FsTree.as_u64(), 5);
    assert_eq!(TreeId::RootTreeDir.as_u64(), 6);
    assert!(TreeId::FsTree == 5u64);
    assert!(5u64 == TreeId::FsTree);
    assert!(TreeId::RootTree != 5u64);
}

fn root_item_bytes() -> Vec<u8> {
    let mut b = vec![0u8; 439];
    b[160..168].copy_from_slice(&11u64.to_le_bytes());
    b[168..176].copy_from_slice(&256u64.to_le_bytes());
    b[208..216].copy_from_slice(&1u64.to_le_bytes());
    for i in 0..16 {
        b[247 + i] = i as u8 + 1;
    }
    b[295..303].copy_from_slice(&21u64.to_le_bytes());
    b[327..335].copy_from_slice(&1000u64.to_le_bytes());
    b[335..339].copy_from_slice(&500u32.to_le_bytes());
    b
}

#[test]
fn root_item_fields() {
    let b = root_item_bytes();
    let ri = RootItem::from_bytes(&b).unwrap();
    assert_eq!(ri.generation(), 11);
    assert_eq!(ri.root_dirid(), 256);
    assert_eq!(ri.flags(), 1);
    assert_eq!(ri.uuid().into_bytes()[0], 1);
    assert_eq!(ri.uuid().into_bytes()[15], 16);
    assert_eq!(ri.ctransid(), 21);
    assert_eq!(ri.ctime().sec(), 1000);
    assert_eq!(ri.ctime().nsec(), 500);
    assert!(RootItem::from_bytes(&b[..438]).is_none());
}

#[test]
fn item_from_search_checks_type_and_length() {
    let b = root_item_bytes();
    assert!(RootItem::from_search(&b, 132).is_some());
    assert!(RootItem::from_search(&b, 144).is_none());
    let bytes = item(5, 132, 0, 1, &b);
    let it = SearchItem::from_bytes(&bytes).unwrap();
    assert!(it.get::<RootItem>().is_some());
    assert!(it.get::<RootRef>().is_none());
}

fn root_ref_bytes(dirid: u64, name: &[u8]) -> Vec<u8> {
    let mut b = Vec::new();
    b.extend_from_slice(&dirid.to_le_bytes());
    b.extend_from_slice(&3u64.to_le_bytes());
    b.extend_from_slice(&(name.len() as u16).to_le_bytes());
    b.extend_from_slice(name);
    b
}

#[test]
fn root_ref_name() {
    let b = root_ref_bytes(256, b"home");
    let rr = RootRef::from_bytes(&b).unwrap();
    assert_eq!(rr.dirid(), 256);
    assert_eq!(rr.name_bytes(), Ok(b"home".as_slice()));
    assert_eq!(rr.name_str().unwrap(), "home");
}

#[test]
fn name_with_zero_byte_or_past_the_end_is_invalid() {
    let b = root_ref_bytes(256, b"ho\0e");
    let rr = RootRef::from_bytes(&b).unwrap();
    assert_eq!(rr.name_bytes(), Err(Error::Kind(ErrorKind::InvalidData)));
    let mut b = root_ref_bytes(256, b"home");
    b.truncate(20);
    let rr = RootRef::from_bytes(&b).unwrap();
    assert_eq!(rr.name_bytes(), Err(Error::Kind(ErrorKind::InvalidData)));
}

#[test]
fn dir_item_name_and_location() {
    let mut b = Vec::new();
    b.extend_from_slice(&257u64.to_le_bytes());
    b.push(132);
    b.extend_from_slice(&0u64.to_le_bytes());
    b.extend_from_slice(&9u64.to_le_bytes());
    b.extend_from_slice(&0u16.to_le_bytes());
    b.extend_from_slice(&7u16.to_le_bytes());
    b.push(2);
    b.extend_from_slice(b"default");
    let di = DirItem::from_bytes(&b).unwrap();
    assert_eq!(di.location().objectid(), 257);
    assert_eq!(di.transid(), 9);
    assert_eq!(di.name_bytes(), Ok(b"default".as_slice()));
}

#[test]
fn chunk_item_reads_stripe_fields() {
    let mut b = vec![0u8; 80];
    b[16..24].copy_from_slice(&65536u64.to_le_bytes());
    b[44..46].copy_from_slice(&4u16.to_le_bytes());
    b[46..48].copy_from_slice(&2u16.to_le_bytes());
    let c = ChunkItem::from_bytes(&b).unwrap();
    assert_eq!(c.stripe_len(), 65536);
    assert_eq!(c.num_stripes(), 4);
    assert_eq!(c.sub_stripes(), 2);
}

#[test]
fn tree_ids_compare_with_object_ids() {
    assert!(TreeId::FsTree == 5u64);
    assert!(5u64 == TreeId::FsTree);
    assert!(TreeId::RootTree < 2u64);
    assert!(TreeId::FsTree > 2u64);
    assert!(2u64 < TreeId::FsTree);
    assert!(7u64 > TreeId::FsTree);
    assert_eq!(TreeId::FsTree.partial_cmp(&5u64), Some(std::cmp::Ordering::Equal));
}

#[test]
fn on_disk_timespec_converts() {
    let mut b = vec![0u8; 12];
    b[0..8].copy_from_slice(&1_700_000_000u64.to_le_bytes());
    b[8..12].copy_from_slice(&42u32.to_le_bytes());
    let t = libbtrfs::tree_search::tree_item::Timespec::from_bytes(&b).unwrap();
    let s = libbtrfs::subvol::info::Timespec::from(t);
    assert_eq!((s.sec(), s.nsec()), (1_700_000_000, 42));
}
