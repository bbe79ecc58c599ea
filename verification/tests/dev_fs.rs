use libbtrfs::dev::info::{DevAnswer, DevInfo, DevQuery, DevWalk};
use libbtrfs::dev::{add_args, rm_args, rm_by_id_args, rm_falls_back, DevStats, VOL_ARGS_NAME_LEN};
use libbtrfs::fs::block_group::{BlockType, RaidProfile};
use libbtrfs::fs::{is_btrfs_magic, FsInfo, SpaceInfo};
use libbtrfs::subvol::vol_args::VolTarget;
use libbtrfs::{Error, ErrorKind, Flags};

#[test]
fn device_statistics() {
    let mut s = DevStats::request(3);
    assert_eq!(s.devid, 3);
    assert_eq!(s.nr_items, 5);
    assert!(!s.has_errors());
    s.values = [1, 2, 3, 4, 5];
    assert_eq!(s.write_errors(), 1);
    assert_eq!(s.read_errors(), 2);
    assert_eq!(s.flush_errors(), 3);
    assert_eq!(s.corruptions_errors(), 4);
    assert_eq!(s.generation_errors(), 5);
    assert!(s.has_errors());
    s.values = [0, 0, 0, 0, 9];
    assert!(s.has_errors());
}

#[test]
fn device_info_path() {
    let mut d = DevInfo::request(1);
    assert_eq!(d.device_id(), 1);
    d.path[..9].copy_from_slice(b"/dev/sda\0");
    assert_eq!(d.path_bytes(), b"/dev/sda");
    assert_eq!(d.path_str(), "/dev/sda");
}

#[test]
fn device_walk_skips_missing_ids() {
    let mut w = DevWalk::new(2, 3);
    assert_eq!(w.remaining(), 2);
    assert_eq!(w.next_query(), DevQuery::Ask(1));
    assert_eq!(w.answer(1, Ok(())), DevAnswer::Found);
    assert_eq!(w.next_query(), DevQuery::Ask(2));
    assert_eq!(w.answer(2, Err(Error::Os(19))), DevAnswer::Ask(3));
    assert_eq!(w.answer(3, Ok(())), DevAnswer::Found);
    assert_eq!(w.remaining(), 0);
    assert_eq!(w.next_query(), DevQuery::End);
}

#[test]
fn device_walk_reports_a_wrong_count() {
    let mut w = DevWalk::new(2, 1);
    assert_eq!(w.answer(1, Ok(())), DevAnswer::Found);
    assert_eq!(w.next_query(), DevQuery::Fail(Error::Kind(ErrorKind::InvalidData)));
    let mut w = DevWalk::new(0, 1);
    assert_eq!(w.answer(1, Ok(())), DevAnswer::Fail(Error::Kind(ErrorKind::InvalidData)));
}

#[test]
fn device_walk_stops_at_other_errors() {
    let mut w = DevWalk::new(1, 1);
    assert_eq!(w.answer(1, Err(Error::Os(1))), DevAnswer::Fail(Error::Os(1)));
}

#[test]
fn device_arguments() {
    let a = add_args(b"/dev/sdb").unwrap();
    assert_eq!(a.name.len(), VOL_ARGS_NAME_LEN);
    assert_eq!(&a.name[..9], b"/dev/sdb\0");
    assert_eq!(add_args(b"/dev/\0").err(), Some(Error::Kind(ErrorKind::InvalidInput)));
    let r = rm_args(b"/dev/sdb").unwrap();
    assert!(matches!(r.target, VolTarget::Name(_)));
    let r = rm_by_id_args(2);
    assert_eq!(r.flags, 0x8);
    assert!(matches!(r.target, VolTarget::Id(2)));
    assert!(rm_falls_back(&Error::Os(95)));
    assert!(rm_falls_back(&Error::Os(25)));
    assert!(!rm_falls_back(&Error::Os(2)));
}

#[test]
fn block_types() {
    assert_eq!(BlockType::from(1u64), BlockType::Data);
    assert_eq!(BlockType::from(2u64 | 0x10), BlockType::System);
    assert_eq!(BlockType::from(4u64 | 0x40), BlockType::Metadata);
    assert_eq!(BlockType::from(1u64 << 49), BlockType::GlobalReserve);
    assert_eq!(BlockType::from(5u64), BlockType::Unknown);
}

#[test]
fn raid_profiles() {
    let p = RaidProfile::try_from(1u64 | 0x40).unwrap();
    assert_eq!(p.upper_name, "RAID10");
    assert_eq!((p.ncopies, p.devs_min, p.sub_stripes), (2, 2, 2));
    let p = RaidProfile::try_from(4u64 | 0x20).unwrap();
    assert_eq!(p.lower_name, "dup");
    let p = RaidProfile::try_from(1u64).unwrap();
    assert_eq!(p.lower_name, "single");
    assert_eq!(p.bg_flag, 0);
    let p = RaidProfile::try_from(1u64 | (1 << 48)).unwrap();
    assert_eq!(p.lower_name, "single");
    let p = RaidProfile::try_from(0x100u64).unwrap();
    assert_eq!((p.lower_name, p.nparity, p.tolerated_failures), ("raid6", 2, 2));
    let p = RaidProfile::try_from(0x400u64).unwrap();
    assert_eq!((p.upper_name, p.ncopies), ("RAID1C4", 4));
    assert!(RaidProfile::try_from(1u64 << 20).is_err());
}

#[test]
fn raid_profile_order_when_several_bits_are_set() {
    assert_eq!(RaidProfile::try_from(0x40u64 | 0x10).unwrap().lower_name, "raid10");
    assert_eq!(RaidProfile::try_from(0x10u64 | 0x200).unwrap().lower_name, "raid1");
    assert_eq!(RaidProfile::try_from(0x20u64 | 0x8).unwrap().lower_name, "dup");
}

#[test]
fn space_info() {
    let s = SpaceInfo { flags: 1 | 0x8, total_bytes: 100, used_bytes: 40 };
    assert_eq!(s.block_type(), BlockType::Data);
    assert_eq!(s.raid_profile().unwrap().lower_name, "raid0");
    assert_eq!(s.used_bytes(), 40);
    assert_eq!(s.total_bytes(), 100);
    let bad = SpaceInfo { flags: 1 << 30, total_bytes: 0, used_bytes: 0 };
    assert_eq!(bad.raid_profile().err(), Some(Error::Kind(ErrorKind::InvalidInput)));
}

#[test]
fn filesystem_info_request() {
    let i = FsInfo::request(Flags::from_bits_retain(Flags::CSUM_INFO | Flags::GENERATION)).unwrap();
    assert_eq!(i.flags, 3);
    let i = FsInfo::request(Flags::from_bits_retain(Flags::METADATA_UUID)).unwrap();
    assert_eq!(i.flags, 4);
    assert_eq!(
        FsInfo::request(Flags::from_bits_retain(Flags::GET_PATH | Flags::CSUM_INFO)).err(),
        Some(Error::InvalidFlags(Flags::GET_PATH))
    );
    let mut i = FsInfo::request(Flags::from_bits_retain(Flags::CSUM_INFO)).unwrap();
    i.csum_type = 1;
    i.csum_size = 32;
    assert_eq!((i.csum_type(), i.csum_size()), (1, 32));
}

#[test]
fn btrfs_magic() {
    assert!(is_btrfs_magic(0x9123683e));
    assert!(!is_btrfs_magic(0xef53));
}
