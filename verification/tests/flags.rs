use libbtrfs::{Error, Flags};

#[test]
fn flags_default_to_none() {
    assert_eq!(Flags::default().bits(), Flags::NONE);
}

#[test]
fn flags_contain_their_bits() {
    let f = Flags::from_bits_retain(Flags::GET_INFO).with(Flags::GET_PATH);
    assert_eq!(f.bits(), 0x6);
    assert!(f.contains(Flags::GET_INFO));
    assert!(f.contains(Flags::GET_PATH));
    assert!(!f.contains(Flags::DESCENDING));
    assert!(f.contains(Flags::ASCENDING));
}

#[test]
fn fs_info_flags_translate() {
    let f = Flags::from_bits_retain(Flags::CSUM_INFO | Flags::GENERATION | Flags::METADATA_UUID);
    assert_eq!(f.to_raw_fs_info_flags(), Ok(0x7));
    assert_eq!(Flags::from_bits_retain(0).to_raw_fs_info_flags(), Ok(0));
    assert_eq!(
        Flags::from_bits_retain(Flags::NO_FILE_DATA).to_raw_fs_info_flags(),
        Err(Error::InvalidFlags(Flags::NO_FILE_DATA))
    );
}

#[test]
fn send_flags_translate() {
    let f = Flags::from_bits_retain(Flags::NO_FILE_DATA | Flags::COMPRESSED);
    assert_eq!(f.to_raw_send_flags(), Ok(0x1 | 0x10));
    let f = Flags::from_bits_retain(Flags::OMIT_STREAM_HEADER | Flags::OMIT_END_CMD | Flags::VERSION);
    assert_eq!(f.to_raw_send_flags(), Ok(0x2 | 0x4 | 0x8));
    assert_eq!(
        Flags::from_bits_retain(Flags::GET_INFO | Flags::VERSION).to_raw_send_flags(),
        Err(Error::InvalidFlags(Flags::GET_INFO))
    );
}

#[test]
fn invalid_bits_are_reported() {
    let f = Flags::from_bits_retain(0x3);
    assert_eq!(f.check_invalid(0x1), Err(Error::InvalidFlags(0x2)));
    assert_eq!(f.check_invalid(0x3), Ok(()));
}
