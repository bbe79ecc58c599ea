use libbtrfs::util::{parse_parent_and_name, set_vol_name};
use libbtrfs::{Error, ErrorKind};

#[test]
fn test_parsing_parent_and_name() {
    let (dir, name) = parse_parent_and_name(b"/foo");
    assert_eq!(b"/".as_slice(), dir.as_slice());
    assert_eq!(b"foo".as_slice(), name);

    let (dir, name) = parse_parent_and_name(b"/abc///");
    assert_eq!(b"/".as_slice(), dir.as_slice());
    assert_eq!(b"abc".as_slice(), name);

    let (dir, name) = parse_parent_and_name(b"/");
    assert_eq!(b"/".as_slice(), dir.as_slice());
    assert_eq!(b"".as_slice(), name);

    let (dir, name) = parse_parent_and_name(b"/a/b/c///");
    assert_eq!(b"/a/b".as_slice(), dir.as_slice());
    assert_eq!(b"c".as_slice(), name);

    let (dir, name) = parse_parent_and_name(b"a/b/c///");
    assert_eq!(b"a/b".as_slice(), dir.as_slice());
    assert_eq!(b"c".as_slice(), name);

    let (dir, name) = parse_parent_and_name(b"a/b/c///a/");
    assert_eq!(b"a/b/c//".as_slice(), dir.as_slice());
    assert_eq!(b"a".as_slice(), name);
}

#[test]
fn parent_of_a_bare_name_is_the_current_directory() {
    let (dir, name) = parse_parent_and_name(b"name");
    assert_eq!(b".".as_slice(), dir.as_slice());
    assert_eq!(b"name".as_slice(), name);
}

#[test]
fn vol_name_is_copied_into_the_buffer() {
    let mut dst = vec![7u8; 8];
    assert_eq!(set_vol_name(b"abc", &mut dst), Ok(()));
    assert_eq!(dst, vec![b'a', b'b', b'c', 7, 7, 7, 7, 7]);
}

#[test]
fn vol_name_with_zero_byte_is_refused() {
    let mut dst = vec![0u8; 8];
    assert_eq!(set_vol_name(b"a\0c", &mut dst), Err(Error::Kind(ErrorKind::InvalidInput)));
    assert_eq!(dst, vec![0u8; 8]);
}

#[test]
fn vol_name_needs_room_for_terminator() {
    let mut dst = vec![0u8; 4];
    assert_eq!(set_vol_name(b"abcd", &mut dst), Err(Error::Kind(ErrorKind::InvalidInput)));
    assert_eq!(set_vol_name(b"abc", &mut dst), Ok(()));
    assert_eq!(dst, vec![b'a', b'b', b'c', 0]);
}
