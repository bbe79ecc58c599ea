use libbtrfs::bytes::Uuid;
use libbtrfs::send_stream::command::{
    ChmodCmd, ChownCmd, CloneCmd, EncodedWriteCmd, EndCmd, FallocateCmd, FileattrCmd, LinkCmd,
    MkdirCmd, MkfifoCmd, MkfileCmd, MknodCmd, MksockCmd, RemoveXattrCmd, RenameCmd, RmdirCmd,
    SendCmd, SendDataCmd, SetXattrCmd, SnapshotCmd, SubvolCmd, SymlinkCmd, Timespec, TruncateCmd,
    UnlinkCmd, UpdateExtentCmd, UtimesCmd, WriteCmd,
};
use libbtrfs::send_stream::crc::checksum;
use libbtrfs::send_stream::handler::{parse_command, Command, StreamHandler};
use libbtrfs::send_stream::receive::{
    xattr_falls_back,
    push_decimal, xattr_fallback_base, xattr_fallback_fd_base, xattr_fallback_path, xattr_name_buf,
    ReceiveContext, XATTR_NAME_MAX,
};
use libbtrfs::send_stream::stream::{parse_cmd_header, parse_stream_header, CmdHeader, SendStream};
use libbtrfs::send_stream::send::SendBuilder;
use libbtrfs::send_stream::tlv::SendAttr;
use libbtrfs::{Error, ErrorKind, IoResult, ReceiveError};

fn tlv(ty: u16, val: &[u8]) -> Vec<u8> {
    let mut v = Vec::new();
    v.extend_from_slice(&ty.to_le_bytes());
    v.extend_from_slice(&(val.len() as u16).to_le_bytes());
    v.extend_from_slice(val);
    v
}

fn cat(parts: &[Vec<u8>]) -> Vec<u8> {
    parts.concat()
}

fn header(cmd: u16, payload: &[u8]) -> Vec<u8> {
    let mut h = Vec::new();
    h.extend_from_slice(&(payload.len() as u32).to_le_bytes());
    h.extend_from_slice(&cmd.to_le_bytes());
    h.extend_from_slice(&[0, 0, 0, 0]);
    let mut all = h.clone();
    all.extend_from_slice(payload);
    let crc = checksum(&all);
    h[6..10].copy_from_slice(&crc.to_le_bytes());
    h
}

fn stream_header(version: u32) -> Vec<u8> {
    let mut h = b"btrfs-stream\0".to_vec();
    h.extend_from_slice(&version.to_le_bytes());
    h
}

#[test]
fn check_crc32_params() {
    assert_eq!(checksum(b"123456789"), 0x58E3FA20);
}

#[test]
fn check_btrfs_send_crc32_parms() {
    assert_eq!(checksum(b"123456789"), 0x58E3FA20);
}

#[test]
fn checksum_of_nothing_is_zero() {
    assert_eq!(checksum(b""), 0);
}

#[test]
fn stream_header_gives_version() {
    assert_eq!(parse_stream_header(&stream_header(1)), Ok(1));
    assert_eq!(parse_stream_header(&stream_header(2)), Ok(2));
}

#[test]
fn stream_header_with_bad_magic_is_refused() {
    let mut h = stream_header(1);
    h[0] = b'B';
    assert_eq!(parse_stream_header(&h), Err(Error::Receive(ReceiveError::UnexpectedHeader)));
}

#[test]
fn stream_header_with_newer_version_is_refused() {
    assert_eq!(
        parse_stream_header(&stream_header(3)),
        Err(Error::Receive(ReceiveError::UnsupportedVersion))
    );
}

#[test]
fn cmd_header_fields() {
    let h = [5u8, 0, 0, 0, 3, 0, 0x78, 0x56, 0x34, 0x12];
    assert_eq!(parse_cmd_header(&h), CmdHeader { length: 5, command: 3, checksum: 0x12345678 });
}

#[test]
fn stream_reads_header_then_commands() {
    let mut s = SendStream::new();
    assert_eq!(s.version(), 0);
    assert_eq!(s.stream_pos(), 0);
    s.read_header(&stream_header(2)).unwrap();
    assert_eq!(s.version(), 2);
    assert_eq!(s.stream_pos(), 17);

    let payload = cat(&[tlv(15, b"file"), tlv(3, &7u64.to_le_bytes())]);
    let hdr = header(3, &payload);
    assert_eq!(s.read_cmd(&hdr, &payload), Ok(false));
    assert_eq!(s.command(), 3);
    assert_eq!(s.data(), payload.as_slice());
    assert_eq!(s.stream_pos(), 17 + 10 + payload.len() as u64);
}

#[test]
fn stream_refuses_command_with_bad_checksum() {
    let mut s = SendStream::new();
    let payload = tlv(15, b"file");
    let mut hdr = header(11, &payload);
    hdr[6] ^= 1;
    assert_eq!(s.read_cmd(&hdr, &payload), Err(Error::Receive(ReceiveError::CrcMismatch)));
    assert_eq!(s.stream_pos(), 0);
    assert_eq!(s.command(), 0);
}

#[test]
fn stream_position_is_published_every_4mib() {
    let mut s = SendStream::new();
    let data = vec![0u8; 65000];
    let payload = tlv(19, &data[..65000]);
    let hdr = header(15, &payload);
    let step = 10 + payload.len() as u64;
    let mut published = 0;
    let mut pos = 0u64;
    for _ in 0..70 {
        let crossed = s.read_cmd(&hdr, &payload).unwrap();
        let next = pos + step;
        assert_eq!(crossed, pos / (4 << 20) != next / (4 << 20));
        if crossed {
            published += 1;
        }
        pos = next;
    }
    assert_eq!(s.stream_pos(), 70 * step);
    assert_eq!(published, 1);
}

#[test]
fn mkfile_command_is_parsed() {
    let payload = cat(&[tlv(15, b"a/b"), tlv(3, &257u64.to_le_bytes())]);
    let c = MkfileCmd::parse_tlv(&payload).unwrap();
    assert_eq!(c.path, b"a/b");
    assert_eq!(c.ino, 257);
}

#[test]
fn attributes_may_come_in_any_order_and_unknown_ones_are_skipped() {
    let payload = cat(&[
        tlv(3, &9u64.to_le_bytes()),
        tlv(30, b"zz"),
        tlv(15, b"dir"),
    ]);
    let c = MkdirCmd::parse_tlv(&payload).unwrap();
    assert_eq!(c.path, b"dir");
    assert_eq!(c.ino, 9);
}

#[test]
fn missing_attribute_is_reported() {
    let payload = tlv(15, b"file");
    assert_eq!(
        MkfileCmd::parse_tlv(&payload).err(),
        Some(Error::Receive(ReceiveError::MissingAttributes))
    );
}

#[test]
fn truncated_attribute_is_reported() {
    let mut payload = tlv(15, b"file");
    payload.truncate(6);
    assert_eq!(
        UnlinkCmd::parse_tlv(&payload).err(),
        Some(Error::Receive(ReceiveError::Truncated))
    );
}

#[test]
fn integer_of_wrong_length_is_reported() {
    let payload = cat(&[tlv(15, b"f"), tlv(5, &[1, 2, 3, 4])]);
    assert_eq!(
        ChmodCmd::parse_tlv(&payload).err(),
        Some(Error::Receive(ReceiveError::InvalidIntLength))
    );
}

#[test]
fn uuid_of_wrong_length_is_reported() {
    let payload = cat(&[tlv(15, b"sv"), tlv(2, &1u64.to_le_bytes()), tlv(1, &[0u8; 15])]);
    assert_eq!(
        SubvolCmd::parse_tlv(&payload).err(),
        Some(Error::Receive(ReceiveError::InvalidUuidLength))
    );
}

#[test]
fn timespec_of_wrong_length_is_reported() {
    let t = [0u8; 12];
    let payload = cat(&[tlv(15, b"f"), tlv(11, &t), tlv(10, &t), tlv(9, &t[..11])]);
    assert_eq!(
        UtimesCmd::parse_tlv(&payload).err(),
        Some(Error::Receive(ReceiveError::InvalidTimespecLength))
    );
}

#[test]
fn subvol_command_is_parsed() {
    let uuid: Vec<u8> = (1..=16).collect();
    let payload = cat(&[tlv(15, b"sv"), tlv(2, &42u64.to_le_bytes()), tlv(1, &uuid)]);
    let c = SubvolCmd::parse_tlv(&payload).unwrap();
    assert_eq!(c.path, b"sv");
    assert_eq!(c.ctransid, 42);
    assert_eq!(c.uuid.into_bytes().to_vec(), uuid);
}

#[test]
fn snapshot_command_is_parsed() {
    let uuid = [1u8; 16];
    let clone_uuid = [2u8; 16];
    let payload = cat(&[
        tlv(15, b"snap"),
        tlv(1, &uuid),
        tlv(2, &5u64.to_le_bytes()),
        tlv(20, &clone_uuid),
        tlv(21, &6u64.to_le_bytes()),
    ]);
    let c = SnapshotCmd::parse_tlv(&payload).unwrap();
    assert_eq!(c.path, b"snap");
    assert_eq!(c.uuid.into_bytes(), uuid);
    assert_eq!(c.ctransid, 5);
    assert_eq!(c.clone_uuid.into_bytes(), clone_uuid);
    assert_eq!(c.clone_ctransid, 6);
}

#[test]
fn utimes_command_is_parsed() {
    let mut a = Vec::new();
    a.extend_from_slice(&100u64.to_le_bytes());
    a.extend_from_slice(&7u32.to_le_bytes());
    let mut m = Vec::new();
    m.extend_from_slice(&200u64.to_le_bytes());
    m.extend_from_slice(&8u32.to_le_bytes());
    let mut c = Vec::new();
    c.extend_from_slice(&300u64.to_le_bytes());
    c.extend_from_slice(&9u32.to_le_bytes());
    let payload = cat(&[tlv(15, b"f"), tlv(11, &a), tlv(10, &m), tlv(9, &c)]);
    let u = UtimesCmd::parse_tlv(&payload).unwrap();
    assert_eq!(u.atime, Timespec { tv_sec: 100, tv_nsec: 7 });
    assert_eq!(u.mtime, Timespec { tv_sec: 200, tv_nsec: 8 });
    assert_eq!(u.ctime, Timespec { tv_sec: 300, tv_nsec: 9 });
}

#[test]
fn the_last_of_repeated_attributes_counts() {
    let payload = cat(&[tlv(15, b"first"), tlv(15, b"second")]);
    let c = RmdirCmd::parse_tlv(&payload).unwrap();
    assert_eq!(c.path, b"second");
}

#[test]
fn write_command_version_1_and_2() {
    let v1 = cat(&[tlv(15, b"f"), tlv(18, &4096u64.to_le_bytes()), tlv(19, b"data")]);
    let w = WriteCmd::parse_tlv(&v1).unwrap();
    assert_eq!(w.path, b"f");
    assert_eq!(w.file_offset, 4096);
    assert_eq!(w.data, b"data");

    let mut v2 = cat(&[tlv(15, b"f"), tlv(18, &8192u64.to_le_bytes())]);
    v2.extend_from_slice(&19u16.to_le_bytes());
    v2.extend_from_slice(b"all the rest");
    let w = WriteCmd::parse_tlv_v2(&v2).unwrap();
    assert_eq!(w.path, b"f");
    assert_eq!(w.file_offset, 8192);
    assert_eq!(w.data, b"all the rest");
}

#[test]
fn encoded_write_command_is_parsed() {
    let mut p = cat(&[
        tlv(15, b"f"),
        tlv(18, &1u64.to_le_bytes()),
        tlv(27, &2u64.to_le_bytes()),
        tlv(28, &3u64.to_le_bytes()),
        tlv(29, &4u64.to_le_bytes()),
        tlv(30, &5u32.to_le_bytes()),
    ]);
    p.extend_from_slice(&19u16.to_le_bytes());
    p.extend_from_slice(b"zstd");
    let e = EncodedWriteCmd::parse_tlv_v2(&p).unwrap();
    assert_eq!(e.path, b"f");
    assert_eq!(e.file_offset, 1);
    assert_eq!(e.unencoded_file_len, 2);
    assert_eq!(e.unencoded_len, 3);
    assert_eq!(e.unencoded_offset, 4);
    assert_eq!(e.compression, Some(5));
    assert_eq!(e.encryption, None);
    assert_eq!(e.data, b"zstd");
}

#[test]
fn unknown_command_is_refused() {
    assert_eq!(
        parse_command(99, &[], 1).err(),
        Some(Error::Receive(ReceiveError::UnexpectedCommand))
    );
}

#[test]
fn parse_command_picks_the_command() {
    let payload = cat(&[tlv(15, b"x"), tlv(6, &1u64.to_le_bytes()), tlv(7, &2u64.to_le_bytes())]);
    match parse_command(19, &payload, 1).unwrap() {
        Command::Chown(c) => {
            assert_eq!(c.path, b"x");
            assert_eq!(c.uid, 1);
            assert_eq!(c.gid, 2);
        }
        _ => panic!("wrong command"),
    }
    assert!(matches!(parse_command(21, &[], 1).unwrap(), Command::End(EndCmd)));
}

#[derive(Default)]
struct Recorder {
    calls: Vec<String>,
}

impl StreamHandler for Recorder {
    fn subvol(&mut self, c: SubvolCmd<'_>) -> IoResult<Option<()>> {
        self.calls.push(format!("subvol {}", String::from_utf8_lossy(c.path)));
        Ok(Some(()))
    }
    fn snapshot(&mut self, _: SnapshotCmd<'_>) -> IoResult<Option<()>> {
        self.calls.push("snapshot".into());
        Ok(Some(()))
    }
    fn mkfile(&mut self, c: MkfileCmd<'_>) -> IoResult<Option<()>> {
        self.calls.push(format!("mkfile {} {}", String::from_utf8_lossy(c.path), c.ino));
        Ok(Some(()))
    }
    fn mkdir(&mut self, _: MkdirCmd<'_>) -> IoResult<Option<()>> {
        self.calls.push("mkdir".into());
        Ok(Some(()))
    }
    fn mknod(&mut self, _: MknodCmd<'_>) -> IoResult<Option<()>> {
        self.calls.push("mknod".into());
        Ok(Some(()))
    }
    fn mkfifo(&mut self, _: MkfifoCmd<'_>) -> IoResult<Option<()>> {
        self.calls.push("mkfifo".into());
        Ok(Some(()))
    }
    fn mksock(&mut self, _: MksockCmd<'_>) -> IoResult<Option<()>> {
        self.calls.push("mksock".into());
        Ok(Some(()))
    }
    fn symlink(&mut self, _: SymlinkCmd<'_>) -> IoResult<Option<()>> {
        self.calls.push("symlink".into());
        Ok(Some(()))
    }
    fn rename(&mut self, c: RenameCmd<'_>) -> IoResult<Option<()>> {
        self.calls.push(format!(
            "rename {} {}",
            String::from_utf8_lossy(c.path),
            String::from_utf8_lossy(c.path_to)
        ));
        Ok(Some(()))
    }
    fn link(&mut self, _: LinkCmd<'_>) -> IoResult<Option<()>> {
        self.calls.push("link".into());
        Ok(Some(()))
    }
    fn unlink(&mut self, _: UnlinkCmd<'_>) -> IoResult<Option<()>> {
        self.calls.push("unlink".into());
        Ok(Some(()))
    }
    fn rmdir(&mut self, _: RmdirCmd<'_>) -> IoResult<Option<()>> {
        self.calls.push("rmdir".into());
        Ok(Some(()))
    }
    fn set_xattr(&mut self, _: SetXattrCmd<'_>) -> IoResult<Option<()>> {
        self.calls.push("set_xattr".into());
        Ok(Some(()))
    }
    fn remove_xattr(&mut self, _: RemoveXattrCmd<'_>) -> IoResult<Option<()>> {
        self.calls.push("remove_xattr".into());
        Ok(Some(()))
    }
    fn write(&mut self, c: WriteCmd<'_>) -> IoResult<Option<()>> {
        self.calls.push(format!("write {} {}", c.file_offset, c.data.len()));
        Ok(Some(()))
    }
    fn clone(&mut self, _: CloneCmd<'_>) -> IoResult<Option<()>> {
        self.calls.push("clone".into());
        Ok(Some(()))
    }
    fn truncate(&mut self, _: TruncateCmd<'_>) -> IoResult<Option<()>> {
        self.calls.push("truncate".into());
        Ok(Some(()))
    }
    fn chmod(&mut self, c: ChmodCmd<'_>) -> IoResult<Option<()>> {
        self.calls.push(format!("chmod {} {:o}", String::from_utf8_lossy(c.path), c.mode));
        Ok(Some(()))
    }
    fn chown(&mut self, _: ChownCmd<'_>) -> IoResult<Option<()>> {
        self.calls.push("chown".into());
        Ok(Some(()))
    }
    fn utimes(&mut self, _: UtimesCmd<'_>) -> IoResult<Option<()>> {
        self.calls.push("utimes".into());
        Ok(Some(()))
    }
    fn end(&mut self, _: EndCmd) -> IoResult<Option<()>> {
        self.calls.push("end".into());
        Ok(None)
    }
    fn update_extent(&mut self, _: UpdateExtentCmd<'_>) -> IoResult<Option<()>> {
        self.calls.push("update_extent".into());
        Ok(Some(()))
    }
    fn fallocate(&mut self, _: FallocateCmd<'_>) -> IoResult<Option<()>> {
        self.calls.push("fallocate".into());
        Ok(Some(()))
    }
    fn fileattr(&mut self, _: FileattrCmd<'_>) -> IoResult<Option<()>> {
        self.calls.push("fileattr".into());
        Ok(Some(()))
    }
    fn encoded_write(&mut self, _: EncodedWriteCmd<'_>) -> IoResult<Option<()>> {
        self.calls.push("encoded_write".into());
        Ok(Some(()))
    }
}

#[test]
fn handler_gets_each_command() {
    let mut h = Recorder::default();
    let uuid = [3u8; 16];
    let subvol = cat(&[tlv(15, b"vol"), tlv(2, &1u64.to_le_bytes()), tlv(1, &uuid)]);
    assert_eq!(h.handle_cmd(1, &subvol, 1), Ok(Some(())));
    let mkfile = cat(&[tlv(15, b"f"), tlv(3, &300u64.to_le_bytes())]);
    assert_eq!(h.handle_cmd(3, &mkfile, 1), Ok(Some(())));
    let rename = cat(&[tlv(15, b"f"), tlv(16, b"g")]);
    assert_eq!(h.handle_cmd(9, &rename, 1), Ok(Some(())));
    let mut write = cat(&[tlv(15, b"g"), tlv(18, &16u64.to_le_bytes())]);
    write.extend_from_slice(&19u16.to_le_bytes());
    write.extend_from_slice(b"12345");
    assert_eq!(h.handle_cmd(15, &write, 2), Ok(Some(())));
    assert_eq!(h.handle_cmd(21, &[], 2), Ok(None));
    assert_eq!(
        h.calls,
        vec!["subvol vol", "mkfile f 300", "rename f g", "write 16 5", "end"]
    );
}

#[test]
fn handler_reports_parse_errors_without_calling() {
    let mut h = Recorder::default();
    assert_eq!(
        h.handle_cmd(3, &tlv(15, b"f"), 1),
        Err(Error::Receive(ReceiveError::MissingAttributes))
    );
    assert_eq!(h.handle_cmd(0, &[], 1), Err(Error::Receive(ReceiveError::UnexpectedCommand)));
    assert!(h.calls.is_empty());
}

#[test]
fn send_attr_validity() {
    assert!(!SendAttr::is_valid(SendAttr::UNSPEC));
    assert!(SendAttr::is_valid(SendAttr::PATH));
    assert!(SendAttr::is_valid(35));
    assert!(!SendAttr::is_valid(SendAttr::LEN));
}

#[test]
fn receive_context_writes_paths_below_the_subvolume() {
    let mut ctx = ReceiveContext::new();
    assert_eq!(ctx.current_subvol(), b"");
    ctx.begin_subvol(b"vol", Uuid::from_bytes([9; 16]), 12, 1, 2).unwrap();
    assert_eq!(ctx.current_subvol(), b"vol/");
    ctx.set_path(b"a/b").unwrap();
    assert_eq!(&ctx.primary()[..8], b"vol/a/b\0");
    ctx.set_path_secondary(b"c").unwrap();
    assert_eq!(&ctx.secondary()[..6], b"vol/c\0");
    let args = ctx.received_args();
    assert_eq!(args.uuid.into_bytes(), [9; 16]);
    assert_eq!(args.stransid, 12);
    assert_eq!((args.stime_sec, args.stime_nsec), (1, 2));
    assert!(ctx.uuid_is_current(&Uuid::from_bytes([9; 16])));
    assert!(!ctx.uuid_is_current(&Uuid::from_bytes([8; 16])));
    assert_eq!(ctx.end_subvol().unwrap(), b"vol/".to_vec());
    assert_eq!(ctx.current_subvol(), b"");
    ctx.clear_received();
    assert_eq!(ctx.received_args().stransid, 0);
}

#[test]
fn receive_context_keeps_a_trailing_slash() {
    let mut ctx = ReceiveContext::new();
    ctx.begin_subvol(b"vol/", Uuid::from_bytes([0; 16]), 0, 0, 0).unwrap();
    assert_eq!(ctx.current_subvol(), b"vol/");
}

#[test]
fn second_subvolume_before_end_is_refused() {
    let mut ctx = ReceiveContext::new();
    ctx.begin_subvol(b"a", Uuid::from_bytes([0; 16]), 0, 0, 0).unwrap();
    assert_eq!(
        ctx.begin_subvol(b"b", Uuid::from_bytes([0; 16]), 0, 0, 0),
        Err(Error::Receive(ReceiveError::StreamInvalid))
    );
    assert_eq!(ctx.current_subvol(), b"a/");
}

#[test]
fn end_without_subvolume_is_refused() {
    let mut ctx = ReceiveContext::new();
    assert_eq!(ctx.end_subvol(), Err(Error::Receive(ReceiveError::InvalidStream)));
}

#[test]
fn too_long_path_is_refused() {
    let mut ctx = ReceiveContext::new();
    ctx.begin_subvol(b"v", Uuid::from_bytes([0; 16]), 0, 0, 0).unwrap();
    let long = vec![b'x'; 4094];
    assert_eq!(ctx.set_path(&long), Err(Error::Os(36)));
    let fits = vec![b'x'; 4093];
    assert_eq!(ctx.set_path(&fits), Ok(()));
}

#[test]
fn xattr_names() {
    let buf = xattr_name_buf(b"user.a").unwrap();
    assert_eq!(buf.len(), XATTR_NAME_MAX + 1);
    assert_eq!(&buf[..7], b"user.a\0");
    assert_eq!(
        xattr_name_buf(&[b'a'; 256]),
        Err(Error::Receive(ReceiveError::XattrNameTooLong))
    );
    assert!(xattr_name_buf(&[b'a'; 255]).is_ok());
}

#[test]
fn xattr_fallback_paths() {
    assert_eq!(xattr_fallback_base(b"/mnt"), b"/mnt/".to_vec());
    assert_eq!(xattr_fallback_base(b"/mnt/"), b"/mnt/".to_vec());
    assert_eq!(xattr_fallback_path(b"/mnt/", b"vol/", b"f"), b"/mnt/vol/f\0".to_vec());
}

#[test]
fn receive_error_messages() {
    assert_eq!(ReceiveError::CrcMismatch.message(), "crc mismatch in command");
    assert_eq!(ReceiveError::UnexpectedCommand.message(), "UNEXPECTED COMMAND");
}

#[test]
fn fallback_base_of_an_open_directory() {
    assert_eq!(xattr_fallback_fd_base(3), b"/proc/self/fd/3/".to_vec());
    assert_eq!(xattr_fallback_fd_base(1024), b"/proc/self/fd/1024/".to_vec());
    let mut v = b"x".to_vec();
    push_decimal(&mut v, 0);
    push_decimal(&mut v, 18446744073709551615);
    assert_eq!(v, b"x018446744073709551615".to_vec());
}

#[test]
fn xattr_call_falls_back_only_on_enosys() {
    assert!(xattr_falls_back(&Error::Os(38)));
    assert!(!xattr_falls_back(&Error::Os(95)));
    assert!(!xattr_falls_back(&Error::Kind(ErrorKind::NotFound)));
}

#[test]
fn receive_context_takes_a_full_length_path_ending_in_slash() {
    let mut ctx = ReceiveContext::new();
    let mut path = vec![b'a'; libbtrfs::consts::PATH_MAX - 1];
    path.push(b'/');
    ctx.begin_subvol(&path, Uuid::from_bytes([0; 16]), 0, 0, 0).unwrap();
    assert_eq!(ctx.current_subvol(), path.as_slice());
}

#[test]
fn handler_dispatches_chmod_and_leaves_errors_unhandled() {
    let mut h = Recorder::default();
    let chmod = [0x0f, 0, 1, 0, 0x61, 5, 0, 8, 0, 0xed, 1, 0, 0, 0, 0, 0, 0];
    assert_eq!(h.handle_cmd(18, &chmod, 1), Ok(Some(())));
    assert_eq!(h.calls, vec!["chmod a 755".to_string()]);
    assert_eq!(
        h.handle_cmd(18, &[0x0f, 0, 5, 0, 0x61], 1),
        Err(Error::Receive(ReceiveError::Truncated))
    );
    assert_eq!(h.calls.len(), 1);
}

#[test]
fn send_builder_hands_back_its_source_and_handler() {
    let b = SendBuilder::new(41u32, 2, 9).handler("recv").buffered(true).no_file_data(true);
    assert!(b.has_handler());
    let (source, handler, buffered, args) = b.into_parts();
    assert_eq!(source, 41);
    assert_eq!(handler, Some("recv"));
    assert!(buffered);
    assert_eq!(args.send_fd, 9);
    assert_eq!(args.version, 2);
}
