//! Module for handling send commands.
use super::command::{
    ChmodCmd, ChownCmd, CloneCmd, EncodedWriteCmd, EndCmd, FallocateCmd, FileattrCmd, LinkCmd, MkdirCmd, MkfifoCmd, MkfileCmd, MknodCmd, MksockCmd, RemoveXattrCmd, RenameCmd, RmdirCmd, SendCmd, SendDataCmd, SetXattrCmd, SnapshotCmd, SubvolCmd, SymlinkCmd, TruncateCmd, UnlinkCmd, UpdateExtentCmd, UtimesCmd, WriteCmd,
};
use super::tlv::{scan_v2_panics, AttrKind};
use crate::consts;
use crate::error::{Error, IoResult, ReceiveError};
use vstd::prelude::*;

verus! {

/// A parsed send command.
pub enum Command<'a> {
    Subvol(SubvolCmd<'a>),
    Snapshot(SnapshotCmd<'a>),
    Mkfile(MkfileCmd<'a>),
    Mkdir(MkdirCmd<'a>),
    Mknod(MknodCmd<'a>),
    Mkfifo(MkfifoCmd<'a>),
    Mksock(MksockCmd<'a>),
    Symlink(SymlinkCmd<'a>),
    Rename(RenameCmd<'a>),
    Link(LinkCmd<'a>),
    Unlink(UnlinkCmd<'a>),
    Rmdir(RmdirCmd<'a>),
    SetXattr(SetXattrCmd<'a>),
    RemoveXattr(RemoveXattrCmd<'a>),
    Write(WriteCmd<'a>),
    Clone(CloneCmd<'a>),
    Truncate(TruncateCmd<'a>),
    Chmod(ChmodCmd<'a>),
    Chown(ChownCmd<'a>),
    Utimes(UtimesCmd<'a>),
    End(EndCmd),
    UpdateExtent(UpdateExtentCmd<'a>),
    Fallocate(FallocateCmd<'a>),
    Fileattr(FileattrCmd<'a>),
    EncodedWrite(EncodedWriteCmd<'a>),
}

/// Whether a command with id `cmd`, payload `p` and stream version `version` may be parsed.
///
/// An encoded write only exists in version 2 streams, and in a version 2 data command an
/// attribute type may not stand at the end of the payload without its length.
pub open spec fn cmd_parse_requires(cmd: u16, p: Seq<u8>, version: u32) -> bool {
    &&& (cmd == 15 && version == 2) ==> WriteCmd::parse_v2_requires(p)
    &&& cmd == 25 ==> version == 2 && EncodedWriteCmd::parse_v2_requires(p)
}

/// The error that parsing a command with id `cmd`, payload `p` and stream version `version`
/// reports, if it fails.
pub open spec fn cmd_parse_error(cmd: u16, p: Seq<u8>, version: u32) -> Option<ReceiveError> {
    if cmd == 1 {
        SubvolCmd::spec_parse_error(p)
    } else if cmd == 2 {
        SnapshotCmd::spec_parse_error(p)
    } else if cmd == 3 {
        MkfileCmd::spec_parse_error(p)
    } else if cmd == 4 {
        MkdirCmd::spec_parse_error(p)
    } else if cmd == 5 {
        MknodCmd::spec_parse_error(p)
    } else if cmd == 6 {
        MkfifoCmd::spec_parse_error(p)
    } else if cmd == 7 {
        MksockCmd::spec_parse_error(p)
    } else if cmd == 8 {
        SymlinkCmd::spec_parse_error(p)
    } else if cmd == 9 {
        RenameCmd::spec_parse_error(p)
    } else if cmd == 10 {
        LinkCmd::spec_parse_error(p)
    } else if cmd == 11 {
        UnlinkCmd::spec_parse_error(p)
    } else if cmd == 12 {
        RmdirCmd::spec_parse_error(p)
    } else if cmd == 13 {
        SetXattrCmd::spec_parse_error(p)
    } else if cmd == 14 {
        RemoveXattrCmd::spec_parse_error(p)
    } else if cmd == 15 {
        if version == 2 { WriteCmd::spec_parse_v2_error(p) } else { WriteCmd::spec_parse_error(p) }
    } else if cmd == 16 {
        CloneCmd::spec_parse_error(p)
    } else if cmd == 17 {
        TruncateCmd::spec_parse_error(p)
    } else if cmd == 18 {
        ChmodCmd::spec_parse_error(p)
    } else if cmd == 19 {
        ChownCmd::spec_parse_error(p)
    } else if cmd == 20 {
        UtimesCmd::spec_parse_error(p)
    } else if cmd == 21 {
        EndCmd::spec_parse_error(p)
    } else if cmd == 22 {
        UpdateExtentCmd::spec_parse_error(p)
    } else if cmd == 23 {
        FallocateCmd::spec_parse_error(p)
    } else if cmd == 24 {
        FileattrCmd::spec_parse_error(p)
    } else if cmd == 25 {
        if version == 2 { EncodedWriteCmd::spec_parse_v2_error(p) } else { EncodedWriteCmd::spec_parse_error(p) }
    } else {
        Some(ReceiveError::UnexpectedCommand)
    }
}

/// Whether `c` is the command with id `cmd` that payload `p` of a stream of version `version`
/// holds.
pub open spec fn cmd_parsed(cmd: u16, p: Seq<u8>, version: u32, c: Command) -> bool {
    match c {
        Command::Subvol(c) => cmd == 1 && SubvolCmd::spec_parsed(p, c),
        Command::Snapshot(c) => cmd == 2 && SnapshotCmd::spec_parsed(p, c),
        Command::Mkfile(c) => cmd == 3 && MkfileCmd::spec_parsed(p, c),
        Command::Mkdir(c) => cmd == 4 && MkdirCmd::spec_parsed(p, c),
        Command::Mknod(c) => cmd == 5 && MknodCmd::spec_parsed(p, c),
        Command::Mkfifo(c) => cmd == 6 && MkfifoCmd::spec_parsed(p, c),
        Command::Mksock(c) => cmd == 7 && MksockCmd::spec_parsed(p, c),
        Command::Symlink(c) => cmd == 8 && SymlinkCmd::spec_parsed(p, c),
        Command::Rename(c) => cmd == 9 && RenameCmd::spec_parsed(p, c),
        Command::Link(c) => cmd == 10 && LinkCmd::spec_parsed(p, c),
        Command::Unlink(c) => cmd == 11 && UnlinkCmd::spec_parsed(p, c),
        Command::Rmdir(c) => cmd == 12 && RmdirCmd::spec_parsed(p, c),
        Command::SetXattr(c) => cmd == 13 && SetXattrCmd::spec_parsed(p, c),
        Command::RemoveXattr(c) => cmd == 14 && RemoveXattrCmd::spec_parsed(p, c),
        Command::Write(c) => cmd == 15 && if version == 2 { WriteCmd::spec_parsed_v2(p, c) } else { WriteCmd::spec_parsed(p, c) },
        Command::Clone(c) => cmd == 16 && CloneCmd::spec_parsed(p, c),
        Command::Truncate(c) => cmd == 17 && TruncateCmd::spec_parsed(p, c),
        Command::Chmod(c) => cmd == 18 && ChmodCmd::spec_parsed(p, c),
        Command::Chown(c) => cmd == 19 && ChownCmd::spec_parsed(p, c),
        Command::Utimes(c) => cmd == 20 && UtimesCmd::spec_parsed(p, c),
        Command::End(c) => cmd == 21 && EndCmd::spec_parsed(p, c),
        Command::UpdateExtent(c) => cmd == 22 && UpdateExtentCmd::spec_parsed(p, c),
        Command::Fallocate(c) => cmd == 23 && FallocateCmd::spec_parsed(p, c),
        Command::Fileattr(c) => cmd == 24 && FileattrCmd::spec_parsed(p, c),
        Command::EncodedWrite(c) => cmd == 25 && if version == 2 { EncodedWriteCmd::spec_parsed_v2(p, c) } else { EncodedWriteCmd::spec_parsed(p, c) },
    }
}

/// Parses the payload `data` of the command with id `cmd` in a stream of version `version`.
pub fn parse_command<'a>(cmd: u16, data: &'a [u8], version: u32) -> (r: IoResult<Command<'a>>)
    requires
        cmd_parse_requires(cmd, data@, version),
    ensures
        r matches Ok(c) ==> cmd_parse_error(cmd, data@, version) is None && cmd_parsed(
            cmd,
            data@,
            version,
            c,
        ),
        r matches Err(e) ==> cmd_parse_error(cmd, data@, version) matches Some(re) && e
            == Error::Receive(re),
{
    match cmd {
        1 => Ok(Command::Subvol(SubvolCmd::parse_tlv(data)?)),
        2 => Ok(Command::Snapshot(SnapshotCmd::parse_tlv(data)?)),
        3 => Ok(Command::Mkfile(MkfileCmd::parse_tlv(data)?)),
        4 => Ok(Command::Mkdir(MkdirCmd::parse_tlv(data)?)),
        5 => Ok(Command::Mknod(MknodCmd::parse_tlv(data)?)),
        6 => Ok(Command::Mkfifo(MkfifoCmd::parse_tlv(data)?)),
        7 => Ok(Command::Mksock(MksockCmd::parse_tlv(data)?)),
        8 => Ok(Command::Symlink(SymlinkCmd::parse_tlv(data)?)),
        9 => Ok(Command::Rename(RenameCmd::parse_tlv(data)?)),
        10 => Ok(Command::Link(LinkCmd::parse_tlv(data)?)),
        11 => Ok(Command::Unlink(UnlinkCmd::parse_tlv(data)?)),
        12 => Ok(Command::Rmdir(RmdirCmd::parse_tlv(data)?)),
        13 => Ok(Command::SetXattr(SetXattrCmd::parse_tlv(data)?)),
        14 => Ok(Command::RemoveXattr(RemoveXattrCmd::parse_tlv(data)?)),
        15 => Ok(if version == 2 { Command::Write(WriteCmd::parse_tlv_v2(data)?) } else { Command::Write(WriteCmd::parse_tlv(data)?) }),
        16 => Ok(Command::Clone(CloneCmd::parse_tlv(data)?)),
        17 => Ok(Command::Truncate(TruncateCmd::parse_tlv(data)?)),
        18 => Ok(Command::Chmod(ChmodCmd::parse_tlv(data)?)),
        19 => Ok(Command::Chown(ChownCmd::parse_tlv(data)?)),
        20 => Ok(Command::Utimes(UtimesCmd::parse_tlv(data)?)),
        21 => Ok(Command::End(EndCmd::parse_tlv(data)?)),
        22 => Ok(Command::UpdateExtent(UpdateExtentCmd::parse_tlv(data)?)),
        23 => Ok(Command::Fallocate(FallocateCmd::parse_tlv(data)?)),
        24 => Ok(Command::Fileattr(FileattrCmd::parse_tlv(data)?)),
        25 => Ok(Command::EncodedWrite(EncodedWriteCmd::parse_tlv_v2(data)?)),
        _ => Err(Error::Receive(ReceiveError::UnexpectedCommand)),
    }
}

/// Whether the command with id `cmd` and payload `data`, in a stream of version `version`, may
/// be parsed: see [`cmd_parse_requires`].
pub fn parse_allowed(cmd: u16, data: &[u8], version: u32) -> (r: bool)
    ensures
        r == cmd_parse_requires(cmd, data@, version),
{
    if cmd == 15 && version == 2 {
        let schema = [(15u16, AttrKind::Bytes), (18u16, AttrKind::U64)];
        assert(schema@ =~= WriteCmd::spec_schema_v2());
        !scan_v2_panics(data, schema.as_slice())
    } else if cmd == 25 {
        let schema = [
            (15u16, AttrKind::Bytes),
            (18u16, AttrKind::U64),
            (27u16, AttrKind::U64),
            (28u16, AttrKind::U64),
            (29u16, AttrKind::U64),
            (30u16, AttrKind::U32),
            (31u16, AttrKind::U32),
        ];
        assert(schema@ =~= EncodedWriteCmd::spec_schema_v2());
        version == 2 && !scan_v2_panics(data, schema.as_slice())
    } else {
        true
    }
}

/// Handler trait for a BTRFS send stream.
///
/// All trait methods except [`StreamHandler::handle_cmd()`] return an `IoResult<Option<()>>`.
/// The handler will continue handling command until a trait method returns `Ok(None)`. In most
/// cases this will be the [`StreamHandler::end()`] method.
///
/// Each implementation says, by [`StreamHandler::handled`], what handling a command does to the
/// handler and returns; every handler method promises it of the command it is given.
pub trait StreamHandler: Sized {
    /// Whether handling `cmd` may take the handler from `before` to `after` with the result `r`.
    ///
    /// An implementation that states nothing of its methods keeps this default, which admits
    /// every outcome.
    open spec fn handled(before: Self, cmd: Command, after: Self, r: IoResult<Option<()>>) -> bool {
        true
    }

    /// Start of commands for a subvolume.
    fn subvol(&mut self, cmd: SubvolCmd<'_>) -> (r: IoResult<Option<()>>)
        ensures
            Self::handled(*old(self), Command::Subvol(cmd), *final(self), r),
    ;

    /// Start of commands for a snapshot.
    fn snapshot(&mut self, cmd: SnapshotCmd<'_>) -> (r: IoResult<Option<()>>)
        ensures
            Self::handled(*old(self), Command::Snapshot(cmd), *final(self), r),
    ;

    /// Command to create a regular file.
    fn mkfile(&mut self, cmd: MkfileCmd<'_>) -> (r: IoResult<Option<()>>)
        ensures
            Self::handled(*old(self), Command::Mkfile(cmd), *final(self), r),
    ;

    /// Command to create a directory.
    fn mkdir(&mut self, cmd: MkdirCmd<'_>) -> (r: IoResult<Option<()>>)
        ensures
            Self::handled(*old(self), Command::Mkdir(cmd), *final(self), r),
    ;

    /// Command to create sepcial device node.
    fn mknod(&mut self, cmd: MknodCmd<'_>) -> (r: IoResult<Option<()>>)
        ensures
            Self::handled(*old(self), Command::Mknod(cmd), *final(self), r),
    ;

    /// Command to create fifo.
    fn mkfifo(&mut self, cmd: MkfifoCmd<'_>) -> (r: IoResult<Option<()>>)
        ensures
            Self::handled(*old(self), Command::Mkfifo(cmd), *final(self), r),
    ;

    /// Command to create socket.
    fn mksock(&mut self, cmd: MksockCmd<'_>) -> (r: IoResult<Option<()>>)
        ensures
            Self::handled(*old(self), Command::Mksock(cmd), *final(self), r),
    ;

    /// Command to create symlink.
    fn symlink(&mut self, cmd: SymlinkCmd<'_>) -> (r: IoResult<Option<()>>)
        ensures
            Self::handled(*old(self), Command::Symlink(cmd), *final(self), r),
    ;

    /// Command to rename a file.
    fn rename(&mut self, cmd: RenameCmd<'_>) -> (r: IoResult<Option<()>>)
        ensures
            Self::handled(*old(self), Command::Rename(cmd), *final(self), r),
    ;

    /// Command to create a hardlink.
    fn link(&mut self, cmd: LinkCmd<'_>) -> (r: IoResult<Option<()>>)
        ensures
            Self::handled(*old(self), Command::Link(cmd), *final(self), r),
    ;

    /// Command to remove a file.
    fn unlink(&mut self, cmd: UnlinkCmd<'_>) -> (r: IoResult<Option<()>>)
        ensures
            Self::handled(*old(self), Command::Unlink(cmd), *final(self), r),
    ;

    /// Command to remove a directory.
    fn rmdir(&mut self, cmd: RmdirCmd<'_>) -> (r: IoResult<Option<()>>)
        ensures
            Self::handled(*old(self), Command::Rmdir(cmd), *final(self), r),
    ;

    /// Command to set an extended attribute.
    fn set_xattr(&mut self, cmd: SetXattrCmd<'_>) -> (r: IoResult<Option<()>>)
        ensures
            Self::handled(*old(self), Command::SetXattr(cmd), *final(self), r),
    ;

    /// Command remove extended attributes.
    fn remove_xattr(&mut self, cmd: RemoveXattrCmd<'_>) -> (r: IoResult<Option<()>>)
        ensures
            Self::handled(*old(self), Command::RemoveXattr(cmd), *final(self), r),
    ;

    /// Write command.
    fn write(&mut self, cmd: WriteCmd<'_>) -> (r: IoResult<Option<()>>)
        ensures
            Self::handled(*old(self), Command::Write(cmd), *final(self), r),
    ;

    /// Clone extents.
    fn clone(&mut self, cmd: CloneCmd<'_>) -> (r: IoResult<Option<()>>)
        ensures
            Self::handled(*old(self), Command::Clone(cmd), *final(self), r),
    ;

    /// Truncate a file.
    fn truncate(&mut self, cmd: TruncateCmd<'_>) -> (r: IoResult<Option<()>>)
        ensures
            Self::handled(*old(self), Command::Truncate(cmd), *final(self), r),
    ;

    /// Change file mode.
    fn chmod(&mut self, cmd: ChmodCmd<'_>) -> (r: IoResult<Option<()>>)
        ensures
            Self::handled(*old(self), Command::Chmod(cmd), *final(self), r),
    ;

    /// Change file owner (uid) and group (gid).
    fn chown(&mut self, cmd: ChownCmd<'_>) -> (r: IoResult<Option<()>>)
        ensures
            Self::handled(*old(self), Command::Chown(cmd), *final(self), r),
    ;

    /// Change file timestamp
    fn utimes(&mut self, cmd: UtimesCmd<'_>) -> (r: IoResult<Option<()>>)
        ensures
            Self::handled(*old(self), Command::Utimes(cmd), *final(self), r),
    ;

    /// End of current subvolume or snapshot.
    fn end(&mut self, cmd: EndCmd) -> (r: IoResult<Option<()>>)
        ensures
            Self::handled(*old(self), Command::End(cmd), *final(self), r),
    ;

    /// Extent changes of a stream sent without file data.
    fn update_extent(&mut self, cmd: UpdateExtentCmd<'_>) -> (r: IoResult<Option<()>>)
        ensures
            Self::handled(*old(self), Command::UpdateExtent(cmd), *final(self), r),
    ;


    // Version 2

    /// Change file extents.
    fn fallocate(&mut self, cmd: FallocateCmd<'_>) -> (r: IoResult<Option<()>>)
        ensures
            Self::handled(*old(self), Command::Fallocate(cmd), *final(self), r),
    ;

    /// File attributes.
    fn fileattr(&mut self, cmd: FileattrCmd<'_>) -> (r: IoResult<Option<()>>)
        ensures
            Self::handled(*old(self), Command::Fileattr(cmd), *final(self), r),
    ;

    /// Write compressed data directly to the filesystem.
    fn encoded_write(&mut self, cmd: EncodedWriteCmd<'_>) -> (r: IoResult<Option<()>>)
        ensures
            Self::handled(*old(self), Command::EncodedWrite(cmd), *final(self), r),
    ;

    /// Handles each command.
    fn handle_cmd(&mut self, cmd: u16, data: &[u8], version: u32) -> (r: IoResult<Option<()>>)
        requires
            cmd_parse_requires(cmd, data@, version),
        ensures
            cmd_parse_error(cmd, data@, version) matches Some(e) ==> r == Err::<Option<()>, Error>(
                Error::Receive(e),
            ) && *final(self) == *old(self),
            cmd_parse_error(cmd, data@, version) is None ==> exists|c: Command|
                #![trigger cmd_parsed(cmd, data@, version, c)]
                cmd_parsed(cmd, data@, version, c) && Self::handled(*old(self), c, *final(self), r),
    {
        match parse_command(cmd, data, version)? {
            Command::Subvol(c) => self.subvol(c),
            Command::Snapshot(c) => self.snapshot(c),
            Command::Mkfile(c) => self.mkfile(c),
            Command::Mkdir(c) => self.mkdir(c),
            Command::Mknod(c) => self.mknod(c),
            Command::Mkfifo(c) => self.mkfifo(c),
            Command::Mksock(c) => self.mksock(c),
            Command::Symlink(c) => self.symlink(c),
            Command::Rename(c) => self.rename(c),
            Command::Link(c) => self.link(c),
            Command::Unlink(c) => self.unlink(c),
            Command::Rmdir(c) => self.rmdir(c),
            Command::SetXattr(c) => self.set_xattr(c),
            Command::RemoveXattr(c) => self.remove_xattr(c),
            Command::Write(c) => self.write(c),
            Command::Clone(c) => self.clone(c),
            Command::Truncate(c) => self.truncate(c),
            Command::Chmod(c) => self.chmod(c),
            Command::Chown(c) => self.chown(c),
            Command::Utimes(c) => self.utimes(c),
            Command::End(c) => self.end(c),
            Command::UpdateExtent(c) => self.update_extent(c),
            Command::Fallocate(c) => self.fallocate(c),
            Command::Fileattr(c) => self.fileattr(c),
            Command::EncodedWrite(c) => self.encoded_write(c),
        }
    }
}


/// The id of the send command that `c` is: the kernel's id of its command, which is also the
/// `KEY` of its command type.
pub open spec fn command_key(c: Command) -> u16 {
    match c {
        Command::Subvol(_) => consts::BTRFS_SEND_C_SUBVOL,
        Command::Snapshot(_) => consts::BTRFS_SEND_C_SNAPSHOT,
        Command::Mkfile(_) => consts::BTRFS_SEND_C_MKFILE,
        Command::Mkdir(_) => consts::BTRFS_SEND_C_MKDIR,
        Command::Mknod(_) => consts::BTRFS_SEND_C_MKNOD,
        Command::Mkfifo(_) => consts::BTRFS_SEND_C_MKFIFO,
        Command::Mksock(_) => consts::BTRFS_SEND_C_MKSOCK,
        Command::Symlink(_) => consts::BTRFS_SEND_C_SYMLINK,
        Command::Rename(_) => consts::BTRFS_SEND_C_RENAME,
        Command::Link(_) => consts::BTRFS_SEND_C_LINK,
        Command::Unlink(_) => consts::BTRFS_SEND_C_UNLINK,
        Command::Rmdir(_) => consts::BTRFS_SEND_C_RMDIR,
        Command::SetXattr(_) => consts::BTRFS_SEND_C_SET_XATTR,
        Command::RemoveXattr(_) => consts::BTRFS_SEND_C_REMOVE_XATTR,
        Command::Write(_) => consts::BTRFS_SEND_C_WRITE,
        Command::Clone(_) => consts::BTRFS_SEND_C_CLONE,
        Command::Truncate(_) => consts::BTRFS_SEND_C_TRUNCATE,
        Command::Chmod(_) => consts::BTRFS_SEND_C_CHMOD,
        Command::Chown(_) => consts::BTRFS_SEND_C_CHOWN,
        Command::Utimes(_) => consts::BTRFS_SEND_C_UTIMES,
        Command::End(_) => consts::BTRFS_SEND_C_END,
        Command::UpdateExtent(_) => consts::BTRFS_SEND_C_UPDATE_EXTENT,
        Command::Fallocate(_) => consts::BTRFS_SEND_C_FALLOCATE,
        Command::Fileattr(_) => consts::BTRFS_SEND_C_FILEATTR,
        Command::EncodedWrite(_) => consts::BTRFS_SEND_C_ENCODED_WRITE,
    }
}

/// A payload parsed as the command with id `cmd` gives the command whose type has that id.
pub proof fn lemma_parsed_command_has_key(cmd: u16, p: Seq<u8>, version: u32, c: Command)
    requires
        cmd_parsed(cmd, p, version, c),
    ensures
        command_key(c) == cmd,
{
}

/// Parsing the command with the id of a command type reports the errors of that type's parser;
/// an id of no command type is refused as an unexpected command.
pub proof fn lemma_parse_error_by_key(cmd: u16, p: Seq<u8>, version: u32)
    ensures
        cmd_parse_error(consts::BTRFS_SEND_C_SUBVOL, p, version) == SubvolCmd::spec_parse_error(p),
        cmd_parse_error(consts::BTRFS_SEND_C_SNAPSHOT, p, version) == SnapshotCmd::spec_parse_error(p),
        cmd_parse_error(consts::BTRFS_SEND_C_MKFILE, p, version) == MkfileCmd::spec_parse_error(p),
        cmd_parse_error(consts::BTRFS_SEND_C_MKDIR, p, version) == MkdirCmd::spec_parse_error(p),
        cmd_parse_error(consts::BTRFS_SEND_C_MKNOD, p, version) == MknodCmd::spec_parse_error(p),
        cmd_parse_error(consts::BTRFS_SEND_C_MKFIFO, p, version) == MkfifoCmd::spec_parse_error(p),
        cmd_parse_error(consts::BTRFS_SEND_C_MKSOCK, p, version) == MksockCmd::spec_parse_error(p),
        cmd_parse_error(consts::BTRFS_SEND_C_SYMLINK, p, version) == SymlinkCmd::spec_parse_error(p),
        cmd_parse_error(consts::BTRFS_SEND_C_RENAME, p, version) == RenameCmd::spec_parse_error(p),
        cmd_parse_error(consts::BTRFS_SEND_C_LINK, p, version) == LinkCmd::spec_parse_error(p),
        cmd_parse_error(consts::BTRFS_SEND_C_UNLINK, p, version) == UnlinkCmd::spec_parse_error(p),
        cmd_parse_error(consts::BTRFS_SEND_C_RMDIR, p, version) == RmdirCmd::spec_parse_error(p),
        cmd_parse_error(consts::BTRFS_SEND_C_SET_XATTR, p, version) == SetXattrCmd::spec_parse_error(p),
        cmd_parse_error(consts::BTRFS_SEND_C_REMOVE_XATTR, p, version) == RemoveXattrCmd::spec_parse_error(p),
        version == 2 ==> cmd_parse_error(consts::BTRFS_SEND_C_WRITE, p, version) == WriteCmd::spec_parse_v2_error(p),
        version != 2 ==> cmd_parse_error(consts::BTRFS_SEND_C_WRITE, p, version) == WriteCmd::spec_parse_error(p),
        cmd_parse_error(consts::BTRFS_SEND_C_CLONE, p, version) == CloneCmd::spec_parse_error(p),
        cmd_parse_error(consts::BTRFS_SEND_C_TRUNCATE, p, version) == TruncateCmd::spec_parse_error(p),
        cmd_parse_error(consts::BTRFS_SEND_C_CHMOD, p, version) == ChmodCmd::spec_parse_error(p),
        cmd_parse_error(consts::BTRFS_SEND_C_CHOWN, p, version) == ChownCmd::spec_parse_error(p),
        cmd_parse_error(consts::BTRFS_SEND_C_UTIMES, p, version) == UtimesCmd::spec_parse_error(p),
        cmd_parse_error(consts::BTRFS_SEND_C_END, p, version) == EndCmd::spec_parse_error(p),
        cmd_parse_error(consts::BTRFS_SEND_C_UPDATE_EXTENT, p, version) == UpdateExtentCmd::spec_parse_error(p),
        cmd_parse_error(consts::BTRFS_SEND_C_FALLOCATE, p, version) == FallocateCmd::spec_parse_error(p),
        cmd_parse_error(consts::BTRFS_SEND_C_FILEATTR, p, version) == FileattrCmd::spec_parse_error(p),
        version == 2 ==> cmd_parse_error(consts::BTRFS_SEND_C_ENCODED_WRITE, p, version) == EncodedWriteCmd::spec_parse_v2_error(p),
        (cmd != consts::BTRFS_SEND_C_SUBVOL && cmd != consts::BTRFS_SEND_C_SNAPSHOT && cmd != consts::BTRFS_SEND_C_MKFILE && cmd != consts::BTRFS_SEND_C_MKDIR && cmd != consts::BTRFS_SEND_C_MKNOD && cmd != consts::BTRFS_SEND_C_MKFIFO && cmd != consts::BTRFS_SEND_C_MKSOCK && cmd != consts::BTRFS_SEND_C_SYMLINK && cmd != consts::BTRFS_SEND_C_RENAME && cmd != consts::BTRFS_SEND_C_LINK && cmd != consts::BTRFS_SEND_C_UNLINK && cmd != consts::BTRFS_SEND_C_RMDIR && cmd != consts::BTRFS_SEND_C_SET_XATTR && cmd != consts::BTRFS_SEND_C_REMOVE_XATTR && cmd != consts::BTRFS_SEND_C_WRITE && cmd != consts::BTRFS_SEND_C_CLONE && cmd != consts::BTRFS_SEND_C_TRUNCATE && cmd != consts::BTRFS_SEND_C_CHMOD && cmd != consts::BTRFS_SEND_C_CHOWN && cmd != consts::BTRFS_SEND_C_UTIMES && cmd != consts::BTRFS_SEND_C_END && cmd != consts::BTRFS_SEND_C_UPDATE_EXTENT && cmd != consts::BTRFS_SEND_C_FALLOCATE && cmd != consts::BTRFS_SEND_C_FILEATTR && cmd != consts::BTRFS_SEND_C_ENCODED_WRITE) ==> cmd_parse_error(cmd, p, version) == Some(ReceiveError::UnexpectedCommand),
{
}

} // verus!
