//! Reading a btrfs send stream: the stream header, the command headers and their checksums.
//!
//! The caller reads the bytes; a [`SendStream`] decides what they mean.
use super::crc::{checksum, send_checksum};
use crate::bytes::{append_bytes, le16, le32, read_le16, read_le32};
use crate::error::{Error, IoResult, ReceiveError};
use vstd::prelude::*;

verus! {

/// Length of the stream header: the magic followed by a little-endian `u32` version.
pub const STREAM_HEADER_LEN: usize = 17;

/// Length of a command header: a little-endian `u32` payload length, a little-endian `u16`
/// command id and a little-endian `u32` checksum.
pub const CMD_HEADER_LEN: usize = 10;

/// Highest send stream version that can be read.
pub const SUPPORTED_VERSION: u32 = 2;

/// In send stream v1, no command is larger than 64KiB. In send stream v2, no limit should be
/// assumed.
pub const BUF_SZ_V1: usize = 65536;

/// The stream position is published each time it crosses a multiple of 4MiB.
pub const BLOCK_MASK: u64 = 0xffff_ffff_ffc0_0000;

/// The magic that starts a send stream: `"btrfs-stream"` followed by a zero byte.
pub open spec fn spec_magic() -> Seq<u8> {
    seq![0x62u8, 0x74, 0x72, 0x66, 0x73, 0x2d, 0x73, 0x74, 0x72, 0x65, 0x61, 0x6d, 0x00]
}

/// The magic of a send stream spells `btrfs-stream`, one byte per character, and ends with a
/// zero byte.
pub proof fn lemma_magic_spells_name()
    ensures
        spec_magic().len() == 13,
        forall|i: int| 0 <= i < 12 ==> spec_magic()[i] as char == #[trigger] "btrfs-stream"@[i],
        spec_magic()[12] == 0,
{
    reveal_strlit("btrfs-stream");
    assert("btrfs-stream"@ =~= seq!['b', 't', 'r', 'f', 's', '-', 's', 't', 'r', 'e', 'a', 'm']);
}

/// What reading the stream header `h` gives: its version, or why the stream is rejected.
pub open spec fn spec_stream_header(h: Seq<u8>) -> Result<u32, ReceiveError> {
    if h.subrange(0, 13) != spec_magic() {
        Err(ReceiveError::UnexpectedHeader)
    } else if le32(h, 13) > SUPPORTED_VERSION {
        Err(ReceiveError::UnsupportedVersion)
    } else {
        Ok(le32(h, 13))
    }
}

/// Reads the stream header `hdr`: its version, or why the stream is rejected.
pub fn parse_stream_header(hdr: &[u8]) -> (r: IoResult<u32>)
    requires
        hdr@.len() >= STREAM_HEADER_LEN,
    ensures
        r matches Ok(v) ==> spec_stream_header(hdr@) == Ok::<u32, ReceiveError>(v),
        r matches Err(e) ==> spec_stream_header(hdr@) matches Err(re) && e == Error::Receive(re),
{
    let magic: [u8; 13] = [0x62, 0x74, 0x72, 0x66, 0x73, 0x2d, 0x73, 0x74, 0x72, 0x65, 0x61, 0x6d, 0x00];
    assert(magic@ =~= spec_magic());
    let mut i: usize = 0;
    while i < 13
        invariant
            i <= 13,
            hdr@.len() >= 17,
            magic@ == spec_magic(),
            forall|j: int| 0 <= j < i ==> hdr@[j] == magic@[j],
        decreases 13 - i,
    {
        if hdr[i] != magic[i] {
            assert(hdr@.subrange(0, 13)[i as int] != spec_magic()[i as int]);
            return Err(Error::Receive(ReceiveError::UnexpectedHeader));
        }
        i = i + 1;
    }
    assert(hdr@.subrange(0, 13) =~= spec_magic());
    let version = read_le32(hdr, 13);
    if version > SUPPORTED_VERSION {
        return Err(Error::Receive(ReceiveError::UnsupportedVersion));
    }
    Ok(version)
}

/// Header of a send command.
#[derive(Debug, Clone, Copy, PartialEq, Eq, Structural)]
pub struct CmdHeader {
    /// Length of the payload that follows the header.
    pub length: u32,
    /// Command id.
    pub command: u16,
    /// Checksum of the header, with this field zeroed, and the payload.
    pub checksum: u32,
}

/// The command header stored in the first ten bytes of `h`.
pub open spec fn spec_cmd_header(h: Seq<u8>) -> CmdHeader {
    CmdHeader { length: le32(h, 0), command: le16(h, 4), checksum: le32(h, 6) }
}

/// Reads the command header stored in the first ten bytes of `hdr`.
pub fn parse_cmd_header(hdr: &[u8]) -> (r: CmdHeader)
    requires
        hdr@.len() >= CMD_HEADER_LEN,
    ensures
        r == spec_cmd_header(hdr@),
{
    CmdHeader { length: read_le32(hdr, 0), command: read_le16(hdr, 4), checksum: read_le32(hdr, 6) }
}

/// The bytes over which the checksum of a command is computed: its header with the checksum
/// field zeroed, then its payload.
pub open spec fn spec_checked_bytes(hdr: Seq<u8>, payload: Seq<u8>) -> Seq<u8> {
    hdr.subrange(0, 6) + seq![0u8, 0u8, 0u8, 0u8] + payload
}

/// What a stream reader knows.
pub struct StreamView {
    /// Version from the stream header, zero before it was read.
    pub version: u32,
    /// Id of the last command read.
    pub command: u16,
    /// Payload of the last command read.
    pub data: Seq<u8>,
    /// Bytes of the stream read so far: its header and the commands.
    pub stream_pos: u64,
}

/// Reads the headers and checksums of a send stream whose bytes the caller supplies.
pub struct SendStream {
    version: u32,
    command: u16,
    buf: Vec<u8>,
    stream_pos: u64,
}

impl View for SendStream {
    type V = StreamView;

    closed spec fn view(&self) -> StreamView {
        StreamView {
            version: self.version,
            command: self.command,
            data: self.buf@.subrange(CMD_HEADER_LEN as int, self.buf@.len() as int),
            stream_pos: self.stream_pos,
        }
    }
}

impl SendStream {
    #[verifier::type_invariant]
    closed spec fn wf(self) -> bool {
        self.buf@.len() >= CMD_HEADER_LEN
    }

    /// A reader at the start of a stream.
    pub fn new() -> (r: SendStream)
        ensures
            r@.version == 0,
            r@.command == 0,
            r@.data.len() == 0,
            r@.stream_pos == 0,
    {
        let mut buf: Vec<u8> = Vec::with_capacity(BUF_SZ_V1);
        let mut i: usize = 0;
        while i < CMD_HEADER_LEN
            invariant
                i <= CMD_HEADER_LEN,
                buf@.len() == i,
            decreases CMD_HEADER_LEN - i,
        {
            buf.push(0);
            i = i + 1;
        }
        SendStream { version: 0, command: 0, buf, stream_pos: 0 }
    }

    /// Version of the stream.
    pub fn version(&self) -> (r: u32)
        ensures
            r == self@.version,
    {
        self.version
    }

    /// Id of the last command read.
    pub fn command(&self) -> (r: u16)
        ensures
            r == self@.command,
    {
        self.command
    }

    /// Bytes of the stream read so far: its header and the commands.
    pub fn stream_pos(&self) -> (r: u64)
        ensures
            r == self@.stream_pos,
    {
        self.stream_pos
    }

    /// Payload of the last command read.
    pub fn data(&self) -> (r: &[u8])
        ensures
            r@ == self@.data,
    {
        proof {
            use_type_invariant(self);
        }
        vstd::slice::slice_subrange(self.buf.as_slice(), CMD_HEADER_LEN, self.buf.len())
    }

    /// Reads the stream header `hdr` and takes its version; the stream position then moves past
    /// the header.
    pub fn read_header(&mut self, hdr: &[u8]) -> (r: IoResult<()>)
        requires
            hdr@.len() >= STREAM_HEADER_LEN,
            old(self)@.stream_pos + STREAM_HEADER_LEN <= u64::MAX,
        ensures
            r is Ok ==> spec_stream_header(hdr@) == Ok::<u32, ReceiveError>(final(self)@.version),
            r matches Err(e) ==> spec_stream_header(hdr@) matches Err(re) && e == Error::Receive(
                re,
            ),
            final(self)@.command == old(self)@.command,
            final(self)@.data == old(self)@.data,
            r is Ok ==> final(self)@.stream_pos == old(self)@.stream_pos + STREAM_HEADER_LEN,
            r is Err ==> final(self)@.stream_pos == old(self)@.stream_pos,
            r is Err ==> final(self)@.version == old(self)@.version,
    {
        proof {
            use_type_invariant(&*self);
        }
        let version = parse_stream_header(hdr)?;
        self.version = version;
        self.stream_pos = self.stream_pos + STREAM_HEADER_LEN as u64;
        Ok(())
    }

    /// Reads the command with header `hdr` and payload `payload`.
    ///
    /// The command is accepted when the checksum in its header matches. The stream position then
    /// moves past the command, and the result tells whether the position crossed a multiple of
    /// 4MiB, in which case it should be published.
    pub fn read_cmd(&mut self, hdr: &[u8], payload: &[u8]) -> (r: IoResult<bool>)
        requires
            hdr@.len() >= CMD_HEADER_LEN,
            payload@.len() == le32(hdr@, 0),
            old(self)@.stream_pos + CMD_HEADER_LEN + payload@.len() <= u64::MAX,
        ensures
            final(self)@.version == old(self)@.version,
            final(self)@.data == payload@,
            ({
                let new_pos = (old(self)@.stream_pos + CMD_HEADER_LEN + payload@.len()) as u64;
                if le32(hdr@, 6) != send_checksum(spec_checked_bytes(hdr@, payload@)) {
                    &&& r == Err::<bool, Error>(Error::Receive(ReceiveError::CrcMismatch))
                    &&& final(self)@.stream_pos == old(self)@.stream_pos
                    &&& final(self)@.command == old(self)@.command
                } else {
                    &&& r == Ok::<bool, Error>(
                        (old(self)@.stream_pos & BLOCK_MASK) != (new_pos & BLOCK_MASK),
                    )
                    &&& final(self)@.stream_pos == new_pos
                    &&& final(self)@.command == le16(hdr@, 4)
                }
            }),
    {
        let header = parse_cmd_header(hdr);
        let mut buf: Vec<u8> = Vec::new();
        append_bytes(&mut buf, vstd::slice::slice_subrange(hdr, 0, 6));
        buf.push(0);
        buf.push(0);
        buf.push(0);
        buf.push(0);
        append_bytes(&mut buf, payload);
        assert(buf@ =~= spec_checked_bytes(hdr@, payload@));
        let sum = checksum(buf.as_slice());
        self.buf = buf;
        assert(self.buf@.subrange(CMD_HEADER_LEN as int, self.buf@.len() as int) =~= payload@);
        if header.checksum != sum {
            return Err(Error::Receive(ReceiveError::CrcMismatch));
        }
        let old_pos = self.stream_pos;
        self.stream_pos = self.stream_pos + CMD_HEADER_LEN as u64 + payload.len() as u64;
        self.command = header.command;
        Ok((old_pos & BLOCK_MASK) != (self.stream_pos & BLOCK_MASK))
    }
}

} // verus!
