//! Decisions of a handler that receives a full send stream below a directory: which subvolume
//! is being received, the paths handed to the system calls, and what is recorded on the
//! received subvolume at its end.
use crate::bytes::{append_bytes, zeroes, Uuid};
use crate::consts::{ENAMETOOLONG, ENOSYS, PATH_MAX};
use crate::error::{Error, IoResult, ReceiveError};
use crate::subvol::info::{lemma_c_name_round_trip, spec_c_name, spec_set_c_name};
use vstd::prelude::*;

verus! {

/// Longest extended attribute name, defined in `<linux/limits.h>`.
pub const XATTR_NAME_MAX: usize = 255;

/// `path` followed by a `/`, unless it already ends with one.
pub open spec fn spec_with_slash(path: Seq<u8>) -> Seq<u8> {
    if path.len() > 0 && path.last() == 0x2f {
        path
    } else {
        path.push(0x2f)
    }
}

/// `buf` with `path` and a terminating zero written at `start`.
pub open spec fn spec_write_c_path(buf: Seq<u8>, start: int, path: Seq<u8>) -> Seq<u8> {
    buf.subrange(0, start) + path + seq![0u8] + buf.subrange(start + path.len() + 1, buf.len() as int)
}

/// What is recorded on a received subvolume.
#[derive(Debug, Clone, Copy)]
pub struct ReceivedSubvolArgs {
    /// Uuid of the subvolume that was sent.
    pub uuid: Uuid,
    /// Transaction id of the sent subvolume.
    pub stransid: u64,
    /// Seconds part of the time the subvolume was received.
    pub stime_sec: u64,
    /// Nanoseconds part of the time the subvolume was received.
    pub stime_nsec: u32,
}

/// State of a handler that receives a send stream.
pub struct ReceiveContext {
    path_buf: Vec<u8>,
    path_buf_secondary: Vec<u8>,
    current_subvol: Vec<u8>,
    received: ReceivedSubvolArgs,
}

/// What a [`ReceiveContext`] holds.
pub struct ReceiveContextView {
    /// Path buffer for the first path of a command.
    pub primary: Seq<u8>,
    /// Path buffer for the second path of a command.
    pub secondary: Seq<u8>,
    /// Path of the subvolume being received, ending with `/`; empty between subvolumes.
    pub subvol: Seq<u8>,
    /// What will be recorded on the subvolume being received.
    pub received: ReceivedSubvolArgs,
}

impl View for ReceiveContext {
    type V = ReceiveContextView;

    closed spec fn view(&self) -> ReceiveContextView {
        ReceiveContextView {
            primary: self.path_buf@,
            secondary: self.path_buf_secondary@,
            subvol: self.current_subvol@,
            received: self.received,
        }
    }
}

/// Writes `path` and a terminating zero into `buf` at `start`.
fn write_c_path(buf: &mut Vec<u8>, start: usize, path: &[u8]) -> (r: IoResult<()>)
    requires
        start <= old(buf)@.len(),
    ensures
        start + path@.len() < old(buf)@.len() ==> r is Ok && final(buf)@ == spec_write_c_path(
            old(buf)@,
            start as int,
            path@,
        ),
        start + path@.len() >= old(buf)@.len() ==> r == Err::<(), Error>(Error::Os(ENAMETOOLONG))
            && final(buf)@ == old(buf)@,
{
    if path.len() >= buf.len() - start {
        return Err(Error::Os(ENAMETOOLONG));
    }
    let mut i: usize = 0;
    while i < path.len()
        invariant
            i <= path@.len(),
            start + path@.len() < buf.len(),
            buf@.len() == old(buf)@.len(),
            forall|j: int| 0 <= j < start ==> buf@[j] == old(buf)@[j],
            forall|j: int| start + path@.len() < j < buf@.len() ==> buf@[j] == old(buf)@[j],
            forall|j: int| 0 <= j < i ==> buf@[start + j] == path@[j],
        decreases path@.len() - i,
    {
        buf.set(start + i, path[i]);
        i = i + 1;
    }
    buf.set(start + path.len(), 0);
    assert(buf@ =~= spec_write_c_path(old(buf)@, start as int, path@));
    Ok(())
}

impl ReceiveContext {
    /// The path buffers have `PATH_MAX` bytes and the subvolume path fits in them.
    pub closed spec fn inv(&self) -> bool {
        &&& self.path_buf@.len() == PATH_MAX
        &&& self.path_buf_secondary@.len() == PATH_MAX
        &&& self.current_subvol@.len() <= PATH_MAX
    }

    /// A context that receives no subvolume yet.
    pub fn new() -> (r: ReceiveContext)
        ensures
            r.inv(),
            r@.primary == Seq::new(PATH_MAX as nat, |i: int| 0u8),
            r@.secondary == Seq::new(PATH_MAX as nat, |i: int| 0u8),
            r@.subvol.len() == 0,
            r@.received.uuid@ == Seq::new(16, |i: int| 0u8),
            r@.received.stransid == 0,
            r@.received.stime_sec == 0,
            r@.received.stime_nsec == 0,
    {
        let uuid = Uuid::from_bytes([0u8; 16]);
        assert(uuid@ =~= Seq::new(16, |i: int| 0u8));
        ReceiveContext {
            path_buf: zeroes(PATH_MAX),
            path_buf_secondary: zeroes(PATH_MAX),
            current_subvol: Vec::new(),
            received: ReceivedSubvolArgs { uuid, stransid: 0, stime_sec: 0, stime_nsec: 0 },
        }
    }

    /// Path of the subvolume being received, ending with `/`; empty between subvolumes.
    pub fn current_subvol(&self) -> (r: &[u8])
        ensures
            r@ == self@.subvol,
    {
        self.current_subvol.as_slice()
    }

    /// What will be recorded on the subvolume being received.
    pub fn received_args(&self) -> (r: ReceivedSubvolArgs)
        ensures
            r == self@.received,
    {
        self.received
    }

    /// Starts receiving the subvolume `path`, sent with uuid `uuid` at transaction `ctransid`,
    /// at time `stime_sec`.`stime_nsec`.
    ///
    /// Fails when another subvolume is still being received.
    pub fn begin_subvol(
        &mut self,
        path: &[u8],
        uuid: Uuid,
        ctransid: u64,
        stime_sec: u64,
        stime_nsec: u32,
    ) -> (r: IoResult<()>)
        requires
            old(self).inv(),
            spec_with_slash(path@).len() <= PATH_MAX,
        ensures
            final(self).inv(),
            old(self)@.subvol.len() != 0 ==> r == Err::<(), Error>(
                Error::Receive(ReceiveError::StreamInvalid),
            ) && final(self)@ == old(self)@,
            old(self)@.subvol.len() == 0 ==> {
                let subvol = spec_with_slash(path@);
                &&& r is Ok
                &&& final(self)@.subvol == subvol
                &&& final(self)@.primary == subvol + old(self)@.primary.subrange(
                    subvol.len() as int,
                    PATH_MAX as int,
                )
                &&& final(self)@.secondary == subvol + old(self)@.secondary.subrange(
                    subvol.len() as int,
                    PATH_MAX as int,
                )
                &&& final(self)@.received.uuid@ == uuid@
                &&& final(self)@.received.stransid == ctransid
                &&& final(self)@.received.stime_sec == stime_sec
                &&& final(self)@.received.stime_nsec == stime_nsec
            },
    {
        if self.current_subvol.len() != 0 {
            return Err(Error::Receive(ReceiveError::StreamInvalid));
        }
        let mut subvol: Vec<u8> = Vec::new();
        append_bytes(&mut subvol, path);
        if path.len() == 0 || path[path.len() - 1] != 0x2f {
            subvol.push(0x2f);
        }
        assert(subvol@ =~= spec_with_slash(path@));
        let n = subvol.len();
        let mut i: usize = 0;
        while i < n
            invariant
                n == subvol@.len(),
                n <= PATH_MAX,
                i <= n,
                self.path_buf@.len() == PATH_MAX,
                self.path_buf_secondary@.len() == PATH_MAX,
                self.current_subvol@.len() == 0,
                forall|j: int| 0 <= j < i ==> self.path_buf@[j] == subvol@[j],
                forall|j: int| 0 <= j < i ==> self.path_buf_secondary@[j] == subvol@[j],
                forall|j: int| i <= j < PATH_MAX ==> self.path_buf@[j] == old(self)@.primary[j],
                forall|j: int|
                    i <= j < PATH_MAX ==> self.path_buf_secondary@[j] == old(self)@.secondary[j],
            decreases n - i,
        {
            self.path_buf.set(i, subvol[i]);
            self.path_buf_secondary.set(i, subvol[i]);
            i = i + 1;
        }
        assert(self.path_buf@ =~= subvol@ + old(self)@.primary.subrange(n as int, PATH_MAX as int));
        assert(self.path_buf_secondary@ =~= subvol@ + old(self)@.secondary.subrange(
            n as int,
            PATH_MAX as int,
        ));
        self.current_subvol = subvol;
        self.received = ReceivedSubvolArgs { uuid, stransid: ctransid, stime_sec, stime_nsec };
        Ok(())
    }

    /// Writes the first path of a command, as a zero terminated path below the subvolume being
    /// received, into the primary path buffer.
    pub fn set_path(&mut self, path: &[u8]) -> (r: IoResult<()>)
        requires
            old(self).inv(),
        ensures
            final(self).inv(),
            final(self)@.subvol == old(self)@.subvol,
            final(self)@.secondary == old(self)@.secondary,
            final(self)@.received == old(self)@.received,
            old(self)@.subvol.len() + path@.len() < PATH_MAX ==> r is Ok && final(self)@.primary
                == spec_write_c_path(old(self)@.primary, old(self)@.subvol.len() as int, path@),
            old(self)@.subvol.len() + path@.len() >= PATH_MAX ==> r == Err::<(), Error>(
                Error::Os(ENAMETOOLONG),
            ) && final(self)@.primary == old(self)@.primary,
    {
        let start = self.current_subvol.len();
        write_c_path(&mut self.path_buf, start, path)
    }

    /// Writes the second path of a command, as a zero terminated path below the subvolume being
    /// received, into the secondary path buffer.
    pub fn set_path_secondary(&mut self, path: &[u8]) -> (r: IoResult<()>)
        requires
            old(self).inv(),
        ensures
            final(self).inv(),
            final(self)@.subvol == old(self)@.subvol,
            final(self)@.primary == old(self)@.primary,
            final(self)@.received == old(self)@.received,
            old(self)@.subvol.len() + path@.len() < PATH_MAX ==> r is Ok
                && final(self)@.secondary == spec_write_c_path(
                old(self)@.secondary,
                old(self)@.subvol.len() as int,
                path@,
            ),
            old(self)@.subvol.len() + path@.len() >= PATH_MAX ==> r == Err::<(), Error>(
                Error::Os(ENAMETOOLONG),
            ) && final(self)@.secondary == old(self)@.secondary,
    {
        let start = self.current_subvol.len();
        write_c_path(&mut self.path_buf_secondary, start, path)
    }

    /// The primary path buffer.
    pub fn primary(&self) -> (r: &[u8])
        ensures
            r@ == self@.primary,
    {
        self.path_buf.as_slice()
    }

    /// The secondary path buffer.
    pub fn secondary(&self) -> (r: &[u8])
        ensures
            r@ == self@.secondary,
    {
        self.path_buf_secondary.as_slice()
    }

    /// Ends the subvolume being received and returns its path.
    ///
    /// Fails when no subvolume is being received.
    pub fn end_subvol(&mut self) -> (r: IoResult<Vec<u8>>)
        requires
            old(self).inv(),
        ensures
            final(self).inv(),
            old(self)@.subvol.len() == 0 ==> r == Err::<Vec<u8>, Error>(
                Error::Receive(ReceiveError::InvalidStream),
            ) && final(self)@ == old(self)@,
            old(self)@.subvol.len() != 0 ==> (r matches Ok(v) && v@ == old(self)@.subvol
                && final(self)@.subvol.len() == 0),
            final(self)@.primary == old(self)@.primary,
            final(self)@.secondary == old(self)@.secondary,
            final(self)@.received == old(self)@.received,
    {
        if self.current_subvol.len() == 0 {
            return Err(Error::Receive(ReceiveError::InvalidStream));
        }
        let mut subvol: Vec<u8> = Vec::new();
        std::mem::swap(&mut subvol, &mut self.current_subvol);
        Ok(subvol)
    }

    /// Forgets what was to be recorded on the subvolume, once it was recorded.
    pub fn clear_received(&mut self)
        requires
            old(self).inv(),
        ensures
            final(self).inv(),
            final(self)@.received.uuid@ == Seq::new(16, |i: int| 0u8),
            final(self)@.received.stransid == 0,
            final(self)@.received.stime_sec == 0,
            final(self)@.received.stime_nsec == 0,
            final(self)@.primary == old(self)@.primary,
            final(self)@.secondary == old(self)@.secondary,
            final(self)@.subvol == old(self)@.subvol,
    {
        let uuid = Uuid::from_bytes([0u8; 16]);
        assert(uuid@ =~= Seq::new(16, |i: int| 0u8));
        self.received = ReceivedSubvolArgs { uuid, stransid: 0, stime_sec: 0, stime_nsec: 0 };
    }

    /// Whether `uuid` is the uuid of the subvolume being received.
    pub fn uuid_is_current(&self, uuid: &Uuid) -> (r: bool)
        ensures
            r == (uuid@ == self@.received.uuid@),
    {
        let current = self.received.uuid;
        let mut i: usize = 0;
        while i < 16
            invariant
                i <= 16,
                uuid@.len() == 16,
                current@.len() == 16,
                current == self@.received.uuid,
                forall|j: int| 0 <= j < i ==> uuid@[j] == current@[j],
            decreases 16 - i,
        {
            if uuid.bytes[i] != current.bytes[i] {
                return false;
            }
            i = i + 1;
        }
        assert(uuid@ =~= current@);
        true
    }
}

/// A zero terminated buffer of `XATTR_NAME_MAX + 1` bytes holding `name`.
///
/// Fails when `name` is longer than `XATTR_NAME_MAX`.
pub fn xattr_name_buf(name: &[u8]) -> (r: IoResult<Vec<u8>>)
    ensures
        name@.len() > XATTR_NAME_MAX ==> r == Err::<Vec<u8>, Error>(
            Error::Receive(ReceiveError::XattrNameTooLong),
        ),
        name@.len() <= XATTR_NAME_MAX ==> (r matches Ok(v) && v@ == name@ + Seq::new(
            (XATTR_NAME_MAX + 1 - name@.len()) as nat,
            |i: int| 0u8,
        )),
{
    if name.len() > XATTR_NAME_MAX {
        return Err(Error::Receive(ReceiveError::XattrNameTooLong));
    }
    let mut v: Vec<u8> = Vec::new();
    append_bytes(&mut v, name);
    let ghost base = v@;
    while v.len() < XATTR_NAME_MAX + 1
        invariant
            v@.len() <= XATTR_NAME_MAX + 1,
            base == name@,
            v@.len() >= name@.len(),
            v@ =~= name@ + Seq::new((v@.len() - name@.len()) as nat, |i: int| 0u8),
        decreases XATTR_NAME_MAX + 1 - v@.len(),
    {
        v.push(0);
    }
    Ok(v)
}

/// Base of the fallback path used for extended attributes when the handler was built from the
/// directory `path`: `path` followed by a `/`, unless it already ends with one.
pub fn xattr_fallback_base(path: &[u8]) -> (r: Vec<u8>)
    ensures
        r@ == spec_with_slash(path@),
{
    let mut v: Vec<u8> = Vec::new();
    append_bytes(&mut v, path);
    if v.len() == 0 || v[v.len() - 1] != 0x2f {
        v.push(0x2f);
    }
    assert(v@ =~= spec_with_slash(path@));
    v
}

/// The decimal digits of `n`, most significant first, as ASCII bytes.
pub open spec fn spec_decimal(n: nat) -> Seq<u8>
    decreases n,
{
    if n < 10 {
        seq![(48 + n) as u8]
    } else {
        spec_decimal(n / 10).push((48 + n % 10) as u8)
    }
}

/// Appends the decimal digits of `n` to `v`.
pub fn push_decimal(v: &mut Vec<u8>, n: u64)
    ensures
        final(v)@ == old(v)@ + spec_decimal(n as nat),
    decreases n,
{
    if n >= 10 {
        push_decimal(v, n / 10);
    }
    let ghost before = v@;
    v.push(48 + (n % 10) as u8);
    assert(v@ =~= old(v)@ + spec_decimal(n as nat)) by {
        if n >= 10 {
            assert(before == old(v)@ + spec_decimal((n / 10) as nat));
        }
    }
}

/// `/proc/self/fd/` as ASCII bytes.
pub open spec fn spec_proc_fd_prefix() -> Seq<u8> {
    seq![47u8, 112, 114, 111, 99, 47, 115, 101, 108, 102, 47, 102, 100, 47]
}

/// Base of the fallback path used for extended attributes when the handler was built from the
/// open directory `fd`: the directory as the proc filesystem shows it, `/proc/self/fd/<fd>/`.
pub fn xattr_fallback_fd_base(fd: u32) -> (r: Vec<u8>)
    ensures
        r@ == spec_proc_fd_prefix() + spec_decimal(fd as nat) + seq![47u8],
{
    let prefix: [u8; 14] = [47, 112, 114, 111, 99, 47, 115, 101, 108, 102, 47, 102, 100, 47];
    assert(prefix@ =~= spec_proc_fd_prefix());
    let mut v: Vec<u8> = Vec::new();
    append_bytes(&mut v, prefix.as_slice());
    push_decimal(&mut v, fd as u64);
    v.push(47);
    v
}

/// Whether an extended attribute call that failed with `e` is made again through the fallback
/// path: the system call relative to the subvolume is missing (`ENOSYS`).
pub fn xattr_falls_back(e: &Error) -> (r: bool)
    ensures
        r == (*e == Error::Os(ENOSYS)),
{
    match e {
        Error::Os(code) => *code == ENOSYS,
        _ => false,
    }
}

/// The zero terminated fallback path of `path` in the subvolume `subvol`, below `base`.
pub fn xattr_fallback_path(base: &[u8], subvol: &[u8], path: &[u8]) -> (r: Vec<u8>)
    ensures
        r@ == base@ + subvol@ + path@ + seq![0u8],
{
    let mut v: Vec<u8> = Vec::new();
    append_bytes(&mut v, base);
    append_bytes(&mut v, subvol);
    append_bytes(&mut v, path);
    v.push(0);
    v
}


/// A path written into a path buffer that starts with the path of the subvolume being received
/// reads back, as a zero terminated path, as the subvolume's path followed by the path: the
/// path that the system calls of a command are handed.
pub proof fn lemma_c_path_round_trip(buf: Seq<u8>, subvol: Seq<u8>, path: Seq<u8>)
    requires
        subvol.len() + path.len() < buf.len(),
        buf.subrange(0, subvol.len() as int) == subvol,
        forall|i: int| 0 <= i < subvol.len() ==> subvol[i] != 0,
        forall|i: int| 0 <= i < path.len() ==> path[i] != 0,
    ensures
        spec_c_name(spec_write_c_path(buf, subvol.len() as int, path)) == subvol + path,
{
    let n = subvol + path;
    assert(spec_write_c_path(buf, subvol.len() as int, path) =~= spec_set_c_name(buf, n));
    assert forall|i: int| 0 <= i < n.len() implies n[i] != 0 by {
        if i < subvol.len() {
            assert(n[i] == subvol[i]);
        } else {
            assert(n[i] == path[i - subvol.len()]);
        }
    }
    lemma_c_name_round_trip(buf, n);
}

} // verus!
