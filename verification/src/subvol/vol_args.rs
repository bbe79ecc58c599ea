//! Arguments of the ioctls that create, snapshot and remove subvolumes, and the decisions on
//! subvolume flags.
use crate::bytes::zeroes;
use crate::consts;
use crate::error::{Error, ErrorKind, IoResult};
use crate::subvol::info::{lemma_c_name_round_trip, spec_c_name, spec_set_c_name};
use crate::util::{set_vol_name, spec_vol_name_fits};
use vstd::prelude::*;

verus! {

/// Length of the name buffer of the version 2 volume ioctl arguments.
pub const VOL_ARGS_V2_NAME_LEN: usize = 4040;

/// What a volume ioctl acts on: a name within the directory that the ioctl is called on, or a
/// subvolume id.
pub enum VolTarget {
    /// The name buffer: the name, a terminating zero and zeroes up to its full length.
    Name(Vec<u8>),
    /// The subvolume or device id, which the kernel reads in place of the name.
    Id(u64),
}

/// The version 2 volume ioctl arguments.
pub struct VolArgsV2 {
    pub fd: i64,
    pub flags: u64,
    pub target: VolTarget,
}

/// The name buffer that holds `name`, when `name` fits.
pub open spec fn spec_name_buf(name: Seq<u8>) -> Seq<u8> {
    name + Seq::new((VOL_ARGS_V2_NAME_LEN - name.len()) as nat, |i: int| 0u8)
}

/// Whether `a` holds the descriptor `fd`, the flags `flags` and the name buffer of `name`.
pub open spec fn spec_named_args(a: VolArgsV2, fd: i64, flags: u64, name: Seq<u8>) -> bool {
    &&& a.fd == fd
    &&& a.flags == flags
    &&& match a.target {
        VolTarget::Name(b) => b@ == spec_name_buf(name),
        VolTarget::Id(_) => false,
    }
}

/// The name buffer for `name`; fails with `InvalidInput` when `name` holds a zero byte or leaves
/// no room for the terminating zero.
pub fn vol_name_buf(name: &[u8]) -> (r: IoResult<Vec<u8>>)
    ensures
        spec_vol_name_fits(name@, VOL_ARGS_V2_NAME_LEN as nat) ==> (r matches Ok(b) && b@
            == spec_name_buf(name@)),
        !spec_vol_name_fits(name@, VOL_ARGS_V2_NAME_LEN as nat) ==> r == Err::<Vec<u8>, Error>(
            Error::Kind(ErrorKind::InvalidInput),
        ),
{
    let mut buf = zeroes(VOL_ARGS_V2_NAME_LEN);
    set_vol_name(name, &mut buf)?;
    assert(buf@ =~= spec_name_buf(name@));
    Ok(buf)
}

/// Arguments to create the subvolume `name`.
pub fn create_args(name: &[u8]) -> (r: IoResult<VolArgsV2>)
    ensures
        spec_vol_name_fits(name@, VOL_ARGS_V2_NAME_LEN as nat) ==> (r matches Ok(a)
            && spec_named_args(a, 0, 0, name@)),
        !spec_vol_name_fits(name@, VOL_ARGS_V2_NAME_LEN as nat) ==> r == Err::<VolArgsV2, Error>(
            Error::Kind(ErrorKind::InvalidInput),
        ),
{
    let buf = vol_name_buf(name)?;
    Ok(VolArgsV2 { fd: 0, flags: 0, target: VolTarget::Name(buf) })
}

/// Arguments to remove the subvolume `name`.
pub fn destroy_args(name: &[u8]) -> (r: IoResult<VolArgsV2>)
    ensures
        spec_vol_name_fits(name@, VOL_ARGS_V2_NAME_LEN as nat) ==> (r matches Ok(a)
            && spec_named_args(a, 0, 0, name@)),
        !spec_vol_name_fits(name@, VOL_ARGS_V2_NAME_LEN as nat) ==> r == Err::<VolArgsV2, Error>(
            Error::Kind(ErrorKind::InvalidInput),
        ),
{
    let buf = vol_name_buf(name)?;
    Ok(VolArgsV2 { fd: 0, flags: 0, target: VolTarget::Name(buf) })
}

/// Arguments to remove the subvolume with the id `subvolid`.
pub fn destroy_by_id_args(subvolid: u64) -> (r: VolArgsV2)
    ensures
        r.fd == 0,
        r.flags == consts::BTRFS_SUBVOL_SPEC_BY_ID,
        r.target == VolTarget::Id(subvolid),
{
    VolArgsV2 { fd: 0, flags: consts::BTRFS_SUBVOL_SPEC_BY_ID, target: VolTarget::Id(subvolid) }
}

/// Arguments to create the snapshot `name` of the subvolume open as `snapvol`, read-only when
/// `readonly` is set.
pub fn snapshot_args(snapvol: i64, name: &[u8], readonly: bool) -> (r: IoResult<VolArgsV2>)
    ensures
        spec_vol_name_fits(name@, VOL_ARGS_V2_NAME_LEN as nat) ==> (r matches Ok(a)
            && spec_named_args(
            a,
            snapvol,
            if readonly {
                consts::BTRFS_SUBVOL_RDONLY
            } else {
                0
            },
            name@,
        )),
        !spec_vol_name_fits(name@, VOL_ARGS_V2_NAME_LEN as nat) ==> r == Err::<VolArgsV2, Error>(
            Error::Kind(ErrorKind::InvalidInput),
        ),
{
    let mut flags: u64 = 0;
    if readonly {
        flags = flags | consts::BTRFS_SUBVOL_RDONLY;
        assert(0u64 | 2u64 == 2u64) by (bit_vector);
    }
    let buf = vol_name_buf(name)?;
    Ok(VolArgsV2 { fd: snapvol, flags, target: VolTarget::Name(buf) })
}

/// Whether the subvolume flags `flags` mark the subvolume read-only.
pub fn flags_readonly(flags: u64) -> (r: bool)
    ensures
        r == (flags & consts::BTRFS_SUBVOL_RDONLY != 0),
{
    flags & consts::BTRFS_SUBVOL_RDONLY != 0
}

/// The subvolume flags to set so that the read-only status is `readonly`; see
/// [`readonly_update`].
pub open spec fn spec_readonly_update(flags: u64, readonly: bool) -> Option<u64> {
    if (flags & consts::BTRFS_SUBVOL_RDONLY != 0) == readonly {
        None
    } else {
        Some(flags ^ consts::BTRFS_SUBVOL_RDONLY)
    }
}

/// The subvolume flags to set so that the read-only status is `readonly`, or `None` when the
/// flags `flags` already have it: the read-only bit flips and the other bits stay.
pub fn readonly_update(flags: u64, readonly: bool) -> (r: Option<u64>)
    ensures
        r == spec_readonly_update(flags, readonly),
{
    let want: u64 = if readonly {
        consts::BTRFS_SUBVOL_RDONLY
    } else {
        0
    };
    let have = consts::BTRFS_SUBVOL_RDONLY & flags;
    assert(flags & 2u64 == 2u64 & flags) by (bit_vector);
    assert(flags & 2u64 == 0u64 || flags & 2u64 == 2u64) by (bit_vector);
    if have != want {
        Some(flags ^ consts::BTRFS_SUBVOL_RDONLY)
    } else {
        None
    }
}

/// Whether a file is the root of a subvolume: a directory on a btrfs filesystem whose inode is
/// the first free object id.
pub fn is_subvol(is_btrfs: bool, is_dir: bool, ino: u64) -> (r: bool)
    ensures
        r == (is_btrfs && is_dir && ino == consts::BTRFS_FIRST_FREE_OBJECTID),
{
    is_btrfs && is_dir && ino == consts::BTRFS_FIRST_FREE_OBJECTID
}


/// A name that [`vol_name_buf`] accepts reads back from its name buffer as the name.
pub proof fn lemma_vol_name_round_trip(name: Seq<u8>)
    requires
        spec_vol_name_fits(name, VOL_ARGS_V2_NAME_LEN as nat),
    ensures
        spec_c_name(spec_name_buf(name)) == name,
{
    let zero = Seq::new(VOL_ARGS_V2_NAME_LEN as nat, |i: int| 0u8);
    assert(spec_name_buf(name) =~= spec_set_c_name(zero, name));
    assert forall|i: int| 0 <= i < name.len() implies name[i] != 0 by {
        if name[i] == 0 {
            assert(exists|j: int| 0 <= j < name.len() && name[j] == 0);
        }
    }
    lemma_c_name_round_trip(zero, name);
}

/// The flags that a subvolume has once the update that [`readonly_update`] asks for is made,
/// when it asks for one.
pub open spec fn spec_flags_after(flags: u64, update: Option<u64>) -> u64 {
    match update {
        Some(f) => f,
        None => flags,
    }
}

/// Once the update that [`readonly_update`] asks for is made, the subvolume is read-only
/// exactly when `readonly` is set, and its other flags are as they were.
pub proof fn lemma_readonly_update(flags: u64, readonly: bool)
    ensures
        ({
            let f = spec_flags_after(flags, spec_readonly_update(flags, readonly));
            &&& (f & consts::BTRFS_SUBVOL_RDONLY != 0) == readonly
            &&& f & !consts::BTRFS_SUBVOL_RDONLY == flags & !consts::BTRFS_SUBVOL_RDONLY
        }),
{
    let g = flags ^ 2u64;
    assert(((g & 2u64) != 0) == ((flags & 2u64) == 0) && g & !2u64 == flags & !2u64) by (bit_vector)
        requires
            g == flags ^ 2u64,
    ;
}

} // verus!
