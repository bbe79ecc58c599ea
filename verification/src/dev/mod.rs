//! Btrfs device operations.
//!
//! Structures which provide information about devices in a btrfs filesystem, and the arguments
//! of the ioctls that add and remove devices.
pub mod info;

use crate::bytes::zeroes;
use crate::consts;
use crate::error::{Error, ErrorKind, IoResult};
use crate::subvol::vol_args::{VolArgsV2, VolTarget, spec_named_args, spec_name_buf, vol_name_buf, VOL_ARGS_V2_NAME_LEN};
use crate::util::{set_vol_name, spec_vol_name_fits};
use vstd::prelude::*;

verus! {

/// Statistics on the errors of a device, as the device statistics ioctl fills them.
pub struct DevStats {
    pub devid: u64,
    pub nr_items: u64,
    pub flags: u64,
    pub values: [u64; 5],
}

impl DevStats {
    /// Arguments for the device statistics ioctl that asks for every statistic of the device
    /// `devid`.
    pub fn request(devid: u64) -> (r: DevStats)
        ensures
            r.devid == devid,
            r.nr_items == consts::BTRFS_DEV_STAT_VALUES_MAX,
            r.flags == 0,
            r.values@ == Seq::new(5, |i: int| 0u64),
    {
        let r = DevStats {
            devid,
            nr_items: consts::BTRFS_DEV_STAT_VALUES_MAX as u64,
            flags: 0,
            values: [0u64; 5],
        };
        assert(r.values@ =~= Seq::new(5, |i: int| 0u64));
        r
    }

    /// Write errors
    pub fn write_errors(&self) -> (r: u64)
        ensures
            r == self.values@[consts::BTRFS_DEV_STAT_WRITE_ERRS as int],
    {
        self.values[consts::BTRFS_DEV_STAT_WRITE_ERRS]
    }

    /// Read errors
    pub fn read_errors(&self) -> (r: u64)
        ensures
            r == self.values@[consts::BTRFS_DEV_STAT_READ_ERRS as int],
    {
        self.values[consts::BTRFS_DEV_STAT_READ_ERRS]
    }

    /// Flush errors
    pub fn flush_errors(&self) -> (r: u64)
        ensures
            r == self.values@[consts::BTRFS_DEV_STAT_FLUSH_ERRS as int],
    {
        self.values[consts::BTRFS_DEV_STAT_FLUSH_ERRS]
    }

    /// Checksum or other corruption errors
    pub fn corruptions_errors(&self) -> (r: u64)
        ensures
            r == self.values@[consts::BTRFS_DEV_STAT_CORRUPTION_ERRS as int],
    {
        self.values[consts::BTRFS_DEV_STAT_CORRUPTION_ERRS]
    }

    /// Generation errors: blocks whose generation was not the expected one
    pub fn generation_errors(&self) -> (r: u64)
        ensures
            r == self.values@[consts::BTRFS_DEV_STAT_GENERATION_ERRS as int],
    {
        self.values[consts::BTRFS_DEV_STAT_GENERATION_ERRS]
    }

    /// Whether any of the statistics is not zero
    pub fn has_errors(&self) -> (r: bool)
        ensures
            r == exists|i: int| 0 <= i < 5 && self.values@[i] != 0,
    {
        let mut i: usize = 0;
        while i < 5
            invariant
                i <= 5,
                forall|k: int| 0 <= k < i ==> self.values@[k] == 0,
            decreases 5 - i,
        {
            if self.values[i] != 0 {
                return true;
            }
            i = i + 1;
        }
        false
    }
}

/// Length of the name buffer of the version 1 volume ioctl arguments.
pub const VOL_ARGS_NAME_LEN: usize = 4088;

/// Arguments of the version 1 volume ioctls: a descriptor and a name buffer of
/// `VOL_ARGS_NAME_LEN` bytes.
pub struct VolArgs {
    pub fd: i64,
    pub name: Vec<u8>,
}

/// Arguments to add the device at the path `device`; fails with `InvalidInput` when the path
/// holds a zero byte or leaves no room for the terminating zero.
pub fn add_args(device: &[u8]) -> (r: IoResult<VolArgs>)
    ensures
        spec_vol_name_fits(device@, VOL_ARGS_NAME_LEN as nat) ==> (r matches Ok(a) && a.fd == 0
            && a.name@ == device@ + Seq::new(
            (VOL_ARGS_NAME_LEN - device@.len()) as nat,
            |i: int| 0u8,
        )),
        !spec_vol_name_fits(device@, VOL_ARGS_NAME_LEN as nat) ==> r == Err::<VolArgs, Error>(
            Error::Kind(ErrorKind::InvalidInput),
        ),
{
    let mut name = zeroes(VOL_ARGS_NAME_LEN);
    set_vol_name(device, &mut name)?;
    assert(name@ =~= device@ + Seq::new((VOL_ARGS_NAME_LEN - device@.len()) as nat, |i: int| 0u8));
    Ok(VolArgs { fd: 0, name })
}

/// Arguments to remove the device at the path `device` with the version 2 ioctl; fails with
/// `InvalidInput` when the path holds a zero byte or leaves no room for the terminating zero.
pub fn rm_args(device: &[u8]) -> (r: IoResult<VolArgsV2>)
    ensures
        spec_vol_name_fits(device@, VOL_ARGS_V2_NAME_LEN as nat) ==> (r matches Ok(a)
            && spec_named_args(a, 0, 0, device@)),
        !spec_vol_name_fits(device@, VOL_ARGS_V2_NAME_LEN as nat) ==> r == Err::<VolArgsV2, Error>(
            Error::Kind(ErrorKind::InvalidInput),
        ),
{
    let buf = vol_name_buf(device)?;
    Ok(VolArgsV2 { fd: 0, flags: 0, target: VolTarget::Name(buf) })
}

/// Whether a failed version 2 device removal is retried with the version 1 ioctl: its error
/// carries the number `ENOTTY` or `EOPNOTSUPP`.
pub fn rm_falls_back(e: &Error) -> (r: bool)
    ensures
        r == (*e == Error::Os(consts::ENOTTY) || *e == Error::Os(consts::EOPNOTSUPP)),
{
    match e {
        Error::Os(code) => *code == consts::ENOTTY || *code == consts::EOPNOTSUPP,
        _ => false,
    }
}

/// Arguments to remove the device with the id `devid`.
pub fn rm_by_id_args(devid: u64) -> (r: VolArgsV2)
    ensures
        r.fd == 0,
        r.flags == consts::BTRFS_DEVICE_SPEC_BY_ID,
        r.target == VolTarget::Id(devid),
{
    VolArgsV2 { fd: 0, flags: consts::BTRFS_DEVICE_SPEC_BY_ID, target: VolTarget::Id(devid) }
}

} // verus!
