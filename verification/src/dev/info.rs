//! Information about the devices of a btrfs filesystem.
use crate::bytes::{zeroes, Uuid};
use crate::consts;
use crate::error::{Error, ErrorKind, IoResult};
use crate::subvol::info::{c_name, spec_c_name};
use crate::util::{utf8_lossy, utf8_lossy_result, KernelStr};
use vstd::prelude::*;

verus! {

/// Information about a device, as the device info ioctl fills it.
pub struct DevInfo {
    pub devid: u64,
    pub uuid: Uuid,
    pub bytes_used: u64,
    pub total_bytes: u64,
    pub fsid: Uuid,
    /// Zero terminated path of the device, in a buffer of `BTRFS_DEVICE_PATH_NAME_MAX` bytes.
    pub path: Vec<u8>,
}

/// Whether `path` holds a zero byte.
pub open spec fn spec_has_nul(path: Seq<u8>) -> bool {
    exists|i: int| 0 <= i < path.len() && path[i] == 0
}

impl DevInfo {
    /// Arguments for the device info ioctl that asks about the device `devid`.
    pub fn request(devid: u64) -> (r: DevInfo)
        ensures
            r.devid == devid,
            r.bytes_used == 0 && r.total_bytes == 0,
            r.uuid@ == Seq::new(16, |i: int| 0u8),
            r.fsid@ == Seq::new(16, |i: int| 0u8),
            r.path@ == Seq::new(consts::BTRFS_DEVICE_PATH_NAME_MAX as nat, |i: int| 0u8),
    {
        let nil = Uuid::from_bytes([0u8; 16]);
        assert(nil@ =~= Seq::new(16, |i: int| 0u8));
        DevInfo {
            devid,
            uuid: nil,
            bytes_used: 0,
            total_bytes: 0,
            fsid: nil,
            path: zeroes(consts::BTRFS_DEVICE_PATH_NAME_MAX),
        }
    }

    /// Device id
    pub fn device_id(&self) -> (r: u64)
        ensures
            r == self.devid,
    {
        self.devid
    }

    /// UUID of the device
    pub fn device_uuid(&self) -> (r: Uuid)
        ensures
            r == self.uuid,
    {
        self.uuid
    }

    /// Bytes used on the device
    pub fn bytes_used(&self) -> (r: u64)
        ensures
            r == self.bytes_used,
    {
        self.bytes_used
    }

    /// Size of the device in bytes
    pub fn bytes_total(&self) -> (r: u64)
        ensures
            r == self.total_bytes,
    {
        self.total_bytes
    }

    /// Path of the device; the path buffer must hold its terminating zero.
    pub fn path_bytes(&self) -> (r: &[u8])
        requires
            spec_has_nul(self.path@),
        ensures
            r@ == spec_c_name(self.path@),
    {
        c_name(self.path.as_slice())
    }

    /// Path of the device, with invalid UTF-8 replaced; the path buffer must hold its
    /// terminating zero.
    pub fn path_str(&self) -> (r: KernelStr)
        requires
            spec_has_nul(self.path@),
        ensures
            r@ == utf8_lossy_result(spec_c_name(self.path@)),
    {
        utf8_lossy(self.path_bytes())
    }

    /// UUID of the filesystem that the device belongs to
    pub fn fsid(&self) -> (r: Uuid)
        ensures
            r == self.fsid,
    {
        self.fsid
    }
}

/// Where a walk over the devices of a filesystem stands.
pub struct DevWalkView {
    pub num_devices: u64,
    pub max_id: u64,
    pub found_devices: u64,
    pub last_id: u64,
}

/// What a walk over devices asks for next.
#[derive(Debug, PartialEq, Eq, Structural)]
pub enum DevQuery {
    /// Every device was found.
    End,
    /// The walk fails with this error.
    Fail(Error),
    /// Ask the device info ioctl about the device with this id.
    Ask(u64),
}

/// What one answer of the device info ioctl does to a walk over devices.
#[derive(Debug, PartialEq, Eq, Structural)]
pub enum DevAnswer {
    /// The device is the next one of the walk.
    Found,
    /// The walk fails with this error.
    Fail(Error),
    /// There is no device with the id asked about: ask about this id next.
    Ask(u64),
}

/// Walks the devices of a filesystem in order of their ids, from the filesystem's device count
/// and largest device id.
///
/// The caller asks the device info ioctl about the ids that [`DevWalk::next_query`] and
/// [`DevWalk::answer`] give, and hands each outcome to [`DevWalk::answer`].
pub struct DevWalk {
    num_devices: u64,
    max_id: u64,
    found_devices: u64,
    last_id: u64,
}

impl View for DevWalk {
    type V = DevWalkView;

    closed spec fn view(&self) -> DevWalkView {
        DevWalkView {
            num_devices: self.num_devices,
            max_id: self.max_id,
            found_devices: self.found_devices,
            last_id: self.last_id,
        }
    }
}

/// What the walk `w` asks for next: when the last id found reaches the largest id, it ends if
/// it found as many devices as the filesystem has, and fails with `InvalidData` otherwise.
pub open spec fn spec_dev_query(w: DevWalkView) -> DevQuery {
    if w.last_id >= w.max_id {
        if w.found_devices != w.num_devices {
            DevQuery::Fail(Error::Kind(ErrorKind::InvalidData))
        } else {
            DevQuery::End
        }
    } else {
        DevQuery::Ask((w.last_id + 1) as u64)
    }
}

impl DevWalk {
    /// A walk over the `num_devices` devices of a filesystem whose largest device id is
    /// `max_id`.
    pub fn new(num_devices: u64, max_id: u64) -> (r: DevWalk)
        ensures
            r@ == (DevWalkView { num_devices, max_id, found_devices: 0, last_id: 0 }),
    {
        DevWalk { num_devices, max_id, found_devices: 0, last_id: 0 }
    }

    /// What the walk asks for next.
    pub fn next_query(&self) -> (r: DevQuery)
        ensures
            r == spec_dev_query(self@),
    {
        if self.last_id >= self.max_id {
            if self.found_devices != self.num_devices {
                DevQuery::Fail(Error::Kind(ErrorKind::InvalidData))
            } else {
                DevQuery::End
            }
        } else {
            DevQuery::Ask(self.last_id + 1)
        }
    }

    /// Takes the outcome of asking about the device `id`. A missing device (`ENODEV`) sends the
    /// walk on to the next id; another error ends it. A device found is the next one, unless
    /// the walk has then found more devices than the filesystem has.
    pub fn answer(&mut self, id: u64, res: IoResult<()>) -> (r: DevAnswer)
        ensures
            res == Err::<(), Error>(Error::Os(consts::ENODEV)) ==> final(self)@ == old(self)@ && r
                == if id < u64::MAX {
                DevAnswer::Ask((id + 1) as u64)
            } else {
                DevAnswer::Fail(Error::Os(consts::ENODEV))
            },
            (res matches Err(e) && e != Error::Os(consts::ENODEV)) ==> final(self)@ == old(self)@
                && r == DevAnswer::Fail(res->Err_0),
            res is Ok && old(self)@.found_devices < u64::MAX ==> {
                &&& final(self)@ == (DevWalkView {
                    last_id: id,
                    found_devices: (old(self)@.found_devices + 1) as u64,
                    ..old(self)@
                })
                &&& r == if final(self)@.found_devices > final(self)@.num_devices {
                    DevAnswer::Fail(Error::Kind(ErrorKind::InvalidData))
                } else {
                    DevAnswer::Found
                }
            },
            res is Ok && old(self)@.found_devices == u64::MAX ==> final(self)@ == old(self)@ && r
                == DevAnswer::Fail(Error::Kind(ErrorKind::InvalidData)),
    {
        match res {
            Err(e) => {
                if e == Error::Os(consts::ENODEV) {
                    if id < u64::MAX {
                        DevAnswer::Ask(id + 1)
                    } else {
                        DevAnswer::Fail(e)
                    }
                } else {
                    DevAnswer::Fail(e)
                }
            },
            Ok(()) => {
                if self.found_devices == u64::MAX {
                    return DevAnswer::Fail(Error::Kind(ErrorKind::InvalidData));
                }
                self.last_id = id;
                self.found_devices = self.found_devices + 1;
                if self.found_devices > self.num_devices {
                    DevAnswer::Fail(Error::Kind(ErrorKind::InvalidData))
                } else {
                    DevAnswer::Found
                }
            },
        }
    }

    /// Devices not yet found, as far as the device count tells.
    pub fn remaining(&self) -> (r: u64)
        ensures
            self@.found_devices <= self@.num_devices ==> r == self@.num_devices
                - self@.found_devices,
            self@.found_devices > self@.num_devices ==> r == 0,
    {
        if self.found_devices <= self.num_devices {
            self.num_devices - self.found_devices
        } else {
            0
        }
    }
}


/// A walk over devices ends only once it has found as many devices as the filesystem has and
/// has reached the largest device id.
pub proof fn lemma_dev_walk_end(w: DevWalkView)
    ensures
        spec_dev_query(w) == DevQuery::End ==> w.found_devices == w.num_devices && w.last_id
            >= w.max_id,
{
}

/// Each id that a walk over devices asks about comes after the last device it found, and is
/// at least 1 and at most the filesystem's largest device id.
pub proof fn lemma_dev_walk_asks_in_range(w: DevWalkView, id: u64)
    requires
        spec_dev_query(w) == DevQuery::Ask(id),
    ensures
        w.last_id < id,
        1 <= id <= w.max_id,
{
}

} // verus!
