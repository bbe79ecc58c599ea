//! Type-length-value attributes of send commands.
//!
//! A command payload is a sequence of attributes. Each attribute is a little-endian `u16` type,
//! a little-endian `u16` length, and that many bytes of value. In a version 2 stream the data
//! attribute of a data command has no length: its value runs to the end of the payload.
use crate::bytes::{le16, read_le16};
use crate::error::ReceiveError;
use vstd::prelude::*;

verus! {

/// Attribute type of the data attribute.
pub const DATA_ATTR: u16 = 19;

/// The attribute types of the send stream.
pub struct SendAttr;

impl SendAttr {
    pub const UNSPEC: usize = 0;
    pub const UUID: usize = 1;
    pub const CTRANSID: usize = 2;
    pub const INO: usize = 3;
    pub const SIZE: usize = 4;
    pub const MODE: usize = 5;
    pub const UID: usize = 6;
    pub const GID: usize = 7;
    pub const RDEV: usize = 8;
    pub const CTIME: usize = 9;
    pub const MTIME: usize = 10;
    pub const ATIME: usize = 11;
    pub const OTIME: usize = 12;
    pub const XATTR_NAME: usize = 13;
    pub const XATTR_DATA: usize = 14;
    pub const PATH: usize = 15;
    pub const PATH_TO: usize = 16;
    pub const PATH_LINK: usize = 17;
    pub const FILE_OFFSET: usize = 18;
    pub const DATA: usize = 19;
    pub const CLONE_UUID: usize = 20;
    pub const CLONE_CTRANSID: usize = 21;
    pub const CLONE_PATH: usize = 22;
    pub const CLONE_OFFSET: usize = 23;
    pub const CLONE_LEN: usize = 24;
    pub const FALLOCATE_MODE: usize = 25;
    pub const FILEATTR: usize = 26;
    pub const UNENCODED_FILE_LEN: usize = 27;
    pub const UNENCODED_LEN: usize = 28;
    pub const UNENCODED_OFFSET: usize = 29;
    pub const COMPRESSION: usize = 30;
    pub const ENCRYPTION: usize = 31;
    pub const VERITY_ALGORITHM: usize = 32;
    pub const VERITY_BLOCK_SIZE: usize = 33;
    pub const VERITY_SALT_DATA: usize = 34;
    pub const VERITY_SIG_DATA: usize = 35;
    /// One more than the largest attribute type.
    pub const LEN: usize = 36;

    /// Whether `attr` is an attribute type: not the unspecified type, and below [`SendAttr::LEN`].
    pub fn is_valid(attr: usize) -> (r: bool)
        ensures
            r == (attr != Self::UNSPEC && attr < Self::LEN),
    {
        attr != Self::UNSPEC && attr < Self::LEN
    }
}

/// How the value of an attribute is decoded.
#[derive(Debug, Clone, Copy, PartialEq, Eq, Structural)]
pub enum AttrKind {
    /// Raw bytes, any length.
    Bytes,
    /// Little-endian `u32`.
    U32,
    /// Little-endian `u64`.
    U64,
    /// A 16 byte uuid.
    Uuid,
    /// A little-endian `u64` of seconds followed by a little-endian `u32` of nanoseconds.
    Timespec,
}

/// Whether a value of `len` bytes can be decoded as `kind`.
pub open spec fn kind_len_ok(kind: AttrKind, len: int) -> bool {
    match kind {
        AttrKind::Bytes => true,
        AttrKind::U32 => len == 4,
        AttrKind::U64 => len == 8,
        AttrKind::Uuid => len == 16,
        AttrKind::Timespec => len == 12,
    }
}

/// The error reported for a value whose length does not suit `kind`.
pub open spec fn kind_error(kind: AttrKind) -> ReceiveError {
    match kind {
        AttrKind::Uuid => ReceiveError::InvalidUuidLength,
        AttrKind::Timespec => ReceiveError::InvalidTimespecLength,
        _ => ReceiveError::InvalidIntLength,
    }
}

/// Index of the first schema entry at or after `i` whose attribute type is `ty`, or `-1`.
pub open spec fn schema_slot_from(schema: Seq<(u16, AttrKind)>, ty: u16, i: int) -> int
    decreases schema.len() - i,
{
    if i < 0 || i >= schema.len() {
        -1
    } else if schema[i].0 == ty {
        i
    } else {
        schema_slot_from(schema, ty, i + 1)
    }
}

/// Index of the schema entry for attribute type `ty`, or `-1`.
pub open spec fn schema_slot(schema: Seq<(u16, AttrKind)>, ty: u16) -> int {
    schema_slot_from(schema, ty, 0)
}

/// No slot filled yet.
pub open spec fn empty_slots(n: nat) -> Seq<Option<(usize, usize)>> {
    Seq::new(n, |i: int| None)
}

/// Scans the attributes of `p` from `pos` on, recording in `slots` the value range of the last
/// attribute of each type named in `schema`.
///
/// The scan stops without error when fewer than four bytes are left. It fails with `Truncated`
/// when an attribute's value runs past the end, and with the kind's error when a value of a type
/// in the schema has the wrong length.
pub open spec fn tlv_scan(
    p: Seq<u8>,
    pos: int,
    schema: Seq<(u16, AttrKind)>,
    slots: Seq<Option<(usize, usize)>>,
) -> Result<Seq<Option<(usize, usize)>>, ReceiveError>
    decreases p.len() - pos,
{
    if pos < 0 || pos + 4 > p.len() {
        Ok(slots)
    } else {
        let ty = le16(p, pos);
        let len = le16(p, pos + 2) as int;
        let start = pos + 4;
        if start + len > p.len() {
            Err(ReceiveError::Truncated)
        } else {
            let k = schema_slot(schema, ty);
            if 0 <= k < schema.len() {
                if !kind_len_ok(schema[k].1, len) {
                    Err(kind_error(schema[k].1))
                } else {
                    tlv_scan(
                        p,
                        start + len,
                        schema,
                        slots.update(k, Some((start as usize, (start + len) as usize))),
                    )
                }
            } else {
                tlv_scan(p, start + len, schema, slots)
            }
        }
    }
}

/// Every slot is filled.
pub open spec fn all_present(slots: Seq<Option<(usize, usize)>>) -> bool {
    forall|i: int| 0 <= i < slots.len() ==> (#[trigger] slots[i]) is Some
}

/// Value ranges of the attributes that `schema` names, in the order of the schema, when the
/// payload `p` is well formed and holds each of them.
pub open spec fn tlv_attrs(p: Seq<u8>, schema: Seq<(u16, AttrKind)>) -> Result<
    Seq<(usize, usize)>,
    ReceiveError,
> {
    match tlv_scan(p, 0, schema, empty_slots(schema.len())) {
        Err(e) => Err(e),
        Ok(slots) => if all_present(slots) {
            Ok(slots.map_values(|o: Option<(usize, usize)>| o.unwrap()))
        } else {
            Err(ReceiveError::MissingAttributes)
        },
    }
}

/// A filled slot lies inside the payload and suits the kind of its schema entry.
pub open spec fn slot_valid(p: Seq<u8>, kind: AttrKind, slot: (usize, usize)) -> bool {
    &&& slot.0 <= slot.1 <= p.len()
    &&& kind_len_ok(kind, slot.1 - slot.0)
}

fn len_ok(kind: AttrKind, len: usize) -> (r: bool)
    ensures
        r == kind_len_ok(kind, len as int),
{
    match kind {
        AttrKind::Bytes => true,
        AttrKind::U32 => len == 4,
        AttrKind::U64 => len == 8,
        AttrKind::Uuid => len == 16,
        AttrKind::Timespec => len == 12,
    }
}

fn kind_err(kind: AttrKind) -> (r: ReceiveError)
    ensures
        r == kind_error(kind),
{
    match kind {
        AttrKind::Uuid => ReceiveError::InvalidUuidLength,
        AttrKind::Timespec => ReceiveError::InvalidTimespecLength,
        _ => ReceiveError::InvalidIntLength,
    }
}

/// Index of the schema entry for `ty`, or `schema.len()` when there is none.
fn find_slot(schema: &[(u16, AttrKind)], ty: u16) -> (r: usize)
    ensures
        r <= schema@.len(),
        r < schema@.len() ==> schema_slot(schema@, ty) == r,
        r == schema@.len() ==> schema_slot(schema@, ty) == -1,
{
    let mut i: usize = 0;
    while i < schema.len()
        invariant
            i <= schema@.len(),
            schema_slot(schema@, ty) == schema_slot_from(schema@, ty, i as int),
        decreases schema@.len() - i,
    {
        if schema[i].0 == ty {
            return i;
        }
        i = i + 1;
    }
    i
}

/// Finds the value range of each attribute that `schema` names in the payload `payload`.
pub fn parse_attrs(payload: &[u8], schema: &[(u16, AttrKind)]) -> (r: Result<
    Vec<(usize, usize)>,
    ReceiveError,
>)
    ensures
        r matches Ok(v) ==> tlv_attrs(payload@, schema@) == Ok::<_, ReceiveError>(v@),
        r matches Err(e) ==> tlv_attrs(payload@, schema@) == Err::<Seq<(usize, usize)>, _>(e),
        r matches Ok(v) ==> v@.len() == schema@.len() && forall|i: int|
            0 <= i < v@.len() ==> slot_valid(payload@, schema@[i].1, #[trigger] v@[i]),
{
    let mut slots: Vec<Option<(usize, usize)>> = Vec::new();
    let mut n: usize = 0;
    while n < schema.len()
        invariant
            n <= schema@.len(),
            slots@ =~= empty_slots(n as nat),
        decreases schema@.len() - n,
    {
        slots.push(None);
        n = n + 1;
    }
    let ghost init = slots@;
    assert(init == empty_slots(schema@.len()));
    let mut pos: usize = 0;
    while payload.len() >= 4 && pos <= payload.len() - 4
        invariant
            pos <= payload@.len(),
            init == empty_slots(schema@.len()),
            slots@.len() == schema@.len(),
            tlv_scan(payload@, 0, schema@, init) == tlv_scan(payload@, pos as int, schema@, slots@),
            forall|i: int|
                0 <= i < slots@.len() && (#[trigger] slots@[i]) is Some ==> slot_valid(
                    payload@,
                    schema@[i].1,
                    slots@[i].unwrap(),
                ),
        decreases payload@.len() - pos,
    {
        let ty = read_le16(payload, pos);
        let len = read_le16(payload, pos + 2) as usize;
        let start = pos + 4;
        if len > payload.len() - start {
            return Err(ReceiveError::Truncated);
        }
        let k = find_slot(schema, ty);
        if k < schema.len() {
            let kind = schema[k].1;
            if !len_ok(kind, len) {
                return Err(kind_err(kind));
            }
            slots.set(k, Some((start, start + len)));
        }
        pos = start + len;
    }
    let mut out: Vec<(usize, usize)> = Vec::new();
    let mut i: usize = 0;
    while i < slots.len()
        invariant
            i <= slots@.len(),
            init == empty_slots(schema@.len()),
            slots@.len() == schema@.len(),
            tlv_scan(payload@, 0, schema@, init) == Ok::<_, ReceiveError>(slots@),
            forall|j: int| 0 <= j < i ==> (#[trigger] slots@[j]) is Some,
            out@.len() == i,
            forall|j: int| 0 <= j < i ==> out@[j] == (#[trigger] slots@[j]).unwrap(),
            forall|j: int|
                0 <= j < slots@.len() && (#[trigger] slots@[j]) is Some ==> slot_valid(
                    payload@,
                    schema@[j].1,
                    slots@[j].unwrap(),
                ),
        decreases slots@.len() - i,
    {
        match slots[i] {
            Some(range) => {
                out.push(range);
            },
            None => {
                assert(!all_present(slots@));
                return Err(ReceiveError::MissingAttributes);
            },
        }
        i = i + 1;
    }
    assert(all_present(slots@));
    assert(out@ =~= slots@.map_values(|o: Option<(usize, usize)>| o.unwrap()));
    Ok(out)
}

/// Outcome of scanning the attributes of a version 2 data command.
pub enum ScanV2 {
    /// An attribute type stands at the end of the payload without its length.
    Panic,
    /// A value of a type in the schema has the wrong length.
    Fail(ReceiveError),
    /// The scan ended; the filled slots and, when the data attribute was met, where its value
    /// starts.
    Done(Seq<Option<(usize, usize)>>, Option<usize>),
}

/// Scans the attributes of a version 2 data command from `pos` on.
///
/// The data attribute has no length and ends the scan. An attribute whose value runs past the
/// end of the payload also ends it, without error.
pub open spec fn tlv_scan_v2(
    p: Seq<u8>,
    pos: int,
    schema: Seq<(u16, AttrKind)>,
    slots: Seq<Option<(usize, usize)>>,
) -> ScanV2
    decreases p.len() - pos,
{
    if pos < 0 || pos + 2 > p.len() {
        ScanV2::Done(slots, None)
    } else if le16(p, pos) == DATA_ATTR {
        ScanV2::Done(slots, Some((pos + 2) as usize))
    } else if pos + 4 > p.len() {
        ScanV2::Panic
    } else {
        let ty = le16(p, pos);
        let len = le16(p, pos + 2) as int;
        let start = pos + 4;
        if start + len > p.len() {
            ScanV2::Done(slots, None)
        } else {
            let k = schema_slot(schema, ty);
            if 0 <= k < schema.len() {
                if !kind_len_ok(schema[k].1, len) {
                    ScanV2::Fail(kind_error(schema[k].1))
                } else {
                    tlv_scan_v2(
                        p,
                        start + len,
                        schema,
                        slots.update(k, Some((start as usize, (start + len) as usize))),
                    )
                }
            } else {
                tlv_scan_v2(p, start + len, schema, slots)
            }
        }
    }
}

/// The scan of a version 2 data command over `p` with `schema`.
pub open spec fn tlv_v2(p: Seq<u8>, schema: Seq<(u16, AttrKind)>) -> ScanV2 {
    tlv_scan_v2(p, 0, schema, empty_slots(schema.len()))
}

/// Scans the attributes of a version 2 data command; see [`tlv_scan_v2`].
pub fn parse_attrs_v2(payload: &[u8], schema: &[(u16, AttrKind)]) -> (r: Result<
    (Vec<Option<(usize, usize)>>, Option<usize>),
    ReceiveError,
>)
    requires
        !(tlv_v2(payload@, schema@) is Panic),
    ensures
        r matches Ok((v, d)) ==> tlv_v2(payload@, schema@) == ScanV2::Done(v@, d),
        r matches Err(e) ==> tlv_v2(payload@, schema@) == ScanV2::Fail(e),
        r matches Ok((v, d)) ==> {
            &&& v@.len() == schema@.len()
            &&& forall|i: int|
                0 <= i < v@.len() && (#[trigger] v@[i]) is Some ==> slot_valid(
                    payload@,
                    schema@[i].1,
                    v@[i].unwrap(),
                )
            &&& d matches Some(start) ==> start <= payload@.len()
        },
{
    let mut slots: Vec<Option<(usize, usize)>> = Vec::new();
    let mut n: usize = 0;
    while n < schema.len()
        invariant
            n <= schema@.len(),
            slots@ =~= empty_slots(n as nat),
        decreases schema@.len() - n,
    {
        slots.push(None);
        n = n + 1;
    }
    let ghost init = slots@;
    assert(init == empty_slots(schema@.len()));
    let mut pos: usize = 0;
    while payload.len() >= 2 && pos <= payload.len() - 2
        invariant
            pos <= payload@.len(),
            init == empty_slots(schema@.len()),
            slots@.len() == schema@.len(),
            tlv_scan_v2(payload@, 0, schema@, init) == tlv_scan_v2(
                payload@,
                pos as int,
                schema@,
                slots@,
            ),
            !(tlv_scan_v2(payload@, 0, schema@, init) is Panic),
            forall|i: int|
                0 <= i < slots@.len() && (#[trigger] slots@[i]) is Some ==> slot_valid(
                    payload@,
                    schema@[i].1,
                    slots@[i].unwrap(),
                ),
        decreases payload@.len() - pos,
    {
        let ty = read_le16(payload, pos);
        if ty == DATA_ATTR {
            return Ok((slots, Some(pos + 2)));
        }
        if pos + 4 > payload.len() {
            assert(false);
            return Ok((slots, None));
        }
        let len = read_le16(payload, pos + 2) as usize;
        let start = pos + 4;
        if len > payload.len() - start {
            return Ok((slots, None));
        }
        let k = find_slot(schema, ty);
        if k < schema.len() {
            let kind = schema[k].1;
            if !len_ok(kind, len) {
                return Err(kind_err(kind));
            }
            slots.set(k, Some((start, start + len)));
        }
        pos = start + len;
    }
    Ok((slots, None))
}


/// Whether scanning the attributes of a version 2 data command stops at an attribute type
/// that stands at the end of the payload without its length; see [`tlv_scan_v2`].
pub fn scan_v2_panics(payload: &[u8], schema: &[(u16, AttrKind)]) -> (r: bool)
    ensures
        r == (tlv_v2(payload@, schema@) is Panic),
{
    let mut slots: Vec<Option<(usize, usize)>> = Vec::new();
    let mut n: usize = 0;
    while n < schema.len()
        invariant
            n <= schema@.len(),
            slots@ =~= empty_slots(n as nat),
        decreases schema@.len() - n,
    {
        slots.push(None);
        n = n + 1;
    }
    let ghost init = slots@;
    let mut pos: usize = 0;
    while payload.len() >= 2 && pos <= payload.len() - 2
        invariant
            pos <= payload@.len(),
            init == empty_slots(schema@.len()),
            slots@.len() == schema@.len(),
            tlv_scan_v2(payload@, 0, schema@, init) == tlv_scan_v2(
                payload@,
                pos as int,
                schema@,
                slots@,
            ),
        decreases payload@.len() - pos,
    {
        let ty = read_le16(payload, pos);
        if ty == DATA_ATTR {
            return false;
        }
        if payload.len() - pos < 4 {
            return true;
        }
        let len = read_le16(payload, pos + 2) as usize;
        let start = pos + 4;
        if len > payload.len() - start {
            return false;
        }
        let k = find_slot(schema, ty);
        if k < schema.len() {
            let kind = schema[k].1;
            if !len_ok(kind, len) {
                return false;
            }
            slots.set(k, Some((start, start + len)));
        }
        pos = start + len;
    }
    false
}


/// The value range of the last attribute of type `ty` in `p` at or after `pos`, or `found` when
/// there is none. The walk stops where fewer than four bytes are left, or at a value that runs
/// past the end of the payload.
pub open spec fn last_attr_from(p: Seq<u8>, pos: int, ty: u16, found: Option<(usize, usize)>) -> Option<
    (usize, usize),
>
    decreases p.len() - pos,
{
    if pos < 0 || pos + 4 > p.len() {
        found
    } else {
        let len = le16(p, pos + 2) as int;
        let start = pos + 4;
        if start + len > p.len() {
            found
        } else {
            last_attr_from(
                p,
                start + len,
                ty,
                if le16(p, pos) == ty {
                    Some((start as usize, (start + len) as usize))
                } else {
                    found
                },
            )
        }
    }
}

/// The value range of the last attribute of type `ty` in the payload `p`, if it holds one.
pub open spec fn attr_range(p: Seq<u8>, ty: u16) -> Option<(usize, usize)> {
    last_attr_from(p, 0, ty, None)
}

/// Where the value of the last attribute of type `ty` in `p` starts.
pub open spec fn attr_start(p: Seq<u8>, ty: u16) -> int {
    attr_range(p, ty).unwrap().0 as int
}

/// The value of the last attribute of type `ty` in `p`.
pub open spec fn attr_bytes(p: Seq<u8>, ty: u16) -> Seq<u8> {
    p.subrange(attr_range(p, ty).unwrap().0 as int, attr_range(p, ty).unwrap().1 as int)
}

/// The walk of a version 2 data command: as [`last_attr_from`], but the data attribute, which has
/// no length, ends it, and so does an attribute type without its length.
pub open spec fn last_attr_v2_from(p: Seq<u8>, pos: int, ty: u16, found: Option<(usize, usize)>) -> Option<
    (usize, usize),
>
    decreases p.len() - pos,
{
    if pos < 0 || pos + 2 > p.len() || le16(p, pos) == DATA_ATTR || pos + 4 > p.len() {
        found
    } else {
        let len = le16(p, pos + 2) as int;
        let start = pos + 4;
        if start + len > p.len() {
            found
        } else {
            last_attr_v2_from(
                p,
                start + len,
                ty,
                if le16(p, pos) == ty {
                    Some((start as usize, (start + len) as usize))
                } else {
                    found
                },
            )
        }
    }
}

/// Where the value of the data attribute of a version 2 data command starts, at or after `pos`:
/// just after its type, which must come before the walk stops.
pub open spec fn data_start_v2_from(p: Seq<u8>, pos: int) -> Option<usize>
    decreases p.len() - pos,
{
    if pos < 0 || pos + 2 > p.len() {
        None
    } else if le16(p, pos) == DATA_ATTR {
        Some((pos + 2) as usize)
    } else if pos + 4 > p.len() {
        None
    } else {
        let len = le16(p, pos + 2) as int;
        let start = pos + 4;
        if start + len > p.len() {
            None
        } else {
            data_start_v2_from(p, start + len)
        }
    }
}

/// The value range of the last attribute of type `ty` before the data of the version 2 data
/// command `p`.
pub open spec fn attr_range_v2(p: Seq<u8>, ty: u16) -> Option<(usize, usize)> {
    last_attr_v2_from(p, 0, ty, None)
}

/// Where the data of the version 2 data command `p` starts.
pub open spec fn data_start_v2(p: Seq<u8>) -> Option<usize> {
    data_start_v2_from(p, 0)
}

/// A schema entry found by [`schema_slot_from`] names the type looked for.
proof fn lemma_schema_slot_from(schema: Seq<(u16, AttrKind)>, ty: u16, i: int)
    ensures
        schema_slot_from(schema, ty, i) == -1 || (i <= schema_slot_from(schema, ty, i)
            < schema.len() && schema[schema_slot_from(schema, ty, i)].0 == ty),
    decreases schema.len() - i,
{
    if !(i < 0 || i >= schema.len()) && schema[i].0 != ty {
        lemma_schema_slot_from(schema, ty, i + 1);
    }
}

/// Where a successful scan records the attribute of the `k`-th schema entry, the walk for that
/// type finds it.
proof fn lemma_scan_last(
    p: Seq<u8>,
    pos: int,
    schema: Seq<(u16, AttrKind)>,
    slots: Seq<Option<(usize, usize)>>,
    k: int,
)
    requires
        tlv_scan(p, pos, schema, slots) is Ok,
        0 <= k < schema.len(),
        slots.len() == schema.len(),
        schema_slot(schema, schema[k].0) == k,
    ensures
        (tlv_scan(p, pos, schema, slots)->Ok_0)[k] == last_attr_from(p, pos, schema[k].0, slots[k]),
        (tlv_scan(p, pos, schema, slots)->Ok_0).len() == slots.len(),
    decreases p.len() - pos,
{
    if pos < 0 || pos + 4 > p.len() {
    } else {
        let ty = le16(p, pos);
        let len = le16(p, pos + 2) as int;
        let start = pos + 4;
        if start + len <= p.len() {
            let kk = schema_slot(schema, ty);
            lemma_schema_slot_from(schema, ty, 0);
            if 0 <= kk < schema.len() {
                let next = slots.update(kk, Some((start as usize, (start + len) as usize)));
                lemma_scan_last(p, start + len, schema, next, k);
                if ty != schema[k].0 {
                    assert(kk != k);
                }
            } else {
                lemma_scan_last(p, start + len, schema, slots, k);
            }
        }
    }
}

/// The value range that parsing records for the `k`-th entry of `schema` is that of the last
/// attribute of the entry's type in the payload, when no earlier entry has that type.
pub proof fn lemma_tlv_attrs_last(p: Seq<u8>, schema: Seq<(u16, AttrKind)>, k: int)
    requires
        tlv_attrs(p, schema) is Ok,
        0 <= k < schema.len(),
        schema_slot(schema, schema[k].0) == k,
    ensures
        attr_range(p, schema[k].0) == Some((tlv_attrs(p, schema)->Ok_0)[k]),
{
    let init = empty_slots(schema.len());
    lemma_scan_last(p, 0, schema, init, k);
    let slots = tlv_scan(p, 0, schema, init)->Ok_0;
    assert(all_present(slots));
    assert(slots[k] is Some);
}

/// Where a version 2 scan that ends records the attribute of the `k`-th schema entry, the
/// version 2 walk for that type finds it, and the data starts where the walk finds it.
proof fn lemma_scan_v2_last(
    p: Seq<u8>,
    pos: int,
    schema: Seq<(u16, AttrKind)>,
    slots: Seq<Option<(usize, usize)>>,
    k: int,
)
    requires
        tlv_scan_v2(p, pos, schema, slots) is Done,
        0 <= k < schema.len(),
        slots.len() == schema.len(),
        schema_slot(schema, schema[k].0) == k,
    ensures
        (tlv_scan_v2(p, pos, schema, slots)->Done_0)[k] == last_attr_v2_from(
            p,
            pos,
            schema[k].0,
            slots[k],
        ),
        tlv_scan_v2(p, pos, schema, slots)->Done_1 == data_start_v2_from(p, pos),
    decreases p.len() - pos,
{
    if pos < 0 || pos + 2 > p.len() || le16(p, pos) == DATA_ATTR || pos + 4 > p.len() {
    } else {
        let ty = le16(p, pos);
        let len = le16(p, pos + 2) as int;
        let start = pos + 4;
        if start + len <= p.len() {
            let kk = schema_slot(schema, ty);
            lemma_schema_slot_from(schema, ty, 0);
            if 0 <= kk < schema.len() {
                let next = slots.update(kk, Some((start as usize, (start + len) as usize)));
                lemma_scan_v2_last(p, start + len, schema, next, k);
                if ty != schema[k].0 {
                    assert(kk != k);
                }
            } else {
                lemma_scan_v2_last(p, start + len, schema, slots, k);
            }
        }
    }
}

/// What a version 2 scan records for the `k`-th entry of `schema` is what the version 2 walk
/// finds for the entry's type, when no earlier entry has that type, and the data starts where
/// the walk finds the data attribute.
pub proof fn lemma_tlv_v2_last(p: Seq<u8>, schema: Seq<(u16, AttrKind)>, k: int)
    requires
        tlv_v2(p, schema) is Done,
        0 <= k < schema.len(),
        schema_slot(schema, schema[k].0) == k,
    ensures
        attr_range_v2(p, schema[k].0) == (tlv_v2(p, schema)->Done_0)[k],
        data_start_v2(p) == tlv_v2(p, schema)->Done_1,
{
    lemma_scan_v2_last(p, 0, schema, empty_slots(schema.len()), k);
}

} // verus!
