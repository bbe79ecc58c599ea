//! Helpers shared by the modules of the library.
use crate::bytes::append_bytes;
use crate::error::{Error, ErrorKind, IoResult};
use vstd::prelude::*;

verus! {

/// A string read from the kernel, with invalid UTF-8 replaced.
pub type KernelStr = String;

/// What `String::from_utf8_lossy(bytes)` returns: `bytes` decoded as UTF-8, with each invalid
/// sequence replaced by U+FFFD.
pub uninterp spec fn utf8_lossy_result(bytes: Seq<u8>) -> Seq<char>;

/// Whether every byte of `bytes` is ASCII.
pub open spec fn is_ascii(bytes: Seq<u8>) -> bool {
    forall|i: int| 0 <= i < bytes.len() ==> #[trigger] bytes[i] < 0x80
}

/// Calls `String::from_utf8_lossy`.
///
/// The contract claims that the result is a function of the bytes, that valid UTF-8 decodes
/// as UTF-8 defines, and that ASCII bytes decode to the characters with the same codes.
#[verifier::external_body]
pub(crate) fn utf8_lossy(bytes: &[u8]) -> (r: KernelStr)
    ensures
        r@ == utf8_lossy_result(bytes@),
        vstd::utf8::valid_utf8(bytes@) ==> r@ == vstd::utf8::decode_utf8(bytes@),
        is_ascii(bytes@) ==> r@ == bytes@.map_values(|b: u8| b as char),
{
    String::from_utf8_lossy(bytes).into_owned()
}

/// The path separator.
pub const SEPARATOR: u8 = 0x2f;

/// Whether `name` can be written as a zero terminated name into a buffer of `n` bytes: it holds
/// no zero byte and leaves room for the terminating zero.
pub open spec fn spec_vol_name_fits(name: Seq<u8>, n: nat) -> bool {
    &&& name.len() < n
    &&& !(exists|i: int| 0 <= i < name.len() && name[i] == 0)
}

/// Fill the name field of the volume ioctl arguments `dst` with `name`.
///
/// Fails with `InvalidInput`, leaving `dst` as it was, when `name` contains a zero byte or does
/// not leave room for the terminating zero.
pub fn set_vol_name(name: &[u8], dst: &mut Vec<u8>) -> (r: IoResult<()>)
    ensures
        spec_vol_name_fits(name@, old(dst)@.len()) ==> r is Ok && final(dst)@ == name@
            + old(dst)@.subrange(name@.len() as int, old(dst)@.len() as int),
        !spec_vol_name_fits(name@, old(dst)@.len()) ==> r == Err::<(), Error>(
            Error::Kind(ErrorKind::InvalidInput),
        ) && final(dst)@ == old(dst)@,
{
    let mut i: usize = 0;
    while i < name.len()
        invariant
            i <= name@.len(),
            forall|j: int| 0 <= j < i ==> name@[j] != 0,
        decreases name@.len() - i,
    {
        if name[i] == 0 {
            assert(name@[i as int] == 0);
            return Err(Error::Kind(ErrorKind::InvalidInput));
        }
        i = i + 1;
    }
    if name.len() >= dst.len() {
        return Err(Error::Kind(ErrorKind::InvalidInput));
    }
    let mut i: usize = 0;
    while i < name.len()
        invariant
            i <= name@.len(),
            name@.len() < dst@.len(),
            dst@.len() == old(dst)@.len(),
            forall|j: int| 0 <= j < i ==> dst@[j] == name@[j],
            forall|j: int| i <= j < dst@.len() ==> dst@[j] == old(dst)@[j],
        decreases name@.len() - i,
    {
        dst.set(i, name[i]);
        i = i + 1;
    }
    assert(dst@ =~= name@ + old(dst)@.subrange(name@.len() as int, old(dst)@.len() as int));
    Ok(())
}

/// Index of the last byte of `s` before `end` that is (when `sep`) or is not (when `!sep`) a
/// separator, or `-1`.
pub open spec fn spec_last_index(s: Seq<u8>, end: int, sep: bool) -> int
    decreases end,
{
    if end <= 0 {
        -1
    } else if (s[end - 1] == SEPARATOR) == sep {
        end - 1
    } else {
        spec_last_index(s, end - 1, sep)
    }
}

/// `path` without its trailing separators, unless it holds nothing else.
pub open spec fn spec_trim_trailing(path: Seq<u8>) -> Seq<u8> {
    let p = spec_last_index(path, path.len() as int, false);
    if p >= 0 {
        path.subrange(0, p + 1)
    } else {
        path
    }
}

/// The parent directory and the name of `path`: the parent is `/` for a name at the root and
/// `.` for a relative name without separator.
pub open spec fn spec_parent_and_name(path: Seq<u8>) -> (Seq<u8>, Seq<u8>) {
    let bytes = spec_trim_trailing(path);
    let q = spec_last_index(bytes, bytes.len() as int, true);
    if q >= 0 {
        (
            if q == 0 {
                seq![SEPARATOR]
            } else {
                bytes.subrange(0, q)
            },
            bytes.subrange(q + 1, bytes.len() as int),
        )
    } else {
        (seq![0x2eu8], bytes)
    }
}

proof fn lemma_last_index_bounds(s: Seq<u8>, end: int, sep: bool)
    ensures
        -1 <= spec_last_index(s, end, sep) < if end > 0 { end } else { 0 },
    decreases end,
{
    if end > 0 {
        lemma_last_index_bounds(s, end - 1, sep);
    }
}

proof fn lemma_last_index_skips(s: Seq<u8>, end: int, sep: bool)
    requires
        end <= s.len(),
    ensures
        forall|j: int|
            spec_last_index(s, end, sep) < j < end && 0 <= j ==> ((s[j] == SEPARATOR) != sep),
        spec_last_index(s, end, sep) >= 0 ==> ((s[spec_last_index(s, end, sep)] == SEPARATOR)
            == sep),
    decreases end,
{
    if end > 0 {
        lemma_last_index_skips(s, end - 1, sep);
    }
}

/// The name that [`parse_parent_and_name`] gives is the last component of the path: it holds
/// no separator, the path without its trailing separators ends with it, and a separator stands
/// right before it unless it is the whole of that path.
pub proof fn lemma_parent_and_name(path: Seq<u8>)
    ensures
        ({
            let t = spec_trim_trailing(path);
            let name = spec_parent_and_name(path).1;
            &&& forall|i: int| 0 <= i < name.len() ==> name[i] != SEPARATOR
            &&& name.len() <= t.len()
            &&& t.subrange(t.len() - name.len(), t.len() as int) == name
            &&& name.len() < t.len() ==> t[t.len() - name.len() - 1] == SEPARATOR
        }),
{
    let p = spec_last_index(path, path.len() as int, false);
    lemma_last_index_bounds(path, path.len() as int, false);
    let t = spec_trim_trailing(path);
    let q = spec_last_index(t, t.len() as int, true);
    lemma_last_index_bounds(t, t.len() as int, true);
    lemma_last_index_skips(t, t.len() as int, true);
    let name = spec_parent_and_name(path).1;
    if q >= 0 {
        assert(name =~= t.subrange(q + 1, t.len() as int));
        assert forall|i: int| 0 <= i < name.len() implies name[i] != SEPARATOR by {
            assert(name[i] == t[q + 1 + i]);
        }
        assert(t.subrange(t.len() - name.len(), t.len() as int) =~= name);
    } else {
        assert(name == t);
        assert forall|i: int| 0 <= i < name.len() implies name[i] != SEPARATOR by {
            assert(name[i] == t[i]);
        }
        assert(t.subrange(t.len() - name.len(), t.len() as int) =~= name);
    }
}

fn last_index(s: &[u8], end: usize, sep: bool) -> (r: isize)
    requires
        end <= s@.len(),
        s@.len() < isize::MAX,
    ensures
        r == spec_last_index(s@, end as int, sep),
        -1 <= r < end,
{
    proof {
        lemma_last_index_bounds(s@, end as int, sep);
    }
    let mut e = end;
    while e > 0
        invariant
            e <= end,
            end <= s@.len(),
            s@.len() < isize::MAX,
            spec_last_index(s@, end as int, sep) == spec_last_index(s@, e as int, sep),
        decreases e,
    {
        if (s[e - 1] == SEPARATOR) == sep {
            return (e - 1) as isize;
        }
        e = e - 1;
    }
    -1
}

/// Returns the parent dir and name as a tuple for a given path.
pub fn parse_parent_and_name(path: &[u8]) -> (r: (Vec<u8>, &[u8]))
    requires
        path@.len() < isize::MAX,
    ensures
        r.0@ == spec_parent_and_name(path@).0,
        r.1@ == spec_parent_and_name(path@).1,
{
    let p = last_index(path, path.len(), false);
    let bytes = if p >= 0 {
        vstd::slice::slice_subrange(path, 0, (p + 1) as usize)
    } else {
        path
    };
    assert(bytes@ == spec_trim_trailing(path@));
    let q = last_index(bytes, bytes.len(), true);
    if q >= 0 {
        let q = q as usize;
        let mut dir: Vec<u8> = Vec::new();
        if q == 0 {
            dir.push(SEPARATOR);
            assert(dir@ =~= seq![SEPARATOR]);
        } else {
            append_bytes(&mut dir, vstd::slice::slice_subrange(bytes, 0, q));
        }
        (dir, vstd::slice::slice_subrange(bytes, q + 1, bytes.len()))
    } else {
        let mut dir: Vec<u8> = Vec::new();
        dir.push(0x2e);
        assert(dir@ =~= seq![0x2eu8]);
        (dir, bytes)
    }
}

} // verus!
