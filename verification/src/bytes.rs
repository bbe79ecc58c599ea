//! Little-endian integers stored in byte buffers.
use vstd::prelude::*;

verus! {

/// The unsigned 16-bit integer stored little-endian at `s[i..i + 2]`.
pub open spec fn le16(s: Seq<u8>, i: int) -> u16 {
    (s[i] + 0x100 * s[i + 1]) as u16
}

/// The unsigned 32-bit integer stored little-endian at `s[i..i + 4]`.
pub open spec fn le32(s: Seq<u8>, i: int) -> u32 {
    (s[i] + 0x100 * s[i + 1] + 0x1_0000 * s[i + 2] + 0x100_0000 * s[i + 3]) as u32
}

/// The unsigned 64-bit integer stored little-endian at `s[i..i + 8]`.
pub open spec fn le64(s: Seq<u8>, i: int) -> u64 {
    (s[i] + 0x100 * s[i + 1] + 0x1_0000 * s[i + 2] + 0x100_0000 * s[i + 3] + 0x1_0000_0000 * s[i
        + 4] + 0x100_0000_0000 * s[i + 5] + 0x1_0000_0000_0000 * s[i + 6] + 0x100_0000_0000_0000
        * s[i + 7]) as u64
}

pub fn read_le16(s: &[u8], i: usize) -> (r: u16)
    requires
        i + 2 <= s@.len(),
    ensures
        r == le16(s@, i as int),
{
    let b0 = s[i] as u16;
    let b1 = s[i + 1] as u16;
    let r = b0 | b1 << 8;
    assert(r == b0 + 0x100 * b1) by (bit_vector)
        requires
            b0 < 256,
            b1 < 256,
            r == b0 | b1 << 8,
    ;
    r
}

pub fn read_le32(s: &[u8], i: usize) -> (r: u32)
    requires
        i + 4 <= s@.len(),
    ensures
        r == le32(s@, i as int),
{
    let b0 = s[i] as u32;
    let b1 = s[i + 1] as u32;
    let b2 = s[i + 2] as u32;
    let b3 = s[i + 3] as u32;
    let r = b0 | b1 << 8 | b2 << 16 | b3 << 24;
    assert(r == b0 + 0x100 * b1 + 0x1_0000 * b2 + 0x100_0000 * b3) by (bit_vector)
        requires
            b0 < 256,
            b1 < 256,
            b2 < 256,
            b3 < 256,
            r == b0 | b1 << 8 | b2 << 16 | b3 << 24,
    ;
    r
}

pub fn read_le64(s: &[u8], i: usize) -> (r: u64)
    requires
        i + 8 <= s@.len(),
    ensures
        r == le64(s@, i as int),
{
    let b0 = s[i] as u64;
    let b1 = s[i + 1] as u64;
    let b2 = s[i + 2] as u64;
    let b3 = s[i + 3] as u64;
    let b4 = s[i + 4] as u64;
    let b5 = s[i + 5] as u64;
    let b6 = s[i + 6] as u64;
    let b7 = s[i + 7] as u64;
    let r = b0 | b1 << 8 | b2 << 16 | b3 << 24 | b4 << 32 | b5 << 40 | b6 << 48 | b7 << 56;
    assert(r == b0 + 0x100 * b1 + 0x1_0000 * b2 + 0x100_0000 * b3 + 0x1_0000_0000 * b4
        + 0x100_0000_0000 * b5 + 0x1_0000_0000_0000 * b6 + 0x100_0000_0000_0000 * b7)
        by (bit_vector)
        requires
            b0 < 256,
            b1 < 256,
            b2 < 256,
            b3 < 256,
            b4 < 256,
            b5 < 256,
            b6 < 256,
            b7 < 256,
            r == b0 | b1 << 8 | b2 << 16 | b3 << 24 | b4 << 32 | b5 << 40 | b6 << 48 | b7 << 56,
    ;
    r
}

/// A universally unique identifier, held as its 16 bytes.
#[derive(Clone, Copy, Debug, PartialEq, Eq, Hash)]
pub struct Uuid {
    pub bytes: [u8; 16],
}

impl View for Uuid {
    type V = Seq<u8>;

    open spec fn view(&self) -> Seq<u8> {
        self.bytes@
    }
}

impl Uuid {
    /// The uuid with the given bytes.
    pub fn from_bytes(bytes: [u8; 16]) -> (r: Uuid)
        ensures
            r@ == bytes@,
    {
        Uuid { bytes }
    }

    /// The 16 bytes of this uuid.
    pub fn into_bytes(self) -> (r: [u8; 16])
        ensures
            r@ == self@,
    {
        self.bytes
    }

    /// The uuid stored at `s[i..i + 16]`.
    pub fn read(s: &[u8], i: usize) -> (r: Uuid)
        requires
            i + 16 <= s@.len(),
        ensures
            r@ == s@.subrange(i as int, i + 16),
    {
        let bytes = [
            s[i],
            s[i + 1],
            s[i + 2],
            s[i + 3],
            s[i + 4],
            s[i + 5],
            s[i + 6],
            s[i + 7],
            s[i + 8],
            s[i + 9],
            s[i + 10],
            s[i + 11],
            s[i + 12],
            s[i + 13],
            s[i + 14],
            s[i + 15],
        ];
        assert(bytes@ =~= s@.subrange(i as int, i + 16));
        Uuid { bytes }
    }

    /// Whether every byte of this uuid is zero.
    pub fn is_nil(&self) -> (r: bool)
        ensures
            r == (forall|i: int| 0 <= i < 16 ==> self@[i] == 0),
    {
        let mut i: usize = 0;
        while i < 16
            invariant
                i <= 16,
                self@.len() == 16,
                forall|j: int| 0 <= j < i ==> self@[j] == 0,
            decreases 16 - i,
        {
            if self.bytes[i] != 0 {
                return false;
            }
            i = i + 1;
        }
        true
    }
}

/// Appends the bytes of `s` to `v`.
pub fn append_bytes(v: &mut Vec<u8>, s: &[u8])
    ensures
        final(v)@ == old(v)@ + s@,
{
    let mut i: usize = 0;
    while i < s.len()
        invariant
            i <= s@.len(),
            v@ == old(v)@ + s@.subrange(0, i as int),
        decreases s@.len() - i,
    {
        v.push(s[i]);
        i = i + 1;
        assert(v@ =~= old(v)@ + s@.subrange(0, i as int));
    }
    assert(s@.subrange(0, i as int) =~= s@);
}


/// Whether the two byte strings are equal.
pub fn bytes_eq(a: &[u8], b: &[u8]) -> (r: bool)
    ensures
        r == (a@ == b@),
{
    if a.len() != b.len() {
        return false;
    }
    let mut i: usize = 0;
    while i < a.len()
        invariant
            a@.len() == b@.len(),
            i <= a@.len(),
            forall|k: int| 0 <= k < i ==> a@[k] == b@[k],
        decreases a@.len() - i,
    {
        if a[i] != b[i] {
            return false;
        }
        i = i + 1;
    }
    assert(a@ =~= b@);
    true
}


/// Reading a little-endian integer from a part of a buffer reads the same bytes of the buffer.
pub proof fn lemma_le_subrange(s: Seq<u8>, a: int, b: int, i: int)
    requires
        0 <= a <= b <= s.len(),
        0 <= i,
    ensures
        i + 2 <= b - a ==> le16(s.subrange(a, b), i) == le16(s, a + i),
        i + 4 <= b - a ==> le32(s.subrange(a, b), i) == le32(s, a + i),
        i + 8 <= b - a ==> le64(s.subrange(a, b), i) == le64(s, a + i),
{
    let t = s.subrange(a, b);
    assert(forall|k: int| 0 <= k < b - a ==> t[k] == s[a + k]);
}


/// `n` zero bytes.
pub fn zeroes(n: usize) -> (r: Vec<u8>)
    ensures
        r@ == Seq::new(n as nat, |i: int| 0u8),
{
    let mut v: Vec<u8> = Vec::new();
    let mut i: usize = 0;
    while i < n
        invariant
            i <= n,
            v@ =~= Seq::new(i as nat, |j: int| 0u8),
        decreases n - i,
    {
        v.push(0);
        i = i + 1;
    }
    v
}


/// A vector holding the bytes of `s`.
pub fn copy_bytes(s: &[u8]) -> (r: Vec<u8>)
    ensures
        r@ == s@,
{
    let mut v: Vec<u8> = Vec::new();
    append_bytes(&mut v, s);
    assert(v@ =~= s@);
    v
}

} // verus!
