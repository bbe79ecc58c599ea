//! How the generated bindings name and type the items of the btrfs headers: the decisions of
//! the callbacks that the bindings generator is run with.
use crate::bytes::{bytes_eq, copy_bytes};
use vstd::prelude::*;

verus! {

/// Whether `s` starts with `p`.
pub open spec fn spec_starts_with(s: Seq<u8>, p: Seq<u8>) -> bool {
    p.len() <= s.len() && s.subrange(0, p.len() as int) == p
}

/// Whether `s` ends with `p`.
pub open spec fn spec_ends_with(s: Seq<u8>, p: Seq<u8>) -> bool {
    p.len() <= s.len() && s.subrange(s.len() - p.len(), s.len() as int) == p
}

/// Whether `s` starts with `p`.
pub fn starts_with(s: &[u8], p: &[u8]) -> (r: bool)
    ensures
        r == spec_starts_with(s@, p@),
{
    if p.len() > s.len() {
        return false;
    }
    let r = bytes_eq(vstd::slice::slice_subrange(s, 0, p.len()), p);
    r
}

/// Whether `s` ends with `p`.
pub fn ends_with(s: &[u8], p: &[u8]) -> (r: bool)
    ensures
        r == spec_ends_with(s@, p@),
{
    if p.len() > s.len() {
        return false;
    }
    let r = bytes_eq(vstd::slice::slice_subrange(s, s.len() - p.len(), s.len()), p);
    r
}

/// The integer type that the generated bindings give a macro constant.
#[derive(Debug, Clone, Copy, PartialEq, Eq, Structural)]
pub enum IntKind {
    /// `u8`
    U8,
    /// `u64`
    U64,
    /// `usize`
    Usize,
}

/// The callbacks that the bindings generator is run with.
#[derive(Debug)]
pub struct Callbacks;

/// Prefix of the helper constants that the header wrapper declares for macros that the
/// generator cannot evaluate.
pub open spec fn spec_helper_prefix() -> Seq<u8> {
    seq![82u8, 85u8, 83u8, 84u8, 95u8, 67u8, 79u8, 78u8, 83u8, 84u8, 95u8, 72u8, 69u8, 76u8, 80u8, 69u8, 82u8]
}

/// The name that the generated bindings give the item `name`: the anonymous unions of the
/// version 2 volume arguments get names of their own, and other items keep theirs.
pub open spec fn spec_item_name(name: Seq<u8>) -> Option<Seq<u8>> {
    if name == seq![98u8, 116u8, 114u8, 102u8, 115u8, 95u8, 105u8, 111u8, 99u8, 116u8, 108u8, 95u8, 118u8, 111u8, 108u8, 95u8, 97u8, 114u8, 103u8, 115u8, 95u8, 118u8, 50u8, 95u8, 95u8, 98u8, 105u8, 110u8, 100u8, 103u8, 101u8, 110u8, 95u8, 116u8, 121u8, 95u8, 50u8] {
        Some(seq![118u8, 111u8, 108u8, 95u8, 97u8, 114u8, 103u8, 115u8, 95u8, 118u8, 50u8, 95u8, 118u8, 111u8, 108u8, 117u8, 109u8, 101u8])
    } else if name == seq![98u8, 116u8, 114u8, 102u8, 115u8, 95u8, 105u8, 111u8, 99u8, 116u8, 108u8, 95u8, 118u8, 111u8, 108u8, 95u8, 97u8, 114u8, 103u8, 115u8, 95u8, 118u8, 50u8, 95u8, 95u8, 98u8, 105u8, 110u8, 100u8, 103u8, 101u8, 110u8, 95u8, 116u8, 121u8, 95u8, 49u8] {
        Some(seq![118u8, 111u8, 108u8, 95u8, 97u8, 114u8, 103u8, 115u8, 95u8, 118u8, 50u8, 95u8, 113u8, 103u8, 114u8, 111u8, 117u8, 112u8])
    } else if name == seq![98u8, 116u8, 114u8, 102u8, 115u8, 95u8, 105u8, 111u8, 99u8, 116u8, 108u8, 95u8, 118u8, 111u8, 108u8, 95u8, 97u8, 114u8, 103u8, 115u8, 95u8, 118u8, 50u8, 95u8, 95u8, 98u8, 105u8, 110u8, 100u8, 103u8, 101u8, 110u8, 95u8, 116u8, 121u8, 95u8, 49u8, 95u8, 95u8, 98u8, 105u8, 110u8, 100u8, 103u8, 101u8, 110u8, 95u8, 116u8, 121u8, 95u8, 49u8] {
        Some(seq![118u8, 111u8, 108u8, 95u8, 97u8, 114u8, 103u8, 115u8, 95u8, 118u8, 50u8, 95u8, 113u8, 103u8, 114u8, 111u8, 117u8, 112u8, 95u8, 111u8, 112u8, 116u8, 115u8])
    } else {
        None
    }
}

/// Whether the macro `name` is a size, typed `usize`.
pub open spec fn spec_usize_macro(name: Seq<u8>) -> bool {
    name == seq![66u8, 84u8, 82u8, 70u8, 83u8, 95u8, 68u8, 69u8, 86u8, 73u8, 67u8, 69u8, 95u8, 80u8, 65u8, 84u8, 72u8, 95u8, 78u8, 65u8, 77u8, 69u8, 95u8, 77u8, 65u8, 88u8] || name == seq![66u8, 84u8, 82u8, 70u8, 83u8, 95u8, 70u8, 83u8, 73u8, 68u8, 95u8, 83u8, 73u8, 90u8, 69u8] || name == seq![66u8, 84u8, 82u8, 70u8, 83u8, 95u8, 76u8, 65u8, 66u8, 69u8, 76u8, 95u8, 83u8, 73u8, 90u8, 69u8] || name == seq![66u8, 84u8, 82u8, 70u8, 83u8, 95u8, 80u8, 65u8, 84u8, 72u8, 95u8, 78u8, 65u8, 77u8, 69u8, 95u8, 77u8, 65u8, 88u8] || name == seq![66u8, 84u8, 82u8, 70u8, 83u8, 95u8, 85u8, 85u8, 73u8, 68u8, 95u8, 83u8, 73u8, 90u8, 69u8] || name == seq![66u8, 84u8, 82u8, 70u8, 83u8, 95u8, 85u8, 85u8, 73u8, 68u8, 95u8, 85u8, 78u8, 80u8, 65u8, 82u8, 83u8, 69u8, 68u8, 95u8, 83u8, 73u8, 90u8, 69u8] || name == seq![66u8, 84u8, 82u8, 70u8, 83u8, 95u8, 86u8, 79u8, 76u8, 95u8, 78u8, 65u8, 77u8, 69u8, 95u8, 77u8, 65u8, 88u8]
}

/// Whether the macro `name` is left to the generator's default typing.
pub open spec fn spec_untyped_macro(name: Seq<u8>) -> bool {
    name == seq![66u8, 84u8, 82u8, 70u8, 83u8, 95u8, 67u8, 83u8, 85u8, 77u8, 95u8, 83u8, 73u8, 90u8, 69u8] || name == seq![66u8, 84u8, 82u8, 70u8, 83u8, 95u8, 73u8, 79u8, 67u8, 84u8, 76u8, 95u8, 77u8, 65u8, 71u8, 73u8, 67u8] || name == seq![66u8, 84u8, 82u8, 70u8, 83u8, 95u8, 77u8, 65u8, 88u8, 95u8, 77u8, 69u8, 84u8, 65u8, 68u8, 65u8, 84u8, 65u8, 95u8, 66u8, 76u8, 79u8, 67u8, 75u8, 83u8, 73u8, 90u8, 69u8] || name == seq![66u8, 84u8, 82u8, 70u8, 83u8, 95u8, 83u8, 65u8, 77u8, 69u8, 95u8, 68u8, 65u8, 84u8, 65u8, 95u8, 68u8, 73u8, 70u8, 70u8, 69u8, 82u8, 83u8]
}

/// The integer type of the macro constant `name`, or `None` to leave it to the generator: sizes
/// are `usize`, item keys and a few named macros are left alone, file types are `u8`, and every
/// other constant is `u64`.
pub open spec fn spec_int_macro(name: Seq<u8>) -> Option<IntKind> {
    if spec_usize_macro(name) {
        Some(IntKind::Usize)
    } else if spec_untyped_macro(name) {
        None
    } else if spec_ends_with(name, seq![75u8, 69u8, 89u8]) || spec_starts_with(name, seq![66u8, 84u8, 82u8, 70u8, 83u8, 95u8, 83u8, 85u8, 66u8, 86u8, 79u8, 76u8, 95u8, 83u8, 89u8, 78u8, 67u8])
        || spec_starts_with(name, seq![66u8, 84u8, 82u8, 70u8, 83u8, 95u8, 69u8, 78u8, 67u8, 79u8, 68u8, 69u8, 68u8, 95u8, 73u8, 79u8]) {
        None
    } else if spec_starts_with(name, seq![66u8, 84u8, 82u8, 70u8, 83u8, 95u8, 70u8, 84u8]) {
        Some(IntKind::U8)
    } else {
        Some(IntKind::U64)
    }
}

fn is_usize_macro(name: &[u8]) -> (r: bool)
    ensures
        r == spec_usize_macro(name@),
{
    let lit: [u8; 26] = [66, 84, 82, 70, 83, 95, 68, 69, 86, 73, 67, 69, 95, 80, 65, 84, 72, 95, 78, 65, 77, 69, 95, 77, 65, 88];
    assert(lit@ =~= seq![66u8, 84u8, 82u8, 70u8, 83u8, 95u8, 68u8, 69u8, 86u8, 73u8, 67u8, 69u8, 95u8, 80u8, 65u8, 84u8, 72u8, 95u8, 78u8, 65u8, 77u8, 69u8, 95u8, 77u8, 65u8, 88u8]);
    if bytes_eq(name, lit.as_slice()) {
        return true;
    }
    let lit: [u8; 15] = [66, 84, 82, 70, 83, 95, 70, 83, 73, 68, 95, 83, 73, 90, 69];
    assert(lit@ =~= seq![66u8, 84u8, 82u8, 70u8, 83u8, 95u8, 70u8, 83u8, 73u8, 68u8, 95u8, 83u8, 73u8, 90u8, 69u8]);
    if bytes_eq(name, lit.as_slice()) {
        return true;
    }
    let lit: [u8; 16] = [66, 84, 82, 70, 83, 95, 76, 65, 66, 69, 76, 95, 83, 73, 90, 69];
    assert(lit@ =~= seq![66u8, 84u8, 82u8, 70u8, 83u8, 95u8, 76u8, 65u8, 66u8, 69u8, 76u8, 95u8, 83u8, 73u8, 90u8, 69u8]);
    if bytes_eq(name, lit.as_slice()) {
        return true;
    }
    let lit: [u8; 19] = [66, 84, 82, 70, 83, 95, 80, 65, 84, 72, 95, 78, 65, 77, 69, 95, 77, 65, 88];
    assert(lit@ =~= seq![66u8, 84u8, 82u8, 70u8, 83u8, 95u8, 80u8, 65u8, 84u8, 72u8, 95u8, 78u8, 65u8, 77u8, 69u8, 95u8, 77u8, 65u8, 88u8]);
    if bytes_eq(name, lit.as_slice()) {
        return true;
    }
    let lit: [u8; 15] = [66, 84, 82, 70, 83, 95, 85, 85, 73, 68, 95, 83, 73, 90, 69];
    assert(lit@ =~= seq![66u8, 84u8, 82u8, 70u8, 83u8, 95u8, 85u8, 85u8, 73u8, 68u8, 95u8, 83u8, 73u8, 90u8, 69u8]);
    if bytes_eq(name, lit.as_slice()) {
        return true;
    }
    let lit: [u8; 24] = [66, 84, 82, 70, 83, 95, 85, 85, 73, 68, 95, 85, 78, 80, 65, 82, 83, 69, 68, 95, 83, 73, 90, 69];
    assert(lit@ =~= seq![66u8, 84u8, 82u8, 70u8, 83u8, 95u8, 85u8, 85u8, 73u8, 68u8, 95u8, 85u8, 78u8, 80u8, 65u8, 82u8, 83u8, 69u8, 68u8, 95u8, 83u8, 73u8, 90u8, 69u8]);
    if bytes_eq(name, lit.as_slice()) {
        return true;
    }
    let lit: [u8; 18] = [66, 84, 82, 70, 83, 95, 86, 79, 76, 95, 78, 65, 77, 69, 95, 77, 65, 88];
    assert(lit@ =~= seq![66u8, 84u8, 82u8, 70u8, 83u8, 95u8, 86u8, 79u8, 76u8, 95u8, 78u8, 65u8, 77u8, 69u8, 95u8, 77u8, 65u8, 88u8]);
    if bytes_eq(name, lit.as_slice()) {
        return true;
    }
    false
}

fn is_untyped_macro(name: &[u8]) -> (r: bool)
    ensures
        r == spec_untyped_macro(name@),
{
    let lit: [u8; 15] = [66, 84, 82, 70, 83, 95, 67, 83, 85, 77, 95, 83, 73, 90, 69];
    assert(lit@ =~= seq![66u8, 84u8, 82u8, 70u8, 83u8, 95u8, 67u8, 83u8, 85u8, 77u8, 95u8, 83u8, 73u8, 90u8, 69u8]);
    if bytes_eq(name, lit.as_slice()) {
        return true;
    }
    let lit: [u8; 17] = [66, 84, 82, 70, 83, 95, 73, 79, 67, 84, 76, 95, 77, 65, 71, 73, 67];
    assert(lit@ =~= seq![66u8, 84u8, 82u8, 70u8, 83u8, 95u8, 73u8, 79u8, 67u8, 84u8, 76u8, 95u8, 77u8, 65u8, 71u8, 73u8, 67u8]);
    if bytes_eq(name, lit.as_slice()) {
        return true;
    }
    let lit: [u8; 28] = [66, 84, 82, 70, 83, 95, 77, 65, 88, 95, 77, 69, 84, 65, 68, 65, 84, 65, 95, 66, 76, 79, 67, 75, 83, 73, 90, 69];
    assert(lit@ =~= seq![66u8, 84u8, 82u8, 70u8, 83u8, 95u8, 77u8, 65u8, 88u8, 95u8, 77u8, 69u8, 84u8, 65u8, 68u8, 65u8, 84u8, 65u8, 95u8, 66u8, 76u8, 79u8, 67u8, 75u8, 83u8, 73u8, 90u8, 69u8]);
    if bytes_eq(name, lit.as_slice()) {
        return true;
    }
    let lit: [u8; 23] = [66, 84, 82, 70, 83, 95, 83, 65, 77, 69, 95, 68, 65, 84, 65, 95, 68, 73, 70, 70, 69, 82, 83];
    assert(lit@ =~= seq![66u8, 84u8, 82u8, 70u8, 83u8, 95u8, 83u8, 65u8, 77u8, 69u8, 95u8, 68u8, 65u8, 84u8, 65u8, 95u8, 68u8, 73u8, 70u8, 70u8, 69u8, 82u8, 83u8]);
    if bytes_eq(name, lit.as_slice()) {
        return true;
    }
    false
}

impl Callbacks {
    /// Length of the prefix of the helper constants.
    pub const HELPER_PREFIX_LEN: usize = 17;

    /// The name that the generated bindings give the helper constant `name`: what follows its
    /// prefix and the separator after it. Other names are not overridden.
    pub fn generated_name_override(&self, name: &[u8]) -> (r: Option<Vec<u8>>)
        requires
            spec_starts_with(name@, spec_helper_prefix()) ==> name@.len() > 17,
        ensures
            spec_starts_with(name@, spec_helper_prefix()) ==> (r matches Some(n) && n@
                == name@.subrange(18, name@.len() as int)),
            !spec_starts_with(name@, spec_helper_prefix()) ==> r is None,
    {
        let prefix: [u8; 17] = [82, 85, 83, 84, 95, 67, 79, 78, 83, 84, 95, 72, 69, 76, 80, 69, 82];
        assert(prefix@ =~= spec_helper_prefix());
        if starts_with(name, prefix.as_slice()) {
            Some(copy_bytes(vstd::slice::slice_subrange(name, 18, name.len())))
        } else {
            None
        }
    }

    /// The name that the generated bindings give the item `name`; see [`spec_item_name`].
    pub fn item_name(&self, name: &[u8]) -> (r: Option<Vec<u8>>)
        ensures
            match spec_item_name(name@) {
                Some(n) => r matches Some(v) && v@ == n,
                None => r is None,
            },
    {
    let lit: [u8; 37] = [98, 116, 114, 102, 115, 95, 105, 111, 99, 116, 108, 95, 118, 111, 108, 95, 97, 114, 103, 115, 95, 118, 50, 95, 95, 98, 105, 110, 100, 103, 101, 110, 95, 116, 121, 95, 50];
    assert(lit@ =~= seq![98u8, 116u8, 114u8, 102u8, 115u8, 95u8, 105u8, 111u8, 99u8, 116u8, 108u8, 95u8, 118u8, 111u8, 108u8, 95u8, 97u8, 114u8, 103u8, 115u8, 95u8, 118u8, 50u8, 95u8, 95u8, 98u8, 105u8, 110u8, 100u8, 103u8, 101u8, 110u8, 95u8, 116u8, 121u8, 95u8, 50u8]);
    if bytes_eq(name, lit.as_slice()) {
        let out: [u8; 18] = [118, 111, 108, 95, 97, 114, 103, 115, 95, 118, 50, 95, 118, 111, 108, 117, 109, 101];
        assert(out@ =~= seq![118u8, 111u8, 108u8, 95u8, 97u8, 114u8, 103u8, 115u8, 95u8, 118u8, 50u8, 95u8, 118u8, 111u8, 108u8, 117u8, 109u8, 101u8]);
        return Some(copy_bytes(out.as_slice()));
    }
    let lit: [u8; 37] = [98, 116, 114, 102, 115, 95, 105, 111, 99, 116, 108, 95, 118, 111, 108, 95, 97, 114, 103, 115, 95, 118, 50, 95, 95, 98, 105, 110, 100, 103, 101, 110, 95, 116, 121, 95, 49];
    assert(lit@ =~= seq![98u8, 116u8, 114u8, 102u8, 115u8, 95u8, 105u8, 111u8, 99u8, 116u8, 108u8, 95u8, 118u8, 111u8, 108u8, 95u8, 97u8, 114u8, 103u8, 115u8, 95u8, 118u8, 50u8, 95u8, 95u8, 98u8, 105u8, 110u8, 100u8, 103u8, 101u8, 110u8, 95u8, 116u8, 121u8, 95u8, 49u8]);
    if bytes_eq(name, lit.as_slice()) {
        let out: [u8; 18] = [118, 111, 108, 95, 97, 114, 103, 115, 95, 118, 50, 95, 113, 103, 114, 111, 117, 112];
        assert(out@ =~= seq![118u8, 111u8, 108u8, 95u8, 97u8, 114u8, 103u8, 115u8, 95u8, 118u8, 50u8, 95u8, 113u8, 103u8, 114u8, 111u8, 117u8, 112u8]);
        return Some(copy_bytes(out.as_slice()));
    }
    let lit: [u8; 51] = [98, 116, 114, 102, 115, 95, 105, 111, 99, 116, 108, 95, 118, 111, 108, 95, 97, 114, 103, 115, 95, 118, 50, 95, 95, 98, 105, 110, 100, 103, 101, 110, 95, 116, 121, 95, 49, 95, 95, 98, 105, 110, 100, 103, 101, 110, 95, 116, 121, 95, 49];
    assert(lit@ =~= seq![98u8, 116u8, 114u8, 102u8, 115u8, 95u8, 105u8, 111u8, 99u8, 116u8, 108u8, 95u8, 118u8, 111u8, 108u8, 95u8, 97u8, 114u8, 103u8, 115u8, 95u8, 118u8, 50u8, 95u8, 95u8, 98u8, 105u8, 110u8, 100u8, 103u8, 101u8, 110u8, 95u8, 116u8, 121u8, 95u8, 49u8, 95u8, 95u8, 98u8, 105u8, 110u8, 100u8, 103u8, 101u8, 110u8, 95u8, 116u8, 121u8, 95u8, 49u8]);
    if bytes_eq(name, lit.as_slice()) {
        let out: [u8; 23] = [118, 111, 108, 95, 97, 114, 103, 115, 95, 118, 50, 95, 113, 103, 114, 111, 117, 112, 95, 111, 112, 116, 115];
        assert(out@ =~= seq![118u8, 111u8, 108u8, 95u8, 97u8, 114u8, 103u8, 115u8, 95u8, 118u8, 50u8, 95u8, 113u8, 103u8, 114u8, 111u8, 117u8, 112u8, 95u8, 111u8, 112u8, 116u8, 115u8]);
        return Some(copy_bytes(out.as_slice()));
    }
        None
    }

    /// The integer type of the macro constant `name`; see [`spec_int_macro`].
    pub fn int_macro(&self, name: &[u8], _value: i64) -> (r: Option<IntKind>)
        ensures
            r == spec_int_macro(name@),
    {
        if is_usize_macro(name) {
            return Some(IntKind::Usize);
        }
        if is_untyped_macro(name) {
            return None;
        }
        let key: [u8; 3] = [75, 69, 89];
        assert(key@ =~= seq![75u8, 69u8, 89u8]);
        let sync: [u8; 17] = [66, 84, 82, 70, 83, 95, 83, 85, 66, 86, 79, 76, 95, 83, 89, 78, 67];
        assert(sync@ =~= seq![66u8, 84u8, 82u8, 70u8, 83u8, 95u8, 83u8, 85u8, 66u8, 86u8, 79u8, 76u8, 95u8, 83u8, 89u8, 78u8, 67u8]);
        let encoded: [u8; 16] = [66, 84, 82, 70, 83, 95, 69, 78, 67, 79, 68, 69, 68, 95, 73, 79];
        assert(encoded@ =~= seq![66u8, 84u8, 82u8, 70u8, 83u8, 95u8, 69u8, 78u8, 67u8, 79u8, 68u8, 69u8, 68u8, 95u8, 73u8, 79u8]);
        if ends_with(name, key.as_slice()) || starts_with(name, sync.as_slice()) || starts_with(
            name,
            encoded.as_slice(),
        ) {
            return None;
        }
        let ft: [u8; 8] = [66, 84, 82, 70, 83, 95, 70, 84];
        assert(ft@ =~= seq![66u8, 84u8, 82u8, 70u8, 83u8, 95u8, 70u8, 84u8]);
        if starts_with(name, ft.as_slice()) {
            Some(IntKind::U8)
        } else {
            Some(IntKind::U64)
        }
    }
}

/// Options of the bindings generator.
#[derive(Debug, Clone, Copy, PartialEq, Eq, Structural)]
pub struct Config {
    /// Generate the bindings even when they are up to date.
    pub force: bool,
}

/// What the command line of the bindings generator asks for.
#[derive(Debug, Clone, Copy, PartialEq, Eq, Structural)]
pub enum CliAction {
    /// Generate the bindings with these options.
    Run(Config),
    /// Show the help.
    Help,
    /// The argument at this position is not an option.
    Invalid(usize),
}

/// What the command line `args`, the program name first, asks for: the options are read in
/// order, and the first help request or unknown argument ends the reading.
pub open spec fn spec_parse_cli(args: Seq<Seq<u8>>, i: int, config: Config) -> CliAction
    decreases args.len() - i,
{
    if i < 1 || i >= args.len() {
        CliAction::Run(config)
    } else if args[i] == seq![45u8, 45u8, 102u8, 111u8, 114u8, 99u8, 101u8] || args[i] == seq![45u8, 102u8] {
        spec_parse_cli(args, i + 1, Config { force: true })
    } else if args[i] == seq![45u8, 45u8, 104u8, 101u8, 108u8, 112u8] {
        CliAction::Help
    } else {
        CliAction::Invalid(i as usize)
    }
}

/// The bytes of each argument.
pub open spec fn spec_arg_bytes(args: Seq<Vec<u8>>) -> Seq<Seq<u8>> {
    args.map_values(|a: Vec<u8>| a@)
}

impl Config {
    /// What the command line `args`, the program name first, asks for; see
    /// [`spec_parse_cli`].
    pub fn parse_cli(args: &Vec<Vec<u8>>) -> (r: CliAction)
        ensures
            r == spec_parse_cli(spec_arg_bytes(args@), 1, Config { force: false }),
    {
        let force: [u8; 7] = [45, 45, 102, 111, 114, 99, 101];
        assert(force@ =~= seq![45u8, 45u8, 102u8, 111u8, 114u8, 99u8, 101u8]);
        let short: [u8; 2] = [45, 102];
        assert(short@ =~= seq![45u8, 102u8]);
        let help: [u8; 6] = [45, 45, 104, 101, 108, 112];
        assert(help@ =~= seq![45u8, 45u8, 104u8, 101u8, 108u8, 112u8]);
        let ghost all = spec_arg_bytes(args@);
        let mut config = Config { force: false };
        let mut i: usize = 1;
        while i < args.len()
            invariant
                1 <= i,
                all == spec_arg_bytes(args@),
                force@ == seq![45u8, 45u8, 102u8, 111u8, 114u8, 99u8, 101u8],
                short@ == seq![45u8, 102u8],
                help@ == seq![45u8, 45u8, 104u8, 101u8, 108u8, 112u8],
                spec_parse_cli(all, 1, Config { force: false }) == spec_parse_cli(
                    all,
                    i as int,
                    config,
                ),
            decreases args.len() - i,
        {
            let arg = args[i].as_slice();
            assert(arg@ == all[i as int]);
            if bytes_eq(arg, force.as_slice()) || bytes_eq(arg, short.as_slice()) {
                config = Config { force: true };
            } else if bytes_eq(arg, help.as_slice()) {
                return CliAction::Help;
            } else {
                return CliAction::Invalid(i);
            }
            i = i + 1;
        }
        CliAction::Run(config)
    }
}

} // verus!
