//! Producing the new library from the shipped one and a bsdiff 4.x patch.

use vstd::prelude::*;

verus! {

/// The library that `qbsdiff` produces from `source` and `patch`, or `None`
/// where it reports an error (a malformed patch, or one that does not fit `source`).
pub uninterp spec fn bspatch_output(source: Seq<u8>, patch: Seq<u8>) -> Option<Seq<u8>>;

#[verifier::external_type_specification]
#[verifier::external_body]
pub struct ExIoError(std::io::Error);

/// The little-endian 64-bit number at `at`.
pub open spec fn le_u64(b: Seq<u8>, at: int) -> nat {
    b[at] as nat + b[at + 1] as nat * 0x100 + b[at + 2] as nat * 0x1_0000 + b[at + 3] as nat
        * 0x100_0000 + b[at + 4] as nat * 0x1_0000_0000 + b[at + 5] as nat * 0x100_0000_0000
        + b[at + 6] as nat * 0x1_0000_0000_0000 + b[at + 7] as nat * 0x100_0000_0000_0000
}

/// A header size field as `qbsdiff` reads it: sign-and-magnitude, then taken as `u64`.
pub open spec fn size_field(x: nat) -> nat {
    if x <= 0x8000_0000_0000_0000 {
        x
    } else {
        (0x1_8000_0000_0000_0000 - x) as nat
    }
}

/// The patch starts with the magic `BSDIFF40` and a full 32-byte header.
pub open spec fn has_bsdiff_magic(p: Seq<u8>) -> bool {
    &&& p.len() >= 32
    &&& p[0] == 66 && p[1] == 83 && p[2] == 68 && p[3] == 73
    &&& p[4] == 70 && p[5] == 70 && p[6] == 52 && p[7] == 48
}

/// The header's total (32 + control size + diff size), the sum that `qbsdiff` forms.
pub open spec fn header_total(p: Seq<u8>) -> nat {
    32 + size_field(le_u64(p, 8)) + size_field(le_u64(p, 16))
}

/// A header that `qbsdiff` accepts: magic, and the sections fit in the patch.
pub open spec fn bspatch_header_valid(p: Seq<u8>) -> bool {
    has_bsdiff_magic(p) && header_total(p) <= p.len()
}

/// A header on which `qbsdiff` panics: its size sum exceeds `u64::MAX`.
pub open spec fn bspatch_header_overflows(p: Seq<u8>) -> bool {
    has_bsdiff_magic(p) && header_total(p) > u64::MAX
}

/// Calls `qbsdiff::Bspatch::new(patch)` and `Bspatch::apply(source, ..)` into
/// a buffer, the crate's documented way of applying a patch in memory. The
/// contract claims: success exactly where the named output exists, that
/// output otherwise, and an error for any patch whose header `Bspatch::new`
/// refuses. `Bspatch::new` panics when the header's size sum overflows, so
/// such patches are excluded.
#[verifier::external_body]
fn bspatch(source: &[u8], patch: &[u8]) -> (r: Result<Vec<u8>, std::io::Error>)
    requires
        !bspatch_header_overflows(patch@),
    ensures
        r is Ok <==> bspatch_output(source@, patch@) is Some,
        r matches Ok(out) ==> out@ == bspatch_output(source@, patch@).unwrap(),
        !bspatch_header_valid(patch@) ==> r is Err,
{
    let patcher = qbsdiff::Bspatch::new(patch)?;
    let mut out = Vec::new();
    patcher.apply(source, &mut out)?;
    Ok(out)
}

/// Why a patch could not be applied.
#[derive(Debug, Clone, Copy, PartialEq, Eq)]
pub enum PatchError {
    /// The patch is no bsdiff 4.x patch, is damaged, or does not fit the library.
    Malformed,
}

fn size_field_exec(x: u128) -> (r: u128)
    requires
        x < 0x1_0000_0000_0000_0000,
    ensures
        r == size_field(x as nat),
{
    if x <= 0x8000_0000_0000_0000 {
        x
    } else {
        0x1_8000_0000_0000_0000 - x
    }
}

fn le_u64_exec(b: &[u8], at: usize) -> (r: u128)
    requires
        at + 8 <= b@.len(),
    ensures
        r == le_u64(b@, at as int),
        r < 0x1_0000_0000_0000_0000,
{
    (b[at] as u128) + (b[at + 1] as u128) * 0x100 + (b[at + 2] as u128) * 0x1_0000 + (b[at
        + 3] as u128) * 0x100_0000 + (b[at + 4] as u128) * 0x1_0000_0000 + (b[at + 5] as u128)
        * 0x100_0000_0000 + (b[at + 6] as u128) * 0x1_0000_0000_0000 + (b[at + 7] as u128)
        * 0x100_0000_0000_0000
}

/// Whether `patch` has a header on which the patcher would panic (its
/// section sizes add up past `u64::MAX`).
pub fn header_overflows(patch: &[u8]) -> (r: bool)
    ensures
        r == bspatch_header_overflows(patch@),
{
    if patch.len() < 32 {
        return false;
    }
    let magic = patch[0] == 66 && patch[1] == 83 && patch[2] == 68 && patch[3] == 73
        && patch[4] == 70 && patch[5] == 70 && patch[6] == 52 && patch[7] == 48;
    if !magic {
        return false;
    }
    let c = size_field_exec(le_u64_exec(patch, 8));
    let d = size_field_exec(le_u64_exec(patch, 16));
    32 + c + d > 0xffff_ffff_ffff_ffff
}

/// The new library from the shipped `source` and `patch`.
pub fn apply_patch_bytes(source: &[u8], patch: &[u8]) -> (r: Result<Vec<u8>, PatchError>)
    requires
        !bspatch_header_overflows(patch@),
    ensures
        match r {
            Ok(out) => bspatch_output(source@, patch@) == Some(out@),
            Err(e) => bspatch_output(source@, patch@) is None && e == PatchError::Malformed,
        },
        !bspatch_header_valid(patch@) ==> r is Err,
{
    match bspatch(source, patch) {
        Ok(out) => Ok(out),
        Err(_) => Err(PatchError::Malformed),
    }
}

} // verus!
