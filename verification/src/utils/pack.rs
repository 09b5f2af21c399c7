//! Common routines for packing and unpacking little-endian wire data.

use vstd::prelude::*;
use vstd::bytes::{spec_u64_from_le_bytes, spec_u64_to_le_bytes, u64_from_le_bytes, u64_to_le_bytes};
use vstd::slice::slice_subrange;
use crate::error::RouterError;

verus! {

/// Checks that the slice holds at least `min_len` bytes; a shorter slice is a
/// truncated input.
pub fn check_data_len(data: &[u8], min_len: usize) -> (r: Result<(), RouterError>)
    ensures
        r == if data@.len() >= min_len {
            Ok::<(), RouterError>(())
        } else {
            Err::<(), RouterError>(RouterError::TruncatedInput)
        },
{
    if data.len() < min_len {
        Err(RouterError::TruncatedInput)
    } else {
        Ok(())
    }
}

/// Reads the unsigned 64-bit little-endian field that starts at `offset`.
pub fn read_u64_le(data: &[u8], offset: usize) -> (x: u64)
    requires
        offset + 8 <= data@.len(),
    ensures
        x == spec_u64_from_le_bytes(data@.subrange(offset as int, offset as int + 8)),
{
    // Binding the length bounds `offset + 8`, so the addition cannot overflow.
    let n: usize = data.len();
    let field = slice_subrange(data, offset, offset + 8);
    u64_from_le_bytes(field)
}

/// Writes `x` as an unsigned 64-bit little-endian field starting at `offset`,
/// leaving every byte outside the field unchanged.
pub fn write_u64_le(out: &mut Vec<u8>, offset: usize, x: u64)
    requires
        offset + 8 <= old(out)@.len(),
    ensures
        final(out)@.len() == old(out)@.len(),
        final(out)@ == old(out)@.subrange(0, offset as int) + spec_u64_to_le_bytes(x) + old(
            out,
        )@.skip(offset as int + 8),
{
    let bytes = u64_to_le_bytes(x);
    let n: usize = out.len();
    let mut k: usize = 0;
    while k < 8
        invariant
            k <= 8,
            offset + 8 <= n,
            n == old(out)@.len(),
            out@.len() == old(out)@.len(),
            bytes@ == spec_u64_to_le_bytes(x),
            bytes@.len() == 8,
            forall|i: int| 0 <= i < offset ==> out@[i] == old(out)@[i],
            forall|i: int| offset + 8 <= i < out@.len() ==> out@[i] == old(out)@[i],
            forall|i: int| 0 <= i < k ==> out@[offset + i] == bytes@[i],
        decreases 8 - k,
    {
        out[offset + k] = bytes[k];
        k += 1;
    }
    proof {
        assert(out@ =~= old(out)@.subrange(0, offset as int) + spec_u64_to_le_bytes(x)
            + old(out)@.skip(offset as int + 8));
    }
}

} // verus!
