//! Reading fixed-size values out of a byte buffer.
use vstd::prelude::*;
use crate::types::{Byte128, Byte64};

verus! {

/// The eight bytes of `bytes` from `offset` on.
pub fn from_bytes_byte64(bytes: &[u8], offset: usize) -> (r: Byte64)
    requires
        offset + 8 <= bytes@.len(),
    ensures
        r@ == bytes@.subrange(offset as int, offset + 8),
{
    let mut ret: Byte64 = [0u8; 8];
    let len = bytes.len();
    let mut k: usize = 0;
    while k < 8
        invariant
            len == bytes@.len(),
            offset + 8 <= bytes@.len(),
            k <= 8,
            forall|i: int| 0 <= i < k ==> ret@[i] == bytes@[offset + i],
        decreases 8 - k,
    {
        ret[k] = bytes[offset + k];
        k = k + 1;
    }
    assert(ret@ =~= bytes@.subrange(offset as int, offset + 8));
    ret
}

/// The sixteen bytes of `bytes` from `offset` on.
pub fn from_bytes_byte128(bytes: &[u8], offset: usize) -> (r: Byte128)
    requires
        offset + 16 <= bytes@.len(),
    ensures
        r@ == bytes@.subrange(offset as int, offset + 16),
{
    let mut ret: Byte128 = [0u8; 16];
    let len = bytes.len();
    let mut k: usize = 0;
    while k < 16
        invariant
            len == bytes@.len(),
            offset + 16 <= bytes@.len(),
            k <= 16,
            forall|i: int| 0 <= i < k ==> ret@[i] == bytes@[offset + i],
        decreases 16 - k,
    {
        ret[k] = bytes[offset + k];
        k = k + 1;
    }
    assert(ret@ =~= bytes@.subrange(offset as int, offset + 16));
    ret
}

} // verus!
