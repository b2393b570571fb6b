//! Raw byte containers for the wide registers.
use vstd::prelude::*;

verus! {

/// Eight raw bytes, as held by an MMX register.
pub type Byte64 = [u8; 8];

/// Sixteen raw bytes, as held by an x87 or SSE register.
pub type Byte128 = [u8; 16];

/// `n` zero bytes.
pub open spec fn spec_zeros(n: nat) -> Seq<u8> {
    Seq::new(n, |i: int| 0u8)
}

/// `bytes` followed by zeros, sixteen bytes in all.
pub open spec fn spec_widen(bytes: Seq<u8>) -> Seq<u8> {
    bytes + spec_zeros((16 - bytes.len()) as nat)
}

/// `n` zero bytes are `n` bytes, each zero.
pub proof fn lemma_zeros(n: nat)
    ensures
        spec_zeros(n).len() == n,
        forall|i: int| 0 <= i < n ==> #[trigger] spec_zeros(n)[i] == 0u8,
{
}

/// Widening keeps the bytes in front and adds zeros behind them.
pub proof fn lemma_widen_prefix(bytes: Seq<u8>)
    requires
        bytes.len() <= 16,
    ensures
        spec_widen(bytes).len() == 16,
        spec_widen(bytes).take(bytes.len() as int) == bytes,
        forall|i: int| bytes.len() <= i < 16 ==> #[trigger] spec_widen(bytes)[i] == 0u8,
{
    assert(spec_widen(bytes).take(bytes.len() as int) =~= bytes);
}

/// Copies `src` into the low bytes of a zeroed 16-byte buffer.
pub fn to_byte128(src: &[u8]) -> (r: Byte128)
    requires
        src@.len() <= 16,
    ensures
        r@ == spec_widen(src@),
{
    let mut ret: Byte128 = [0u8; 16];
    let n = src.len();
    let mut k: usize = 0;
    while k < n
        invariant
            n == src@.len(),
            n <= 16,
            k <= n,
            forall|i: int| 0 <= i < k ==> ret@[i] == src@[i],
            forall|i: int| k <= i < 16 ==> ret@[i] == 0u8,
        decreases n - k,
    {
        ret[k] = src[k];
        k = k + 1;
    }
    assert(ret@ =~= spec_widen(src@));
    ret
}

} // verus!
