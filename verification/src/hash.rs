//! The coupon commitment: a 32-byte XOR fold of the code's bytes.
//!
//! Byte `k` of the commitment is the XOR of all input bytes whose position is
//! congruent to `k` modulo 32. The fold is not a cryptographic hash: it is
//! insensitive to the order of bytes within a residue class, and on inputs of
//! at most 32 bytes it is the input itself, padded with zeros.

use vstd::prelude::*;
use vstd::string::StringSliceAdditionalSpecFns;

verus! {

/// XOR of the bytes of `bytes` at the positions below `n` that are congruent
/// to `k` modulo 32.
pub open spec fn fold_class(bytes: Seq<u8>, k: int, n: int) -> u8
    decreases n,
{
    if n <= 0 {
        0u8
    } else if (n - 1) % 32 == k {
        fold_class(bytes, k, n - 1) ^ bytes[n - 1]
    } else {
        fold_class(bytes, k, n - 1)
    }
}

/// The commitment to a byte string.
pub open spec fn commit(bytes: Seq<u8>) -> Seq<u8> {
    Seq::new(32, |k: int| fold_class(bytes, k, bytes.len() as int))
}

/// The commitment as the 32-byte value that a card stores.
pub open spec fn commitment(bytes: Seq<u8>) -> [u8; 32] {
    choose|stored: [u8; 32]| stored@ == commit(bytes)
}

spec fn filled(folded: Seq<u8>, n: nat) -> [u8; 32]
    decreases n,
{
    if n == 0 {
        vstd::array::spec_array_fill_for_copy_type::<u8, 32>(0u8)
    } else {
        vstd::array::spec_array_update(filled(folded, (n - 1) as nat), n - 1, folded[n - 1])
    }
}

proof fn filled_holds(folded: Seq<u8>, n: nat)
    requires
        n <= 32,
    ensures
        forall|k: int| 0 <= k < n ==> filled(folded, n)@[k] == folded[k],
    decreases n,
{
    if n > 0 {
        filled_holds(folded, (n - 1) as nat);
    }
}

/// The stored commitment holds the fold, byte for byte.
pub proof fn commitment_holds_the_fold(bytes: Seq<u8>)
    ensures
        commitment(bytes)@ == commit(bytes),
{
    let witness = filled(commit(bytes), 32);
    filled_holds(commit(bytes), 32);
    assert(witness@ =~= commit(bytes));
}

/// Folds a byte string into its commitment.
pub fn fold_bytes(input: &[u8]) -> (out: [u8; 32])
    ensures
        out@ == commit(input@),
        out == commitment(input@),
{
    let mut out: [u8; 32] = [0u8; 32];
    let mut i: usize = 0;
    while i < input.len()
        invariant
            i <= input.len(),
            forall|k: int| 0 <= k < 32 ==> out@[k] == #[trigger] fold_class(input@, k, i as int),
        decreases input.len() - i,
    {
        let slot: usize = i % 32;
        let ghost before = out@;
        out[slot] = out[slot] ^ input[i];
        i += 1;
        assert forall|k: int| 0 <= k < 32 implies out@[k] == #[trigger] fold_class(
            input@,
            k,
            i as int,
        ) by {
            assert(before[k] == fold_class(input@, k, i - 1));
            if k != slot {
                assert(out@[k] == before[k]);
            }
        }
    }
    assert(out@ =~= commit(input@));
    assert(out =~= commitment(input@));
    out
}

/// The commitment to a coupon code, taken over the code's UTF-8 bytes.
pub fn custom_hash(input: &str) -> (out: [u8; 32])
    ensures
        out@ == commit(input.spec_bytes()),
        out == commitment(input.spec_bytes()),
{
    fold_bytes(input.as_bytes())
}

} // verus!
