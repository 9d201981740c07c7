//! The byte layout of the two records, as they are persisted after the
//! host's eight-byte type tag: fields in order, integers little-endian.

use crate::state::{Address, GiftCard, GlobalState};
use vstd::bytes::{
    lemma_auto_spec_u64_to_from_le_bytes, spec_u64_from_le_bytes, spec_u64_to_le_bytes,
    u64_from_le_bytes, u64_to_le_bytes,
};
use vstd::prelude::*;
use vstd::slice::slice_subrange;

verus! {

/// Length of the type tag that the host puts before every record.
pub const TAG_LEN: usize = 8;

/// Length of a persisted global state, without the type tag.
pub const GLOBAL_STATE_LEN: usize = 66;

/// Length of a persisted gift card, without the type tag.
pub const GIFT_CARD_LEN: usize = 81;

/// Size of the account that holds a global state: the type tag and the record.
pub const GLOBAL_STATE_SPACE: usize = TAG_LEN + GLOBAL_STATE_LEN;

/// Size of the account that holds a gift card: the type tag and the record.
pub const GIFT_CARD_SPACE: usize = TAG_LEN + GIFT_CARD_LEN;

/// The bytes of a global state: admin, fee percentage, fee receiver, bump.
pub open spec fn global_state_layout(state: GlobalState) -> Seq<u8> {
    state.admin.bytes@ + seq![state.fee_percentage] + state.fee_receiver.bytes@ + seq![state.bump]
}

/// The bytes of a gift card: seed, creator, commitment, amount, bump.
pub open spec fn giftcard_layout(card: GiftCard) -> Seq<u8> {
    spec_u64_to_le_bytes(card.seed) + card.creator.bytes@ + card.hashed_coupon_code@
        + spec_u64_to_le_bytes(card.amount) + seq![card.bump]
}

fn append_bytes(out: &mut Vec<u8>, bytes: &[u8])
    ensures
        final(out)@ == old(out)@ + bytes@,
{
    let ghost before = out@;
    let mut i: usize = 0;
    while i < bytes.len()
        invariant
            i <= bytes.len(),
            out@ == before + bytes@.subrange(0, i as int),
        decreases bytes.len() - i,
    {
        out.push(bytes[i]);
        i += 1;
        assert(out@ =~= before + bytes@.subrange(0, i as int));
    }
    assert(bytes@.subrange(0, i as int) =~= bytes@);
}

fn take_32(bytes: &[u8], start: usize) -> (out: [u8; 32])
    requires
        start + 32 <= bytes@.len(),
    ensures
        out@ == bytes@.subrange(start as int, start + 32),
{
    let mut out: [u8; 32] = [0u8; 32];
    let len: usize = bytes.len();
    let mut i: usize = 0;
    while i < 32
        invariant
            i <= 32,
            start + 32 <= bytes@.len() == len,
            forall|j: int| 0 <= j < i ==> out@[j] == bytes@[start + j],
        decreases 32 - i,
    {
        out[i] = bytes[start + i];
        i += 1;
    }
    assert(out@ =~= bytes@.subrange(start as int, start + 32));
    out
}

impl GlobalState {
    /// The record's bytes.
    pub fn to_bytes(&self) -> (out: Vec<u8>)
        ensures
            out@ == global_state_layout(*self),
            out@.len() == GLOBAL_STATE_LEN,
    {
        let mut out: Vec<u8> = Vec::new();
        append_bytes(&mut out, self.admin.bytes.as_slice());
        out.push(self.fee_percentage);
        append_bytes(&mut out, self.fee_receiver.bytes.as_slice());
        out.push(self.bump);
        assert(out@ =~= global_state_layout(*self));
        out
    }

    /// The record that the bytes hold. Every string of the record's length
    /// holds one; a string of another length holds none.
    pub fn from_bytes(bytes: &[u8]) -> (decoded: Option<GlobalState>)
        ensures
            match decoded {
                Some(state) => global_state_layout(state) == bytes@,
                None => bytes@.len() != GLOBAL_STATE_LEN,
            },
    {
        if bytes.len() != GLOBAL_STATE_LEN {
            return None;
        }
        let state = GlobalState {
            admin: Address { bytes: take_32(bytes, 0) },
            fee_percentage: bytes[32],
            fee_receiver: Address { bytes: take_32(bytes, 33) },
            bump: bytes[65],
        };
        assert(global_state_layout(state) =~= bytes@);
        Some(state)
    }
}

impl GiftCard {
    /// The record's bytes.
    pub fn to_bytes(&self) -> (out: Vec<u8>)
        ensures
            out@ == giftcard_layout(*self),
            out@.len() == GIFT_CARD_LEN,
    {
        let mut out: Vec<u8> = u64_to_le_bytes(self.seed);
        append_bytes(&mut out, self.creator.bytes.as_slice());
        append_bytes(&mut out, self.hashed_coupon_code.as_slice());
        let amount = u64_to_le_bytes(self.amount);
        append_bytes(&mut out, amount.as_slice());
        out.push(self.bump);
        assert(out@ =~= giftcard_layout(*self));
        out
    }

    /// The record that the bytes hold. Every string of the record's length
    /// holds one; a string of another length holds none.
    pub fn from_bytes(bytes: &[u8]) -> (decoded: Option<GiftCard>)
        ensures
            match decoded {
                Some(card) => giftcard_layout(card) == bytes@,
                None => bytes@.len() != GIFT_CARD_LEN,
            },
    {
        if bytes.len() != GIFT_CARD_LEN {
            return None;
        }
        let card = GiftCard {
            seed: u64_from_le_bytes(slice_subrange(bytes, 0, 8)),
            creator: Address { bytes: take_32(bytes, 8) },
            hashed_coupon_code: take_32(bytes, 40),
            amount: u64_from_le_bytes(slice_subrange(bytes, 72, 80)),
            bump: bytes[80],
        };
        proof {
            lemma_auto_spec_u64_to_from_le_bytes();
            assert(spec_u64_to_le_bytes(card.seed) == bytes@.subrange(0, 8));
            assert(spec_u64_to_le_bytes(card.amount) == bytes@.subrange(72, 80));
            assert(giftcard_layout(card) =~= bytes@);
        }
        Some(card)
    }
}

/// A persisted global state has its fixed length, and no two states share
/// their bytes: what is read back is what was written.
pub proof fn global_state_layout_is_exact(first: GlobalState, second: GlobalState)
    ensures
        global_state_layout(first).len() == GLOBAL_STATE_LEN,
        global_state_layout(first) == global_state_layout(second) ==> first == second,
{
    let a = global_state_layout(first);
    let b = global_state_layout(second);
    if a == b {
        assert(first.admin.bytes@ =~= a.subrange(0, 32));
        assert(second.admin.bytes@ =~= b.subrange(0, 32));
        assert(first.fee_receiver.bytes@ =~= a.subrange(33, 65));
        assert(second.fee_receiver.bytes@ =~= b.subrange(33, 65));
        assert(first.fee_percentage == a[32]);
        assert(second.fee_percentage == b[32]);
        assert(first.bump == a[65]);
        assert(second.bump == b[65]);
        assert(first.admin.bytes =~= second.admin.bytes);
        assert(first.fee_receiver.bytes =~= second.fee_receiver.bytes);
    }
}

/// A persisted gift card has its fixed length, and no two cards share their
/// bytes: what is read back is what was written.
pub proof fn giftcard_layout_is_exact(first: GiftCard, second: GiftCard)
    ensures
        giftcard_layout(first).len() == GIFT_CARD_LEN,
        giftcard_layout(first) == giftcard_layout(second) ==> first == second,
{
    lemma_auto_spec_u64_to_from_le_bytes();
    let a = giftcard_layout(first);
    let b = giftcard_layout(second);
    assert(spec_u64_to_le_bytes(first.seed).len() == 8);
    assert(spec_u64_to_le_bytes(first.amount).len() == 8);
    assert(spec_u64_to_le_bytes(second.seed).len() == 8);
    assert(spec_u64_to_le_bytes(second.amount).len() == 8);
    if a == b {
        assert(spec_u64_to_le_bytes(first.seed) =~= a.subrange(0, 8));
        assert(spec_u64_to_le_bytes(second.seed) =~= b.subrange(0, 8));
        assert(first.seed == spec_u64_from_le_bytes(spec_u64_to_le_bytes(first.seed)));
        assert(second.seed == spec_u64_from_le_bytes(spec_u64_to_le_bytes(second.seed)));
        assert(first.creator.bytes@ =~= a.subrange(8, 40));
        assert(second.creator.bytes@ =~= b.subrange(8, 40));
        assert(first.hashed_coupon_code@ =~= a.subrange(40, 72));
        assert(second.hashed_coupon_code@ =~= b.subrange(40, 72));
        assert(spec_u64_to_le_bytes(first.amount) =~= a.subrange(72, 80));
        assert(spec_u64_to_le_bytes(second.amount) =~= b.subrange(72, 80));
        assert(first.amount == spec_u64_from_le_bytes(spec_u64_to_le_bytes(first.amount)));
        assert(second.amount == spec_u64_from_le_bytes(spec_u64_to_le_bytes(second.amount)));
        assert(first.bump == a[80]);
        assert(second.bump == b[80]);
        assert(first.creator.bytes =~= second.creator.bytes);
        assert(first.hashed_coupon_code =~= second.hashed_coupon_code);
    }
}

} // verus!
