//! What holds of the commitment and of the two lifecycles, across calls.

use crate::address::{giftcard_address, rederives_giftcard};
use crate::hash::{commit, commitment, commitment_holds_the_fold, fold_class};
use crate::lifecycle::{
    avail_outcome, create_outcome, escrow_outcome, fee_of, CouponCreate, CouponWithdraw,
};
use crate::settings::{initialize_outcome, update_outcome, Initialize, UpdateFeeSettings};
use crate::state::{address_by_bytes, Address, GiftError, Rejection};
use vstd::prelude::*;

verus! {

/// The input in which the bytes at positions `i` and `j` have changed places.
pub open spec fn swapped(bytes: Seq<u8>, i: int, j: int) -> Seq<u8> {
    bytes.update(i, bytes[j]).update(j, bytes[i])
}

proof fn fold_of_short_input(bytes: Seq<u8>, k: int, n: int)
    requires
        0 <= k < 32,
        0 <= n <= bytes.len(),
        n <= 32,
    ensures
        fold_class(bytes, k, n) == if k < n {
            bytes[k]
        } else {
            0u8
        },
    decreases n,
{
    if n > 0 {
        fold_of_short_input(bytes, k, n - 1);
        let last: u8 = bytes[n - 1];
        assert(0u8 ^ last == last) by (bit_vector);
    }
}

/// A code of at most 32 bytes commits to itself, padded with zeros: among
/// such codes of one length, different codes have different commitments, also
/// where one is the other with its bytes in another order.
pub proof fn short_code_commits_to_itself(bytes: Seq<u8>)
    requires
        bytes.len() <= 32,
    ensures
        commit(bytes).len() == 32,
        forall|k: int|
            0 <= k < 32 ==> #[trigger] commit(bytes)[k] == if k < bytes.len() {
                bytes[k]
            } else {
                0u8
            },
{
    assert forall|k: int| 0 <= k < 32 implies #[trigger] commit(bytes)[k] == if k < bytes.len() {
        bytes[k]
    } else {
        0u8
    } by {
        fold_of_short_input(bytes, k, bytes.len() as int);
    }
}

/// Among codes of one length of at most 32 bytes the commitment tells every
/// code from every other.
pub proof fn short_codes_collide_only_if_equal(first: Seq<u8>, second: Seq<u8>)
    requires
        first.len() == second.len(),
        first.len() <= 32,
        commit(first) == commit(second),
    ensures
        first == second,
{
    short_code_commits_to_itself(first);
    short_code_commits_to_itself(second);
    assert forall|k: int| 0 <= k < first.len() implies first[k] == second[k] by {
        assert(commit(first)[k] == first[k]);
        assert(commit(second)[k] == second[k]);
    }
    assert(first =~= second);
}

proof fn fold_of_swapped(bytes: Seq<u8>, i: int, j: int, k: int, n: int)
    requires
        0 <= i < j < bytes.len(),
        i % 32 == j % 32,
        0 <= k < 32,
        0 <= n <= bytes.len(),
    ensures
        fold_class(swapped(bytes, i, j), k, n) == if k == i % 32 && i < n <= j {
            fold_class(bytes, k, n) ^ (bytes[i] ^ bytes[j])
        } else {
            fold_class(bytes, k, n)
        },
    decreases n,
{
    if n > 0 {
        fold_of_swapped(bytes, i, j, k, n - 1);
        let a: u8 = fold_class(bytes, k, n - 1);
        let x: u8 = bytes[i];
        let y: u8 = bytes[j];
        let z: u8 = bytes[n - 1];
        assert((a ^ y) == (a ^ x) ^ (x ^ y)) by (bit_vector);
        assert((a ^ (x ^ y)) ^ z == (a ^ z) ^ (x ^ y)) by (bit_vector);
        assert((a ^ (x ^ y)) ^ x == a ^ y) by (bit_vector);
    }
}

/// The commitment does not see the order of bytes within a residue class:
/// two bytes whose positions are congruent modulo 32 may change places.
pub proof fn swap_within_class_keeps_commitment(bytes: Seq<u8>, i: int, j: int)
    requires
        0 <= i < j < bytes.len(),
        i % 32 == j % 32,
    ensures
        commit(swapped(bytes, i, j)) == commit(bytes),
{
    assert forall|k: int| 0 <= k < 32 implies fold_class(
        swapped(bytes, i, j),
        k,
        bytes.len() as int,
    ) == fold_class(bytes, k, bytes.len() as int) by {
        fold_of_swapped(bytes, i, j, k, bytes.len() as int);
    }
    assert(commit(swapped(bytes, i, j)) =~= commit(bytes));
}

/// Redemption asks for the commitment, not for the code: a card is closed
/// exactly when it exists at the address that its record derives and the
/// presented code commits to what the card stores.
pub proof fn redemption_succeeds_iff_commitment_matches(ctx: CouponWithdraw, code: Seq<u8>)
    ensures
        avail_outcome(ctx, code) is Ok <==> (ctx.giftcard matches Some(card) && rederives_giftcard(
            ctx.program_id,
            card.creator,
            card.seed,
            card.bump,
            ctx.giftcard_key,
        ) && commitment(code) == card.hashed_coupon_code),
{
}

/// A stored commitment is the presented code's exactly when its bytes are
/// the fold of the code.
pub proof fn stored_commitment_matches_by_bytes(code: Seq<u8>, stored: [u8; 32])
    ensures
        commitment(code) == stored <==> commit(code) == stored@,
{
    commitment_holds_the_fold(code);
    if commit(code) == stored@ {
        assert(commitment(code) =~= stored);
    }
}

/// Two codes with one commitment are the same to a card.
pub proof fn colliding_codes_redeem_alike(ctx: CouponWithdraw, first: Seq<u8>, second: Seq<u8>)
    requires
        commit(first) == commit(second),
    ensures
        avail_outcome(ctx, first) == avail_outcome(ctx, second),
{
}

/// A successful creation splits the deposit exactly: the card holds the
/// deposit less the fee, the fee goes to the configured receiver, the rest to
/// the card's account, and the creator pays the deposit and no more.
pub proof fn creation_splits_deposit(ctx: CouponCreate, seed: u64, code: Seq<u8>, amount: u64)
    requires
        create_outcome(ctx, seed, code, amount) is Ok,
    ensures
        ({
            let (next, batch) = create_outcome(ctx, seed, code, amount)->Ok_0;
            let fee = fee_of(amount, ctx.global_state.fee_percentage);
            &&& next.giftcard matches Some(card) && card.amount == amount - fee
                && card.hashed_coupon_code == commitment(code) && card.creator == ctx.creator
                && card.seed == seed
            &&& batch.fee.amount == fee
            &&& batch.fee.from == ctx.creator
            &&& batch.fee.to == ctx.global_state.fee_receiver
            &&& batch.escrow.amount == amount - fee
            &&& batch.escrow.from == ctx.creator
            &&& batch.escrow.to == ctx.giftcard_key
            &&& batch.fee.amount + batch.escrow.amount == amount
            &&& batch.debit(ctx.creator) == amount
            &&& ctx.giftcard_key != ctx.global_state.fee_receiver ==> batch.credit(
                ctx.global_state.fee_receiver,
            ) == fee && batch.credit(ctx.giftcard_key) == amount - fee
            &&& giftcard_address(ctx.program_id, ctx.creator, seed) == Some(
                (ctx.giftcard_key.bytes@, next.giftcard->Some_0.bump),
            )
            &&& next == (CouponCreate { giftcard: next.giftcard, ..ctx })
        }),
{
    address_by_bytes(ctx.fee_receiver, ctx.global_state.fee_receiver);
}

/// A percentage of at most a hundred never makes the fee exceed the deposit:
/// with such settings every positive deposit at a free, rightly derived
/// address is accepted.
pub proof fn fee_within_deposit(ctx: CouponCreate, seed: u64, code: Seq<u8>, amount: u64)
    requires
        ctx.global_state.fee_percentage <= 100,
    ensures
        0 <= fee_of(amount, ctx.global_state.fee_percentage) <= amount,
        create_outcome(ctx, seed, code, amount) is Ok <==> {
            &&& amount > 0
            &&& ctx.giftcard is None
            &&& ctx.fee_receiver == ctx.global_state.fee_receiver
            &&& giftcard_address(ctx.program_id, ctx.creator, seed) matches Some((key, _))
                && key == ctx.giftcard_key.bytes@
        },
{
    let p = ctx.global_state.fee_percentage as int;
    let a = amount as int;
    assert(0 <= (a * p) / 100 <= a) by (nonlinear_arith)
        requires
            0 <= a,
            0 <= p <= 100,
    ;
}

/// A deposit of zero is never escrowed: the creation is refused, and where
/// the accounts are in order it is refused as an insufficient amount.
pub proof fn zero_deposit_is_refused(ctx: CouponCreate, seed: u64, code: Seq<u8>, bump: u8)
    ensures
        create_outcome(ctx, seed, code, 0) is Err,
        ({
            &&& ctx.giftcard is None
            &&& ctx.fee_receiver == ctx.global_state.fee_receiver
            &&& giftcard_address(ctx.program_id, ctx.creator, seed) matches Some((key, _))
                && key == ctx.giftcard_key.bytes@
        }) ==> create_outcome(ctx, seed, code, 0) matches Err(
            Rejection::Program(GiftError::InsufficientAmount),
        ),
        escrow_outcome(ctx, seed, commitment(code), 0, bump) matches Err(
            Rejection::Program(GiftError::InsufficientAmount),
        ),
{
}

/// Of two creations for one creator and seed only the first succeeds: the
/// card's address is a function of the program, the creator and the seed, and
/// once a card is there every further creation at it is refused.
pub proof fn second_creation_fails(
    first: CouponCreate,
    second: CouponCreate,
    seed: u64,
    first_code: Seq<u8>,
    first_amount: u64,
    second_code: Seq<u8>,
    second_amount: u64,
)
    requires
        create_outcome(first, seed, first_code, first_amount) is Ok,
        second.program_id == first.program_id,
        second.creator == first.creator,
        second.giftcard_key == first.giftcard_key,
        second.giftcard == create_outcome(first, seed, first_code, first_amount)->Ok_0.0.giftcard,
    ensures
        create_outcome(second, seed, second_code, second_amount) matches Err(
            Rejection::AccountInUse,
        ),
{
}

/// A redeemed card is gone: the redemption leaves nothing at its address, and
/// every further redemption there is refused for want of an account.
pub proof fn redeemed_card_is_gone(ctx: CouponWithdraw, code: Seq<u8>, again: Seq<u8>)
    requires
        avail_outcome(ctx, code) is Ok,
    ensures
        avail_outcome(ctx, code)->Ok_0.0.giftcard is None,
        avail_outcome(avail_outcome(ctx, code)->Ok_0.0, again) matches Err(
            Rejection::AccountMissing,
        ),
{
}

/// A card that was created is redeemed by its own code, by any claimer, for
/// exactly what was escrowed in it, provided its address is what its record
/// derives again (the search that finds the address returns no other).
pub proof fn created_card_redeems_with_its_code(
    ctx: CouponCreate,
    seed: u64,
    code: Seq<u8>,
    amount: u64,
    claimer: Address,
)
    requires
        create_outcome(ctx, seed, code, amount) is Ok,
        rederives_giftcard(
            ctx.program_id,
            ctx.creator,
            seed,
            create_outcome(ctx, seed, code, amount)->Ok_0.0.giftcard->Some_0.bump,
            ctx.giftcard_key,
        ),
    ensures
        ({
            let (created, batch) = create_outcome(ctx, seed, code, amount)->Ok_0;
            let claim = CouponWithdraw {
                program_id: ctx.program_id,
                giftcard_key: ctx.giftcard_key,
                giftcard: created.giftcard,
                claimer,
            };
            &&& avail_outcome(claim, code) matches Ok((closed, request))
            &&& closed.giftcard is None
            &&& request.account == ctx.giftcard_key
            &&& request.destination == claimer
            &&& request.escrowed == batch.escrow.amount
        }),
{
}

/// The global state is created once: after a successful initialization every
/// further one on the same account is refused.
pub proof fn second_initialization_fails(ctx: Initialize, admin: Address)
    requires
        initialize_outcome(ctx) is Ok,
    ensures
        initialize_outcome(
            Initialize { admin, ..initialize_outcome(ctx)->Ok_0.0 },
        ) matches Err(Rejection::AccountInUse),
{
}

/// Only the admin changes the settings: for any other signer the update is
/// refused as unauthorized, and for the admin it succeeds and touches neither
/// the admin nor the bump.
pub proof fn settings_change_for_admin_only(
    ctx: UpdateFeeSettings,
    fee_percentage: u8,
    fee_receiver: Address,
)
    ensures
        ctx.admin != ctx.global_state.admin ==> update_outcome(ctx, fee_percentage, fee_receiver)
            matches Err(Rejection::Program(GiftError::Unauthorized)),
        ctx.admin == ctx.global_state.admin ==> (update_outcome(
            ctx,
            fee_percentage,
            fee_receiver,
        ) matches Ok((next, _)) && next.global_state.admin == ctx.global_state.admin
            && next.global_state.bump == ctx.global_state.bump && next.global_state.fee_percentage
            == fee_percentage && next.global_state.fee_receiver == fee_receiver),
{
}

} // verus!
