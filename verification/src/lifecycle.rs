//! The gift card lifecycle: creation with the fee split, and redemption.

use crate::address::{
    find_giftcard_address, found_view, giftcard_address, rederive_giftcard_address,
    rederives_giftcard,
};
use crate::hash::{commitment, custom_hash};
use crate::state::{
    address_by_bytes, bytes_equal, settles, Address, CloseRequest, GiftCard, GiftError,
    GlobalState, Rejection, TransferBatch, TransferRequest,
};
use vstd::prelude::*;
use vstd::string::StringSliceAdditionalSpecFns;

verus! {

/// The bump found for the account that `create_giftcard` creates.
#[derive(Clone, Copy, Debug, PartialEq, Eq)]
pub struct CouponCreateBumps {
    pub giftcard: u8,
}

/// The accounts of `create_giftcard`.
#[derive(Clone, Copy, Debug, PartialEq, Eq)]
pub struct CouponCreate {
    /// The program's own identity, from which addresses are derived.
    pub program_id: Address,
    /// The address at which the card is to be created.
    pub giftcard_key: Address,
    /// What that address holds: nothing before the creation.
    pub giftcard: Option<GiftCard>,
    /// The global state.
    pub global_state: GlobalState,
    /// The account that is to receive the fee.
    pub fee_receiver: Address,
    /// The signer, who funds the card.
    pub creator: Address,
}

/// The accounts of `avail`.
#[derive(Clone, Copy, Debug, PartialEq, Eq)]
pub struct CouponWithdraw {
    /// The program's own identity, from which addresses are derived.
    pub program_id: Address,
    /// The address of the card that is claimed.
    pub giftcard_key: Address,
    /// What that address holds: nothing once the card is redeemed.
    pub giftcard: Option<GiftCard>,
    /// The signer, who receives the card's balance.
    pub claimer: Address,
}

/// The protocol fee on a deposit: the given percentage of it, rounded down.
pub open spec fn fee_of(amount: u64, fee_percentage: u8) -> int {
    (amount as int * fee_percentage as int) / 100
}

/// What the creation handler does once the accounts are resolved. A deposit of
/// zero is refused, and so is one that the fee would exceed. Otherwise the
/// card is written with the deposit net of the fee, and two transfers are
/// requested from the creator: the fee to the fee receiver and the rest to
/// the card.
pub open spec fn escrow_outcome(
    ctx: CouponCreate,
    seed: u64,
    hashed_coupon_code: [u8; 32],
    amount: u64,
    bump: u8,
) -> Result<(CouponCreate, TransferBatch), Rejection> {
    let fee = fee_of(amount, ctx.global_state.fee_percentage);
    if amount == 0 {
        Err(Rejection::Program(GiftError::InsufficientAmount))
    } else if fee > amount {
        Err(Rejection::FeeExceedsDeposit)
    } else {
        Ok(
            (
                CouponCreate {
                    giftcard: Some(
                        GiftCard {
                            seed,
                            creator: ctx.creator,
                            hashed_coupon_code,
                            amount: (amount - fee) as u64,
                            bump,
                        },
                    ),
                    ..ctx
                },
                TransferBatch {
                    fee: TransferRequest {
                        from: ctx.creator,
                        to: ctx.fee_receiver,
                        amount: fee as u64,
                    },
                    escrow: TransferRequest {
                        from: ctx.creator,
                        to: ctx.giftcard_key,
                        amount: (amount - fee) as u64,
                    },
                },
            ),
        )
    }
}

/// What `create_giftcard` does on the given accounts.
pub open spec fn create_outcome(ctx: CouponCreate, seed: u64, code: Seq<u8>, amount: u64) -> Result<
    (CouponCreate, TransferBatch),
    Rejection,
> {
    create_outcome_at(
        ctx,
        giftcard_address(ctx.program_id, ctx.creator, seed),
        seed,
        code,
        amount,
    )
}

/// What `create_giftcard` does on the given accounts, where `found` is what
/// the search for the card's address gave. The card's account must sit at the
/// address found and hold nothing yet, and the fee receiver must be the
/// configured one; the handler then escrows the deposit behind the commitment
/// to the code. Where no address was found, no account sits at it.
pub open spec fn create_outcome_at(
    ctx: CouponCreate,
    found: Option<(Seq<u8>, u8)>,
    seed: u64,
    code: Seq<u8>,
    amount: u64,
) -> Result<(CouponCreate, TransferBatch), Rejection> {
    match found {
        Some((key, bump)) => if key != ctx.giftcard_key.bytes@ {
            Err(Rejection::SeedsMismatch)
        } else if ctx.giftcard is Some {
            Err(Rejection::AccountInUse)
        } else if ctx.fee_receiver != ctx.global_state.fee_receiver {
            Err(Rejection::AddressMismatch)
        } else {
            escrow_outcome(ctx, seed, commitment(code), amount, bump)
        },
        None => Err(Rejection::SeedsMismatch),
    }
}

/// What the redemption handler decides: the card must exist and the presented
/// commitment must be the stored one. Nothing changes either way.
pub open spec fn withdraw_outcome(ctx: CouponWithdraw, hashed_coupon_code: [u8; 32]) -> Result<
    (CouponWithdraw, ()),
    Rejection,
> {
    match ctx.giftcard {
        None => Err(Rejection::AccountMissing),
        Some(card) => if card.hashed_coupon_code != hashed_coupon_code {
            Err(Rejection::Program(GiftError::InvalidCouponCode))
        } else {
            Ok((ctx, ()))
        },
    }
}

/// Whether the card's account sits at the address that the card's stored
/// creator, seed and bump derive.
pub open spec fn is_canonical(ctx: CouponWithdraw) -> bool {
    ctx.giftcard matches Some(card) && rederives_giftcard(
        ctx.program_id,
        card.creator,
        card.seed,
        card.bump,
        ctx.giftcard_key,
    )
}

/// What `avail` does on the given accounts.
pub open spec fn avail_outcome(ctx: CouponWithdraw, code: Seq<u8>) -> Result<
    (CouponWithdraw, CloseRequest),
    Rejection,
> {
    avail_outcome_at(ctx, is_canonical(ctx), code)
}

/// What `avail` does on the given accounts, where `canonical` says whether
/// the card's account sits at the address that its record derives. The card
/// must exist, at that address, and the code must commit to the stored
/// commitment; the card is then closed in favour of the claimer, whoever
/// that is.
pub open spec fn avail_outcome_at(ctx: CouponWithdraw, canonical: bool, code: Seq<u8>) -> Result<
    (CouponWithdraw, CloseRequest),
    Rejection,
> {
    match ctx.giftcard {
        None => Err(Rejection::AccountMissing),
        Some(card) => if !canonical {
            Err(Rejection::SeedsMismatch)
        } else if card.hashed_coupon_code != commitment(code) {
            Err(Rejection::Program(GiftError::InvalidCouponCode))
        } else {
            Ok(
                (
                    CouponWithdraw { giftcard: None, ..ctx },
                    CloseRequest {
                        account: ctx.giftcard_key,
                        destination: ctx.claimer,
                        escrowed: card.amount,
                    },
                ),
            )
        },
    }
}

impl CouponCreate {
    /// Escrows a deposit: checks the amount, splits off the fee, writes the
    /// card and returns the two transfers for the host to execute together.
    pub fn create_giftcard(
        &mut self,
        seed: u64,
        hashed_coupon_code: [u8; 32],
        amount: u64,
        bumps: &CouponCreateBumps,
    ) -> (result: Result<TransferBatch, Rejection>)
        ensures
            settles(
                escrow_outcome(*old(self), seed, hashed_coupon_code, amount, bumps.giftcard),
                *old(self),
                *final(self),
                result,
            ),
    {
        if amount == 0 {
            return Err(Rejection::Program(GiftError::InsufficientAmount));
        }
        let percentage: u8 = self.global_state.fee_percentage;
        assert(amount as int * percentage as int <= 0xffff_ffff_ffff_ffff * 0xff) by (
            nonlinear_arith)
            requires
                0 <= amount as int <= 0xffff_ffff_ffff_ffff,
                0 <= percentage as int <= 0xff,
        ;
        let fee: u128 = (amount as u128) * (percentage as u128) / 100;
        if fee > amount as u128 {
            return Err(Rejection::FeeExceedsDeposit);
        }
        let fee_amount: u64 = fee as u64;
        let amount_after_fee: u64 = amount - fee_amount;
        self.giftcard = Some(
            GiftCard {
                seed,
                creator: self.creator,
                hashed_coupon_code,
                amount: amount_after_fee,
                bump: bumps.giftcard,
            },
        );
        Ok(
            TransferBatch {
                fee: TransferRequest {
                    from: self.creator,
                    to: self.fee_receiver,
                    amount: fee_amount,
                },
                escrow: TransferRequest {
                    from: self.creator,
                    to: self.giftcard_key,
                    amount: amount_after_fee,
                },
            },
        )
    }
}

impl CouponWithdraw {
    /// Decides a redemption: the presented commitment must be the card's.
    pub fn withdraw(&mut self, hashed_coupon_code: [u8; 32]) -> (result: Result<(), Rejection>)
        ensures
            settles(
                withdraw_outcome(*old(self), hashed_coupon_code),
                *old(self),
                *final(self),
                result,
            ),
    {
        match &self.giftcard {
            None => Err(Rejection::AccountMissing),
            Some(card) => {
                if !bytes_equal(&card.hashed_coupon_code, &hashed_coupon_code) {
                    Err(Rejection::Program(GiftError::InvalidCouponCode))
                } else {
                    Ok(())
                }
            },
        }
    }
}

/// Creates a gift card: escrows `amount`, less the fee, behind the
/// commitment to `coupon_code`, at the address derived from the creator and
/// `seed`.
pub fn create_giftcard(
    ctx: &mut CouponCreate,
    seed: u64,
    coupon_code: &str,
    amount: u64,
) -> (result: Result<TransferBatch, Rejection>)
    ensures
        settles(
            create_outcome(*old(ctx), seed, coupon_code.spec_bytes(), amount),
            *old(ctx),
            *final(ctx),
            result,
        ),
{
    let found = find_giftcard_address(&ctx.program_id, &ctx.creator, seed);
    create_giftcard_at(ctx, found, seed, coupon_code, amount)
}

/// Creates a gift card, given what the search for its address found.
pub fn create_giftcard_at(
    ctx: &mut CouponCreate,
    found: Option<(Address, u8)>,
    seed: u64,
    coupon_code: &str,
    amount: u64,
) -> (result: Result<TransferBatch, Rejection>)
    ensures
        settles(
            create_outcome_at(
                *old(ctx),
                found_view(found),
                seed,
                coupon_code.spec_bytes(),
                amount,
            ),
            *old(ctx),
            *final(ctx),
            result,
        ),
{
    match found {
        Some((key, bump)) => {
            proof {
                address_by_bytes(key, ctx.giftcard_key);
            }
            if !key.equals(&ctx.giftcard_key) {
                Err(Rejection::SeedsMismatch)
            } else if ctx.giftcard.is_some() {
                Err(Rejection::AccountInUse)
            } else if !ctx.fee_receiver.equals(&ctx.global_state.fee_receiver) {
                Err(Rejection::AddressMismatch)
            } else {
                let hashed_coupon_code = custom_hash(coupon_code);
                ctx.create_giftcard(
                    seed,
                    hashed_coupon_code,
                    amount,
                    &CouponCreateBumps { giftcard: bump },
                )
            }
        },
        None => Err(Rejection::SeedsMismatch),
    }
}

/// Redeems a gift card: whoever presents the code whose commitment the card
/// stores has the card closed in their favour.
pub fn avail(ctx: &mut CouponWithdraw, coupon_code: &str) -> (result: Result<
    CloseRequest,
    Rejection,
>)
    ensures
        settles(
            avail_outcome(*old(ctx), coupon_code.spec_bytes()),
            *old(ctx),
            *final(ctx),
            result,
        ),
{
    let canonical = match &ctx.giftcard {
        None => false,
        Some(card) => rederive_giftcard_address(
            &ctx.program_id,
            &card.creator,
            card.seed,
            card.bump,
            &ctx.giftcard_key,
        ),
    };
    avail_at(ctx, canonical, coupon_code)
}

/// Redeems a gift card, given whether its account sits at the address that
/// its record derives.
pub fn avail_at(ctx: &mut CouponWithdraw, canonical: bool, coupon_code: &str) -> (result: Result<
    CloseRequest,
    Rejection,
>)
    ensures
        settles(
            avail_outcome_at(*old(ctx), canonical, coupon_code.spec_bytes()),
            *old(ctx),
            *final(ctx),
            result,
        ),
{
    let card: GiftCard = match ctx.giftcard {
        None => { return Err(Rejection::AccountMissing); },
        Some(card) => card,
    };
    if !canonical {
        return Err(Rejection::SeedsMismatch);
    }
    let hashed_coupon_code = custom_hash(coupon_code);
    match ctx.withdraw(hashed_coupon_code) {
        Err(rejection) => Err(rejection),
        Ok(_) => {
            ctx.giftcard = None;
            Ok(
                CloseRequest {
                    account: ctx.giftcard_key,
                    destination: ctx.claimer,
                    escrowed: card.amount,
                },
            )
        },
    }
}

} // verus!
