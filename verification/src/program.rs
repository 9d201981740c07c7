//! The program's single entry point: the closed set of its instructions.

use crate::lifecycle::{
    avail, avail_outcome, create_giftcard, create_outcome, CouponCreate, CouponWithdraw,
};
use crate::settings::{
    initialize, initialize_outcome, update_fee_settings, update_outcome, Initialize,
    UpdateFeeSettings,
};
use crate::state::{Address, CloseRequest, Rejection, TransferBatch};
use vstd::prelude::*;
use vstd::string::StringSliceAdditionalSpecFns;
use vstd::utf8::encode_utf8;

verus! {

/// An instruction with its arguments and the accounts resolved for it.
#[allow(inconsistent_fields)]
#[derive(Clone, Debug, PartialEq, Eq)]
pub enum Instruction {
    Initialize { accounts: Initialize },
    UpdateFeeSettings { accounts: UpdateFeeSettings, fee_percentage: u8, fee_receiver: Address },
    CreateGiftcard { accounts: CouponCreate, seed: u64, coupon_code: String, amount: u64 },
    Avail { accounts: CouponWithdraw, coupon_code: String },
}

/// What an accepted instruction leaves: the accounts as they are to be
/// persisted, and what the host is asked to move.
#[allow(inconsistent_fields)]
#[derive(Clone, Copy, Debug, PartialEq, Eq)]
pub enum Effect {
    Initialized { accounts: Initialize },
    Updated { accounts: UpdateFeeSettings },
    Created { accounts: CouponCreate, transfers: TransferBatch },
    Redeemed { accounts: CouponWithdraw, close: CloseRequest },
}

/// What each instruction does: what its handler does on its accounts.
pub open spec fn process_outcome(instruction: Instruction) -> Result<Effect, Rejection> {
    match instruction {
        Instruction::Initialize { accounts } => match initialize_outcome(accounts) {
            Ok((next, _)) => Ok(Effect::Initialized { accounts: next }),
            Err(rejection) => Err(rejection),
        },
        Instruction::UpdateFeeSettings {
            accounts,
            fee_percentage,
            fee_receiver,
        } => match update_outcome(accounts, fee_percentage, fee_receiver) {
            Ok((next, _)) => Ok(Effect::Updated { accounts: next }),
            Err(rejection) => Err(rejection),
        },
        Instruction::CreateGiftcard { accounts, seed, coupon_code, amount } => match create_outcome(
            accounts,
            seed,
            encode_utf8(coupon_code@),
            amount,
        ) {
            Ok((next, transfers)) => Ok(Effect::Created { accounts: next, transfers }),
            Err(rejection) => Err(rejection),
        },
        Instruction::Avail { accounts, coupon_code } => match avail_outcome(
            accounts,
            encode_utf8(coupon_code@),
        ) {
            Ok((next, close)) => Ok(Effect::Redeemed { accounts: next, close }),
            Err(rejection) => Err(rejection),
        },
    }
}

/// Runs one instruction to its end: either it is accepted, with its whole
/// effect, or it is rejected and has none.
pub fn process(instruction: Instruction) -> (result: Result<Effect, Rejection>)
    ensures
        result == process_outcome(instruction),
{
    match instruction {
        Instruction::Initialize { accounts } => {
            let mut accounts = accounts;
            match initialize(&mut accounts) {
                Ok(_) => Ok(Effect::Initialized { accounts }),
                Err(rejection) => Err(rejection),
            }
        },
        Instruction::UpdateFeeSettings { accounts, fee_percentage, fee_receiver } => {
            let mut accounts = accounts;
            match update_fee_settings(&mut accounts, fee_percentage, fee_receiver) {
                Ok(_) => Ok(Effect::Updated { accounts }),
                Err(rejection) => Err(rejection),
            }
        },
        Instruction::CreateGiftcard { accounts, seed, coupon_code, amount } => {
            let mut accounts = accounts;
            match create_giftcard(&mut accounts, seed, coupon_code.as_str(), amount) {
                Ok(transfers) => Ok(Effect::Created { accounts, transfers }),
                Err(rejection) => Err(rejection),
            }
        },
        Instruction::Avail { accounts, coupon_code } => {
            let mut accounts = accounts;
            match avail(&mut accounts, coupon_code.as_str()) {
                Ok(close) => Ok(Effect::Redeemed { accounts, close }),
                Err(rejection) => Err(rejection),
            }
        },
    }
}

} // verus!
