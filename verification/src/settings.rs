//! The settings manager: the singleton global state and its admin gate.

use crate::address::{find_global_state_address, found_view, global_state_address};
use crate::state::{address_by_bytes, settles, Address, GiftError, GlobalState, Rejection};
use vstd::prelude::*;

verus! {

/// The fee percentage that a fresh global state starts with.
pub const DEFAULT_FEE_PERCENTAGE: u8 = 2;

/// The bump found for the account that `initialize` creates.
#[derive(Clone, Copy, Debug, PartialEq, Eq)]
pub struct InitializeBumps {
    pub global_state: u8,
}

/// The accounts of `initialize`.
#[derive(Clone, Copy, Debug, PartialEq, Eq)]
pub struct Initialize {
    /// The program's own identity, from which addresses are derived.
    pub program_id: Address,
    /// The address at which the global state is to be created.
    pub global_state_key: Address,
    /// What that address holds: nothing before the first initialization.
    pub global_state: Option<GlobalState>,
    /// The signer, who pays and becomes the admin.
    pub admin: Address,
}

/// The accounts of `update_fee_settings`.
#[derive(Clone, Copy, Debug, PartialEq, Eq)]
pub struct UpdateFeeSettings {
    /// The global state.
    pub global_state: GlobalState,
    /// The signer.
    pub admin: Address,
}

/// What `initialize` does on the given accounts.
pub open spec fn initialize_outcome(ctx: Initialize) -> Result<(Initialize, ()), Rejection> {
    initialize_outcome_at(ctx, global_state_address(ctx.program_id))
}

/// What `initialize` does on the given accounts, where `found` is what the
/// search for the global state's address gave. The account handed in must sit
/// at the address found and hold nothing yet; the signer then becomes admin
/// and fee receiver, at the default percentage. Where no address was found,
/// no account sits at it.
pub open spec fn initialize_outcome_at(ctx: Initialize, found: Option<(Seq<u8>, u8)>) -> Result<
    (Initialize, ()),
    Rejection,
> {
    match found {
        Some((key, bump)) => if key != ctx.global_state_key.bytes@ {
            Err(Rejection::SeedsMismatch)
        } else if ctx.global_state is Some {
            Err(Rejection::AccountInUse)
        } else {
            Ok(
                (
                    Initialize {
                        global_state: Some(
                            GlobalState {
                                admin: ctx.admin,
                                fee_percentage: DEFAULT_FEE_PERCENTAGE,
                                fee_receiver: ctx.admin,
                                bump,
                            },
                        ),
                        ..ctx
                    },
                    (),
                ),
            )
        },
        None => Err(Rejection::SeedsMismatch),
    }
}

/// What `update_fee_settings` does on the given accounts: only the admin may
/// change the settings, and both are overwritten as given.
pub open spec fn update_outcome(ctx: UpdateFeeSettings, fee_percentage: u8, fee_receiver: Address)
    -> Result<(UpdateFeeSettings, ()), Rejection> {
    if ctx.admin != ctx.global_state.admin {
        Err(Rejection::Program(GiftError::Unauthorized))
    } else {
        Ok(
            (
                UpdateFeeSettings {
                    global_state: GlobalState { fee_percentage, fee_receiver, ..ctx.global_state },
                    ..ctx
                },
                (),
            ),
        )
    }
}

impl Initialize {
    /// Writes the global state: the signer as admin, the given fee settings,
    /// and the bump of the account's address.
    pub fn init(
        &mut self,
        fee_percentage: u8,
        fee_receiver: Address,
        bumps: &InitializeBumps,
    ) -> (result: Result<(), Rejection>)
        ensures
            result == Ok::<(), Rejection>(()),
            *final(self) == (Initialize {
                global_state: Some(
                    GlobalState {
                        admin: old(self).admin,
                        fee_percentage,
                        fee_receiver,
                        bump: bumps.global_state,
                    },
                ),
                ..*old(self)
            }),
    {
        self.global_state = Some(
            GlobalState {
                admin: self.admin,
                fee_percentage,
                fee_receiver,
                bump: bumps.global_state,
            },
        );
        Ok(())
    }
}

impl UpdateFeeSettings {
    /// Overwrites the fee percentage and the fee receiver. No bound is put on
    /// the percentage.
    pub fn update_fee_settings(&mut self, fee_percentage: u8, fee_receiver: Address) -> (result:
        Result<(), Rejection>)
        ensures
            result == Ok::<(), Rejection>(()),
            *final(self) == (UpdateFeeSettings {
                global_state: GlobalState {
                    fee_percentage,
                    fee_receiver,
                    ..old(self).global_state
                },
                ..*old(self)
            }),
    {
        self.global_state.fee_percentage = fee_percentage;
        self.global_state.fee_receiver = fee_receiver;
        Ok(())
    }
}

/// Creates the global state at its derived address, once.
pub fn initialize(ctx: &mut Initialize) -> (result: Result<(), Rejection>)
    ensures
        settles(initialize_outcome(*old(ctx)), *old(ctx), *final(ctx), result),
{
    let found = find_global_state_address(&ctx.program_id);
    initialize_at(ctx, found)
}

/// Creates the global state, given what the search for its address found.
pub fn initialize_at(ctx: &mut Initialize, found: Option<(Address, u8)>) -> (result: Result<
    (),
    Rejection,
>)
    ensures
        settles(
            initialize_outcome_at(*old(ctx), found_view(found)),
            *old(ctx),
            *final(ctx),
            result,
        ),
{
    match found {
        Some((key, bump)) => {
            proof {
                address_by_bytes(key, ctx.global_state_key);
            }
            if !key.equals(&ctx.global_state_key) {
                Err(Rejection::SeedsMismatch)
            } else if ctx.global_state.is_some() {
                Err(Rejection::AccountInUse)
            } else {
                let admin = ctx.admin;
                ctx.init(DEFAULT_FEE_PERCENTAGE, admin, &InitializeBumps { global_state: bump })
            }
        },
        None => Err(Rejection::SeedsMismatch),
    }
}

/// Changes the fee settings, for the admin only.
pub fn update_fee_settings(
    ctx: &mut UpdateFeeSettings,
    fee_percentage: u8,
    fee_receiver: Address,
) -> (result: Result<(), Rejection>)
    ensures
        settles(
            update_outcome(*old(ctx), fee_percentage, fee_receiver),
            *old(ctx),
            *final(ctx),
            result,
        ),
{
    if !ctx.admin.equals(&ctx.global_state.admin) {
        return Err(Rejection::Program(GiftError::Unauthorized));
    }
    ctx.update_fee_settings(fee_percentage, fee_receiver)
}

} // verus!
