//! An escrow of native tokens behind a secret coupon code.
//!
//! A creator locks an amount in a gift card that anyone holding the coupon
//! code can later claim. The card stores a 32-byte commitment to the code,
//! never the code itself. A protocol fee, configured in a singleton global
//! state that only its admin may change, is taken from every deposit.
//!
//! The handlers are state transitions: they take the accounts of an
//! instruction as plain values, decide, and answer with the accounts as they
//! are to be persisted and with the transfers that the host is to execute.
//! A refused instruction changes nothing and requests nothing.
//!
//! - [`hash`]: the coupon commitment.
//! - [`address`]: the derived addresses of the records.
//! - [`state`]: the records, identities, requests and rejections.
//! - [`layout`]: the records' persisted bytes.
//! - [`settings`]: `initialize` and `update_fee_settings`.
//! - [`lifecycle`]: `create_giftcard` and `avail`.
//! - [`program`]: the single entry point over the four instructions.
//! - [`laws`]: what holds across calls.

pub mod address;
pub mod hash;
pub mod laws;
pub mod layout;
pub mod lifecycle;
pub mod program;
pub mod settings;
pub mod state;

pub use lifecycle::{avail, create_giftcard, CouponCreate, CouponCreateBumps, CouponWithdraw};
pub use settings::{
    initialize, update_fee_settings, Initialize, InitializeBumps, UpdateFeeSettings,
};
pub use state::{
    Address, CloseRequest, GiftCard, GiftError, GlobalState, Rejection, TransferBatch,
    TransferRequest,
};
pub use program::{process, Effect, Instruction};
