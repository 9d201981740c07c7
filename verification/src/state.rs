//! The persisted records, the identities they name, and the ways an
//! instruction can be rejected.

use vstd::prelude::*;

verus! {

/// A 32-byte identity: an account's address or a signer's public key.
#[derive(Clone, Copy, Debug, PartialEq, Eq, Hash)]
pub struct Address {
    pub bytes: [u8; 32],
}

/// Whether two 32-byte values agree in every byte.
pub fn bytes_equal(a: &[u8; 32], b: &[u8; 32]) -> (same: bool)
    ensures
        same == (*a == *b),
{
    let mut i: usize = 0;
    while i < 32
        invariant
            i <= 32,
            forall|j: int| 0 <= j < i ==> a[j] == b[j],
        decreases 32 - i,
    {
        if a[i] != b[i] {
            return false;
        }
        i += 1;
    }
    assert(*a =~= *b);
    true
}

impl Address {
    /// The identity with the given bytes.
    pub fn new(bytes: [u8; 32]) -> (address: Address)
        ensures
            address.bytes == bytes,
    {
        Address { bytes }
    }

    /// Address equality: every byte agrees.
    pub fn equals(&self, other: &Address) -> (same: bool)
        ensures
            same == (*self == *other),
    {
        bytes_equal(&self.bytes, &other.bytes)
    }
}

/// Two identities are the same exactly when their bytes are.
pub proof fn address_by_bytes(a: Address, b: Address)
    ensures
        (a == b) <==> (a.bytes@ == b.bytes@),
{
    if a.bytes@ == b.bytes@ {
        assert(a.bytes =~= b.bytes);
    }
}

/// How an instruction's result and the accounts after it follow from the
/// outcome that its rules give: on success the accounts are the outcome's and
/// the result carries its requests; on a rejection the result is that
/// rejection and the accounts are untouched.
pub open spec fn settles<C, T>(
    outcome: Result<(C, T), Rejection>,
    before: C,
    after: C,
    result: Result<T, Rejection>,
) -> bool {
    match outcome {
        Ok((next, requests)) => after == next && result == Ok::<T, Rejection>(requests),
        Err(rejection) => after == before && result == Err::<T, Rejection>(rejection),
    }
}

/// The singleton protocol configuration.
#[derive(Clone, Copy, Debug, PartialEq, Eq)]
pub struct GlobalState {
    /// The identity that may change the settings.
    pub admin: Address,
    /// Share of each deposit taken as protocol fee, in percent.
    pub fee_percentage: u8,
    /// The identity credited with the fee.
    pub fee_receiver: Address,
    /// Bump of the record's derived address.
    pub bump: u8,
}

/// One gift card: an escrowed amount behind a coupon commitment.
#[derive(Clone, Copy, Debug, PartialEq, Eq)]
pub struct GiftCard {
    /// Creator-chosen value that tells the creator's cards apart.
    pub seed: u64,
    /// The identity that funded the card.
    pub creator: Address,
    /// Commitment to the secret coupon code.
    pub hashed_coupon_code: [u8; 32],
    /// The amount held in the card for whoever presents the code.
    pub amount: u64,
    /// Bump of the record's derived address.
    pub bump: u8,
}

/// The program's own rejections.
#[derive(Clone, Copy, Debug, PartialEq, Eq, Structural)]
pub enum GiftError {
    /// The presented coupon code does not match the card's commitment.
    InvalidCouponCode,
    /// The deposit is not positive.
    InsufficientAmount,
    /// The caller is not the admin.
    Unauthorized,
}

/// Every reason for which an instruction is refused. A refused instruction
/// changes nothing and requests nothing.
#[derive(Clone, Copy, Debug, PartialEq, Eq, Structural)]
pub enum Rejection {
    /// One of the program's own rejections.
    Program(GiftError),
    /// A record already exists at the address where one is to be created.
    AccountInUse,
    /// No record exists at the address that the instruction reads.
    AccountMissing,
    /// The account handed in does not sit at the address derived for it.
    SeedsMismatch,
    /// The fee receiver handed in is not the configured one.
    AddressMismatch,
    /// The configured percentage makes the fee larger than the deposit.
    FeeExceedsDeposit,
}

impl GiftError {
    /// The message shown to a caller.
    pub fn message(&self) -> (text: &'static str)
        ensures
            text@ == match *self {
                GiftError::InvalidCouponCode => "Invalid Coupon Code"@,
                GiftError::InsufficientAmount => "Insufficient Amount"@,
                GiftError::Unauthorized => "Unauthorized"@,
            },
    {
        match self {
            GiftError::InvalidCouponCode => "Invalid Coupon Code",
            GiftError::InsufficientAmount => "Insufficient Amount",
            GiftError::Unauthorized => "Unauthorized",
        }
    }
}

/// A request to the host to move `amount` from one account to another.
#[derive(Clone, Copy, Debug, PartialEq, Eq)]
pub struct TransferRequest {
    pub from: Address,
    pub to: Address,
    pub amount: u64,
}

/// The two transfers of a creation. The host executes both or neither.
#[derive(Clone, Copy, Debug, PartialEq, Eq)]
pub struct TransferBatch {
    /// The protocol fee, from the creator to the fee receiver.
    pub fee: TransferRequest,
    /// The escrowed amount, from the creator to the card's account.
    pub escrow: TransferRequest,
}

impl TransferBatch {
    /// What the batch puts into `account`.
    pub open spec fn credit(self, account: Address) -> int {
        (if self.fee.to == account {
            self.fee.amount as int
        } else {
            0
        }) + (if self.escrow.to == account {
            self.escrow.amount as int
        } else {
            0
        })
    }

    /// What the batch takes out of `account`.
    pub open spec fn debit(self, account: Address) -> int {
        (if self.fee.from == account {
            self.fee.amount as int
        } else {
            0
        }) + (if self.escrow.from == account {
            self.escrow.amount as int
        } else {
            0
        })
    }
}

/// A request to the host to close an account and hand its whole balance,
/// escrow and storage deposit, to `destination`.
#[derive(Clone, Copy, Debug, PartialEq, Eq)]
pub struct CloseRequest {
    pub account: Address,
    pub destination: Address,
    /// The escrowed amount that the closed card held.
    pub escrowed: u64,
}

} // verus!
