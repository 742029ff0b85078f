use vstd::prelude::*;
use crate::account::Account;

verus! {

/// Failures of the ownership registry and the safe-transfer protocol.
/// Each carries enough context to diagnose the cause without re-querying
/// state.
#[derive(Clone, Copy, Debug, PartialEq, Eq, Structural)]
pub enum Erc721Error {
    /// The token has no current owner (never minted, or burned).
    InvalidTokenId { token_id: usize },
    /// The claimed source is not the token's owner; reports the real owner.
    NotOwner { from: Account, token_id: usize, real_owner: Account },
    /// The caller is neither owner, approved operator, nor approved spender.
    NotApproved { owner: Account, spender: Account, token_id: usize },
    /// A transfer named the zero account as recipient.
    TransferToZero { token_id: usize },
    /// The receiving contract did not acknowledge the transfer; carries the
    /// 4-byte code it returned (as a big-endian word), or zero if the
    /// callback itself errored.
    ReceiverRefused { receiver: Account, token_id: usize, returned: u32 },
}

/// Failures of the booking ledger.
#[derive(Clone, Copy, Debug, PartialEq, Eq, Structural)]
pub enum BookingError {
    /// The administrator identity was already set.
    AlreadyInitialized { admin: Account },
    /// A creator is already registered for this site key.
    SiteAlreadyRegistered { creator: Account },
    /// Only the named creator may register their own site.
    NotCreator { caller: Account, creator: Account },
    /// Only the administrator may perform this operation.
    NotAdmin { caller: Account },
    /// A slot range must satisfy `0 < start < end`.
    InvalidRange { start: u64, end: u64 },
    /// No creator is registered for the requested site key.
    NoCreatorForSite,
    /// The attached payment is below the current booking fee.
    InsufficientPayment { sent: u128, fee: u128 },
    /// The caller has no withdrawable balance.
    NoBalance { caller: Account },
}

impl BookingError {
    /// The user-facing message of this failure.
    pub open spec fn message_spec(self) -> Seq<char> {
        match self {
            BookingError::AlreadyInitialized { .. } => "Already initialized"@,
            BookingError::SiteAlreadyRegistered { .. } => "Creator already set for this site_id"@,
            BookingError::NotCreator { .. } => "Only the creator can register their own site"@,
            BookingError::NotAdmin { .. } => "Only admin can set booking fee"@,
            BookingError::InvalidRange { .. } => "Invalid slot time range"@,
            BookingError::NoCreatorForSite => "No creator registered for this site_id"@,
            BookingError::InsufficientPayment { .. } => "Insufficient booking fee"@,
            BookingError::NoBalance { .. } => "No balance to withdraw"@,
        }
    }

    /// The user-facing message of this failure.
    pub fn message(&self) -> (r: &'static str)
        ensures
            r@ == self.message_spec(),
    {
        match self {
            BookingError::AlreadyInitialized { .. } => "Already initialized",
            BookingError::SiteAlreadyRegistered { .. } => "Creator already set for this site_id",
            BookingError::NotCreator { .. } => "Only the creator can register their own site",
            BookingError::NotAdmin { .. } => "Only admin can set booking fee",
            BookingError::InvalidRange { .. } => "Invalid slot time range",
            BookingError::NoCreatorForSite => "No creator registered for this site_id",
            BookingError::InsufficientPayment { .. } => "Insufficient booking fee",
            BookingError::NoBalance { .. } => "No balance to withdraw",
        }
    }
}

} // verus!
