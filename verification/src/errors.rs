//! Domain error kinds. Every failed operation returns one of these and
//! leaves all records and ledgers exactly as they were: no partial commit.

use vstd::prelude::*;
use vstd::string::StringExecFns;

verus! {

/// Typed rejection returned by every marketplace operation that fails.
#[derive(Clone, Copy, PartialEq, Eq, Structural, Debug)]
pub enum MarketplaceError {
    Unauthorized,
    InsufficientFunds,
    InvalidListing,
    ListingNotActive,
    TransactionAlreadyCompleted,
    InvalidEscrowState,
    RefundPeriodNotElapsed,
    InvalidDisputeStatus,
}

/// The human-readable text of each error kind.
pub open spec fn spec_message(e: MarketplaceError) -> Seq<char> {
    match e {
        MarketplaceError::Unauthorized => "Unauthorized access"@,
        MarketplaceError::InsufficientFunds => "Insufficient funds"@,
        MarketplaceError::InvalidListing => "Invalid listing"@,
        MarketplaceError::ListingNotActive => "Listing not active"@,
        MarketplaceError::TransactionAlreadyCompleted => "Transaction already completed"@,
        MarketplaceError::InvalidEscrowState => "Invalid escrow state"@,
        MarketplaceError::RefundPeriodNotElapsed => "Refund period not elapsed"@,
        MarketplaceError::InvalidDisputeStatus => "Invalid dispute status"@,
    }
}

impl MarketplaceError {
    /// Text to hand to a caller's diagnostics.
    pub fn message(&self) -> (r: String)
        ensures
            r@ == spec_message(*self),
    {
        match self {
            MarketplaceError::Unauthorized => String::from_str("Unauthorized access"),
            MarketplaceError::InsufficientFunds => String::from_str("Insufficient funds"),
            MarketplaceError::InvalidListing => String::from_str("Invalid listing"),
            MarketplaceError::ListingNotActive => String::from_str("Listing not active"),
            MarketplaceError::TransactionAlreadyCompleted => String::from_str(
                "Transaction already completed",
            ),
            MarketplaceError::InvalidEscrowState => String::from_str("Invalid escrow state"),
            MarketplaceError::RefundPeriodNotElapsed => String::from_str(
                "Refund period not elapsed",
            ),
            MarketplaceError::InvalidDisputeStatus => String::from_str("Invalid dispute status"),
        }
    }
}

} // verus!
