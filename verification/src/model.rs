//! Data model: records, their status enumerations, the derived-key
//! addressing scheme, and the status transition tables.
//!
//! Every record is located by a key derived deterministically from a fixed
//! tag plus its parent identifiers, so at most one live record can exist
//! per key tuple. Cross-entity references are non-owning: a record stores
//! the key of the record it points to, never the record itself.

use vstd::prelude::*;

verus! {

/// Seconds until held currency may be released to the seller.
pub const ESCROW_RELEASE_WINDOW: i64 = 7 * 24 * 60 * 60;

/// Seconds during which a dispute may still be filed.
pub const DISPUTE_WINDOW: i64 = 3 * 24 * 60 * 60;

/// Settlement currency of a listing and its transaction.
#[derive(Clone, Copy, PartialEq, Eq, Structural, Debug)]
pub enum Currency {
    SOL,
    USDC,
    AXIOM,
}

/// Each currency is a ledger asset of its own, distinct from any tradable
/// asset identifier (those are chosen disjoint by the caller).
pub open spec fn spec_currency_id(c: Currency) -> u64 {
    match c {
        Currency::SOL => 0,
        Currency::USDC => 1,
        Currency::AXIOM => 2,
    }
}

/// Ledger asset identifier for a settlement currency.
pub fn currency_id(c: Currency) -> (r: u64)
    ensures
        r == spec_currency_id(c),
{
    match c {
        Currency::SOL => 0,
        Currency::USDC => 1,
        Currency::AXIOM => 2,
    }
}

#[derive(Clone, Copy, PartialEq, Eq, Structural, Debug)]
pub enum ListingStatus {
    Active,
    Sold,
    Delisted,
    Paused,
}

#[derive(Clone, Copy, PartialEq, Eq, Structural, Debug)]
pub enum TransactionStatus {
    Pending,
    Completed,
    Failed,
    Cancelled,
    Refunded,
    Disputed,
}

#[derive(Clone, Copy, PartialEq, Eq, Structural, Debug)]
pub enum EscrowStatus {
    Active,
    Released,
    Refunded,
    Disputed,
}

#[derive(Clone, Copy, PartialEq, Eq, Structural, Debug)]
pub enum DisputeStatus {
    Filed,
    UnderReview,
    Resolved,
    Dismissed,
}

/// Record kind, the fixed tag of the derived-key addressing scheme.
#[derive(Clone, Copy, PartialEq, Eq, Structural, Debug)]
pub enum RecordTag {
    Marketplace,
    Listing,
    Escrow,
    Transaction,
    Dispute,
}

/// Deterministic storage key: a tag plus up to two parent identifiers.
/// Two keys are equal exactly when all three components are equal, so the
/// derivation functions below are injective by construction.
#[derive(Clone, Copy, PartialEq, Eq, Structural, Debug)]
pub struct RecordKey {
    pub tag: RecordTag,
    pub primary: u64,
    pub secondary: u64,
}

pub open spec fn spec_marketplace_key() -> RecordKey {
    RecordKey { tag: RecordTag::Marketplace, primary: 0, secondary: 0 }
}

/// A seller has at most one listing: the key is derived from the seller alone.
pub open spec fn spec_listing_key(seller: u64) -> RecordKey {
    RecordKey { tag: RecordTag::Listing, primary: seller, secondary: 0 }
}

/// The escrow key is derived from the listing's parent, so each listing has
/// exactly one escrow location.
pub open spec fn spec_escrow_key(seller: u64) -> RecordKey {
    RecordKey { tag: RecordTag::Escrow, primary: seller, secondary: 0 }
}

pub open spec fn spec_transaction_key(buyer: u64, seller: u64) -> RecordKey {
    RecordKey { tag: RecordTag::Transaction, primary: buyer, secondary: seller }
}

pub open spec fn spec_dispute_key(buyer: u64, seller: u64) -> RecordKey {
    RecordKey { tag: RecordTag::Dispute, primary: buyer, secondary: seller }
}

pub fn marketplace_key() -> (r: RecordKey)
    ensures
        r == spec_marketplace_key(),
{
    RecordKey { tag: RecordTag::Marketplace, primary: 0, secondary: 0 }
}

pub fn listing_key(seller: u64) -> (r: RecordKey)
    ensures
        r == spec_listing_key(seller),
{
    RecordKey { tag: RecordTag::Listing, primary: seller, secondary: 0 }
}

pub fn escrow_key(seller: u64) -> (r: RecordKey)
    ensures
        r == spec_escrow_key(seller),
{
    RecordKey { tag: RecordTag::Escrow, primary: seller, secondary: 0 }
}

pub fn transaction_key(buyer: u64, seller: u64) -> (r: RecordKey)
    ensures
        r == spec_transaction_key(buyer, seller),
{
    RecordKey { tag: RecordTag::Transaction, primary: buyer, secondary: seller }
}

pub fn dispute_key(buyer: u64, seller: u64) -> (r: RecordKey)
    ensures
        r == spec_dispute_key(buyer, seller),
{
    RecordKey { tag: RecordTag::Dispute, primary: buyer, secondary: seller }
}

/// Singleton holding the marketplace authority; the authority is fixed at
/// initialization and nothing ever rewrites it.
#[derive(Clone, Copy, PartialEq, Eq, Structural, Debug)]
pub struct Marketplace {
    pub authority: u64,
}

/// A seller's offer to sell (or rent) one uniquely identified asset.
#[derive(Clone, Copy, Debug)]
pub struct AgentListing {
    pub seller: u64,
    /// Identifier of the tradable asset on the asset ledger.
    pub mint: u64,
    pub price: u64,
    pub rent_price: Option<u64>,
    pub currency: Currency,
    pub status: ListingStatus,
    pub created_at: i64,
    /// Key of the escrow bound at creation; set once, never reassigned.
    pub escrow_account: Option<RecordKey>,
}

/// Custodial record pairing the held currency amount with a disposition
/// status. Bound to its listing at creation, rebound to a transaction at
/// purchase time.
#[derive(Clone, Copy, Debug)]
pub struct Escrow {
    /// Key of the transaction this escrow settles, once a purchase exists.
    pub transaction: Option<RecordKey>,
    pub amount: u64,
    pub currency: Currency,
    pub status: EscrowStatus,
    pub release_time: i64,
}

impl Escrow {
    /// An escrow holds no currency until a transaction is bound to it.
    pub open spec fn wf(self) -> bool {
        self.transaction is None ==> self.amount == 0
    }
}

/// One buyer-seller exchange with its time windows and status.
#[derive(Clone, Copy, Debug)]
pub struct Transaction {
    pub buyer: u64,
    pub seller: u64,
    pub listing: RecordKey,
    pub amount: u64,
    pub currency: Currency,
    pub status: TransactionStatus,
    pub created_at: i64,
    pub completed_at: Option<i64>,
    /// When the held currency may release to the seller.
    pub escrow_release_time: i64,
    /// Deadline for filing a dispute.
    pub dispute_deadline: i64,
}

/// Complaint against a transaction; its resolution can override the
/// default settlement.
#[derive(Clone, Debug)]
pub struct Dispute {
    pub transaction: RecordKey,
    pub complainant: u64,
    /// Always the transaction's seller.
    pub respondent: u64,
    pub reason: String,
    pub status: DisputeStatus,
    pub created_at: i64,
    pub resolved_at: Option<i64>,
    pub resolution: Option<String>,
}

/// Guard of `purchase_agent`: only an Active listing can be bought.
pub open spec fn listing_purchase_allowed(l: AgentListing) -> bool {
    l.status is Active
}

/// Guard of `cancel_listing`: only an Active listing can be cancelled.
pub open spec fn listing_cancel_allowed(l: AgentListing) -> bool {
    l.status is Active
}

/// Guard of `release_escrow`, and the escrow half of the guard of
/// `complete_transaction`: held currency moves to the seller only while the
/// escrow is still Active and the lock window has elapsed.
pub open spec fn escrow_release_allowed(e: Escrow, now: i64) -> bool {
    e.status is Active && now >= e.release_time
}

/// Guard of `complete_transaction`: the transaction is still Pending and its
/// escrow satisfies the release guard.
pub open spec fn transaction_completion_allowed(t: Transaction, e: Escrow, now: i64) -> bool {
    t.status is Pending && escrow_release_allowed(e, now)
}

/// Guard of `file_dispute`: the transaction is Completed and the dispute
/// window has not closed.
pub open spec fn dispute_filing_allowed(t: Transaction, now: i64) -> bool {
    t.status is Completed && now <= t.dispute_deadline
}

/// Guard of `resolve_dispute`: only a dispute under review can be adjudicated.
pub open spec fn dispute_resolution_allowed(d: Dispute) -> bool {
    d.status is UnderReview
}

/// Transition table for listing statuses: a listing leaves Active for Sold
/// (purchase) or Delisted (cancellation); no other move is defined here.
pub open spec fn listing_step(pre: ListingStatus, post: ListingStatus) -> bool {
    ||| pre == post
    ||| (pre is Active && (post is Sold || post is Delisted))
}

/// Transition table for escrow statuses: every move out of Active is
/// terminal, and no move returns to Active.
pub open spec fn escrow_step(pre: EscrowStatus, post: EscrowStatus) -> bool {
    ||| pre == post
    ||| (pre is Active && (post is Released || post is Refunded))
}

/// Transition table for transaction statuses.
pub open spec fn transaction_step(pre: TransactionStatus, post: TransactionStatus) -> bool {
    ||| pre == post
    ||| (pre is Pending && post is Completed)
    ||| (pre is Completed && post is Disputed)
    ||| (pre is Disputed && (post is Refunded || post is Completed))
}

/// Transition table for dispute statuses: adjudication resolves a dispute
/// under review; nothing in this core produces UnderReview or Dismissed.
pub open spec fn dispute_step(pre: DisputeStatus, post: DisputeStatus) -> bool {
    ||| pre == post
    ||| (pre is UnderReview && post is Resolved)
}

} // verus!
