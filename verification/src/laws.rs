//! The guarantees the marketplace makes across calls, stated over the guard
//! predicates and transition tables that the operations' contracts use.
//!
//! Each operation's own `ensures` pins down one call; the lemmas here tie
//! consecutive calls together: once a record leaves the status its guard
//! demands, no later call can repeat the guarded effect.

use vstd::prelude::*;

use crate::model::{
    dispute_resolution_allowed, escrow_release_allowed, escrow_step, listing_cancel_allowed,
    listing_purchase_allowed, spec_escrow_key, AgentListing, Dispute, Escrow, EscrowStatus,
    ListingStatus, Transaction,
};
use crate::model::transaction_completion_allowed;

verus! {

/// Each listing binds at most one escrow: the escrow key is derived from
/// the listing's parent alone, and the derivation is injective, so two
/// listings share an escrow location exactly when they are the same
/// listing. `create_listing` binds that one key and every other operation
/// leaves the binding unchanged.
pub proof fn lemma_one_escrow_per_listing(seller_a: u64, seller_b: u64)
    ensures
        spec_escrow_key(seller_a) == spec_escrow_key(seller_b) <==> seller_a == seller_b,
{
}

/// An escrow holds no currency until a transaction is bound to it:
/// `create_listing` establishes `wf` with no transaction and amount zero,
/// and every operation preserves `wf`, so the amount stays zero until
/// `purchase_agent` binds a transaction.
pub proof fn lemma_escrow_unfunded_until_transaction(e: Escrow)
    requires
        e.wf(),
        e.transaction is None,
    ensures
        e.amount == 0,
{
}

/// No double purchase: a successful `purchase_agent` leaves the listing
/// Sold, and a Sold listing can never satisfy the purchase guard again, so
/// a second `purchase_agent` on the same listing fails with
/// `ListingNotActive` and moves nothing.
pub proof fn lemma_no_double_purchase(l: AgentListing)
    requires
        l.status is Sold,
    ensures
        !listing_purchase_allowed(l),
{
}

/// The purchase / cancellation race has one winner: both guards demand an
/// Active listing and both operations take it out of Active before any
/// transfer commits, so whichever call commits first leaves a listing on
/// which the loser's guard fails cleanly.
pub proof fn lemma_purchase_cancel_exclusive(l: AgentListing)
    requires
        l.status !is Active,
    ensures
        !listing_purchase_allowed(l),
        !listing_cancel_allowed(l),
{
}

/// Currency moves to the seller at most once per escrow: both settlement
/// entry points pay only while the escrow is Active, both leave it
/// Released on success, and the transition table makes every move out of
/// Active terminal — so once either `complete_transaction` or
/// `release_escrow` has paid, neither guard can open again.
pub proof fn lemma_currency_released_at_most_once(e: Escrow, now: i64)
    requires
        e.status !is Active,
    ensures
        !escrow_release_allowed(e, now),
        forall|t: Transaction| !transaction_completion_allowed(t, e, now),
{
}

/// Escrow transitions out of Active are terminal: the transition table
/// allows no move that leaves a non-Active status.
pub proof fn lemma_escrow_status_terminal(pre: EscrowStatus, post: EscrowStatus)
    requires
        escrow_step(pre, post),
        pre !is Active,
    ensures
        post == pre,
{
}

/// The asset is returned at most once: a successful `cancel_listing`
/// leaves the listing Delisted, and a Delisted listing can never satisfy
/// the cancellation guard again, so a second `cancel_listing` fails with
/// `ListingNotActive` and moves nothing.
pub proof fn lemma_cancel_at_most_once(l: AgentListing)
    requires
        l.status is Delisted,
    ensures
        !listing_cancel_allowed(l),
{
}

/// A dispute is adjudicated at most once: `resolve_dispute` leaves the
/// dispute Resolved, which can never satisfy the resolution guard again.
pub proof fn lemma_dispute_resolved_at_most_once(d: Dispute)
    requires
        d.status is Resolved,
    ensures
        !dispute_resolution_allowed(d),
{
}

} // verus!
