//! Dispute resolver: filing a complaint against a completed transaction
//! and adjudicating it, possibly flipping the final disposition of funds.

use vstd::prelude::*;

use crate::errors::MarketplaceError;
use crate::ledger::Ledger;
use crate::model::{
    currency_id, dispute_filing_allowed, dispute_resolution_allowed, dispute_step, escrow_step,
    spec_currency_id, spec_transaction_key, transaction_key, transaction_step, Dispute,
    DisputeStatus, Escrow, EscrowStatus, Transaction, TransactionStatus,
};

verus! {

/// File a dispute against a Completed transaction within its dispute
/// window: create a Filed dispute naming the transaction's seller as
/// respondent, and mark the transaction Disputed.
///
/// Fails with `TransactionAlreadyCompleted` when the transaction is not in
/// Completed — in particular while it is still Pending, so the dispute
/// window, which closes before the release window opens, cannot be used
/// against an unsettled transaction — and with `InvalidDisputeStatus` once
/// the deadline has passed; every failure writes nothing.
pub fn file_dispute(
    transaction: &mut Transaction,
    complainant: u64,
    reason: String,
    now: i64,
) -> (r: Result<Dispute, MarketplaceError>)
    ensures
        transaction_step(old(transaction).status, final(transaction).status),
        old(transaction).status !is Completed ==> r == Err::<Dispute, MarketplaceError>(
            MarketplaceError::TransactionAlreadyCompleted,
        ),
        old(transaction).status is Completed && now > old(transaction).dispute_deadline ==> r
            == Err::<Dispute, MarketplaceError>(MarketplaceError::InvalidDisputeStatus),
        r is Ok <==> dispute_filing_allowed(*old(transaction), now),
        r is Err ==> *final(transaction) == *old(transaction),
        r matches Ok(d) ==> {
            &&& d == (Dispute {
                transaction: spec_transaction_key(old(transaction).buyer, old(transaction).seller),
                complainant,
                respondent: old(transaction).seller,
                reason: reason,
                status: DisputeStatus::Filed,
                created_at: now,
                resolved_at: None,
                resolution: None,
            })
            &&& *final(transaction) == (Transaction {
                status: TransactionStatus::Disputed,
                ..*old(transaction)
            })
        },
{
    if transaction.status != TransactionStatus::Completed {
        return Err(MarketplaceError::TransactionAlreadyCompleted);
    }
    if now > transaction.dispute_deadline {
        return Err(MarketplaceError::InvalidDisputeStatus);
    }
    let dispute = Dispute {
        transaction: transaction_key(transaction.buyer, transaction.seller),
        complainant,
        respondent: transaction.seller,
        reason,
        status: DisputeStatus::Filed,
        created_at: now,
        resolved_at: None,
        resolution: None,
    };
    transaction.status = TransactionStatus::Disputed;
    Ok(dispute)
}

/// Adjudicate a dispute under review with a binary outcome.
///
/// In favor of the complainant: the transaction becomes Refunded and a
/// compensating transfer moves the disputed amount to the buyer's custody —
/// sourced from escrow custody while the escrow still holds the funds
/// (flipping it to Refunded), and from the seller's custody once the escrow
/// has already been released. Against the complainant: the transaction is
/// reaffirmed Completed and no funds move at all, so the buyer's custody
/// never decreases. Either way the dispute becomes Resolved with the
/// resolution text stored.
///
/// Fails with `InvalidDisputeStatus` when the dispute is not UnderReview,
/// and with `InsufficientFunds` when the compensating transfer's source
/// cannot cover the disputed amount; every failure writes nothing.
pub fn resolve_dispute(
    dispute: &mut Dispute,
    transaction: &mut Transaction,
    escrow: &mut Escrow,
    funds: &mut Ledger,
    resolution: String,
    favor_complainant: bool,
    now: i64,
    escrow_funds_account: u64,
    seller_funds_account: u64,
    buyer_funds_account: u64,
) -> (r: Result<(), MarketplaceError>)
    requires
        old(funds).wf(),
        old(escrow).wf(),
        escrow_funds_account != buyer_funds_account,
        seller_funds_account != buyer_funds_account,
        old(funds).spec_balance(buyer_funds_account, spec_currency_id(old(transaction).currency))
            + old(transaction).amount <= u64::MAX,
    ensures
        final(funds).wf(),
        final(escrow).wf(),
        dispute_step(old(dispute).status, final(dispute).status),
        escrow_step(old(escrow).status, final(escrow).status),
        old(transaction).status is Disputed ==> transaction_step(
            old(transaction).status,
            final(transaction).status,
        ),
        !dispute_resolution_allowed(*old(dispute)) ==> r == Err::<(), MarketplaceError>(
            MarketplaceError::InvalidDisputeStatus,
        ),
        dispute_resolution_allowed(*old(dispute)) ==> (r is Ok <==> !favor_complainant || old(funds).spec_balance(
            if old(escrow).status is Active {
                escrow_funds_account
            } else {
                seller_funds_account
            },
            spec_currency_id(old(transaction).currency),
        ) >= old(transaction).amount),
        dispute_resolution_allowed(*old(dispute)) && r is Err ==> r == Err::<
            (),
            MarketplaceError,
        >(MarketplaceError::InsufficientFunds),
        r is Err ==> *final(dispute) == *old(dispute) && *final(transaction) == *old(transaction)
            && *final(escrow) == *old(escrow) && final(funds).entries@ == old(funds).entries@,
        r is Ok ==> *final(dispute) == (Dispute {
            status: DisputeStatus::Resolved,
            resolved_at: Some(now),
            resolution: Some(resolution),
            ..*old(dispute)
        }),
        r is Ok && favor_complainant ==> {
            &&& *final(transaction) == (Transaction {
                status: TransactionStatus::Refunded,
                completed_at: Some(now),
                ..*old(transaction)
            })
            &&& final(funds).spec_balance(
                buyer_funds_account,
                spec_currency_id(old(transaction).currency),
            ) == old(funds).spec_balance(
                buyer_funds_account,
                spec_currency_id(old(transaction).currency),
            ) + old(transaction).amount
        },
        r is Ok && favor_complainant && old(escrow).status is Active ==> {
            &&& *final(escrow) == (Escrow { status: EscrowStatus::Refunded, ..*old(escrow) })
            &&& final(funds).spec_balance(
                escrow_funds_account,
                spec_currency_id(old(transaction).currency),
            ) == old(funds).spec_balance(
                escrow_funds_account,
                spec_currency_id(old(transaction).currency),
            ) - old(transaction).amount
            &&& forall|a: u64, t: u64|
                !(a == escrow_funds_account && t == spec_currency_id(old(transaction).currency))
                    && !(a == buyer_funds_account && t == spec_currency_id(
                    old(transaction).currency,
                )) ==> #[trigger] final(funds).spec_balance(a, t) == old(funds).spec_balance(a, t)
        },
        r is Ok && favor_complainant && old(escrow).status !is Active ==> {
            &&& *final(escrow) == *old(escrow)
            &&& final(funds).spec_balance(
                seller_funds_account,
                spec_currency_id(old(transaction).currency),
            ) == old(funds).spec_balance(
                seller_funds_account,
                spec_currency_id(old(transaction).currency),
            ) - old(transaction).amount
            &&& forall|a: u64, t: u64|
                !(a == seller_funds_account && t == spec_currency_id(old(transaction).currency))
                    && !(a == buyer_funds_account && t == spec_currency_id(
                    old(transaction).currency,
                )) ==> #[trigger] final(funds).spec_balance(a, t) == old(funds).spec_balance(a, t)
        },
        r is Ok && !favor_complainant ==> {
            &&& *final(transaction) == (Transaction {
                status: TransactionStatus::Completed,
                ..*old(transaction)
            })
            &&& *final(escrow) == *old(escrow)
            &&& final(funds).entries@ == old(funds).entries@
        },
{
    if dispute.status != DisputeStatus::UnderReview {
        return Err(MarketplaceError::InvalidDisputeStatus);
    }
    if favor_complainant {
        let cid = currency_id(transaction.currency);
        let source = if escrow.status == EscrowStatus::Active {
            escrow_funds_account
        } else {
            seller_funds_account
        };
        let moved = funds.transfer(source, buyer_funds_account, cid, transaction.amount);
        match moved {
            Err(e) => {
                return Err(e);
            },
            Ok(()) => {},
        }
        if escrow.status == EscrowStatus::Active {
            escrow.status = EscrowStatus::Refunded;
        }
        transaction.status = TransactionStatus::Refunded;
        transaction.completed_at = Some(now);
    } else {
        transaction.status = TransactionStatus::Completed;
    }
    dispute.status = DisputeStatus::Resolved;
    dispute.resolved_at = Some(now);
    dispute.resolution = Some(resolution);
    Ok(())
}

} // verus!
