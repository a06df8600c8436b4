//! Settlement path: purchase with optimistic delivery, and the two
//! entry points that release the held currency to the seller.
//!
//! Both `complete_transaction` and `release_escrow` guard on the escrow
//! being Active and flip it to Released in the same atomic call, so the
//! held currency moves to the seller at most once per escrow, whichever
//! caller commits first.

use vstd::prelude::*;

use crate::errors::MarketplaceError;
use crate::ledger::Ledger;
use crate::model::{
    currency_id, escrow_release_allowed, escrow_step, listing_key, listing_purchase_allowed,
    listing_step, spec_currency_id, spec_listing_key, spec_transaction_key,
    transaction_completion_allowed, transaction_key, transaction_step, AgentListing, Escrow,
    EscrowStatus, ListingStatus, Transaction, TransactionStatus, DISPUTE_WINDOW,
    ESCROW_RELEASE_WINDOW,
};

verus! {

/// Buy an Active listing: open a Pending transaction with its two time
/// windows, rebind the escrow to that transaction with the settlement
/// amount, move the settlement currency from the buyer's custody into
/// escrow custody, and deliver the asset from escrow custody to the buyer
/// at once (optimistic delivery).
///
/// The listing leaves Active in the same call, so a second purchase — or a
/// racing cancellation — fails with `ListingNotActive` and moves nothing.
/// `InsufficientFunds` is returned exactly when the buyer's custody cannot
/// cover the price or escrow custody does not hold the asset; every
/// failure writes nothing.
pub fn purchase_agent(
    listing: &mut AgentListing,
    escrow: &mut Escrow,
    buyer: u64,
    now: i64,
    funds: &mut Ledger,
    assets: &mut Ledger,
    buyer_funds_account: u64,
    escrow_funds_account: u64,
    escrow_asset_account: u64,
    buyer_asset_account: u64,
) -> (r: Result<Transaction, MarketplaceError>)
    requires
        old(funds).wf(),
        old(assets).wf(),
        old(escrow).wf(),
        buyer_funds_account != escrow_funds_account,
        escrow_asset_account != buyer_asset_account,
        old(funds).spec_balance(escrow_funds_account, spec_currency_id(old(listing).currency))
            + old(listing).price <= u64::MAX,
        old(assets).spec_balance(buyer_asset_account, old(listing).mint) + 1 <= u64::MAX,
        now <= i64::MAX - ESCROW_RELEASE_WINDOW,
    ensures
        final(funds).wf(),
        final(assets).wf(),
        final(escrow).wf(),
        listing_step(old(listing).status, final(listing).status),
        escrow_step(old(escrow).status, final(escrow).status),
        final(listing).escrow_account == old(listing).escrow_account,
        !listing_purchase_allowed(*old(listing)) ==> r == Err::<Transaction, MarketplaceError>(
            MarketplaceError::ListingNotActive,
        ),
        listing_purchase_allowed(*old(listing)) ==> (r is Ok <==> old(funds).spec_balance(
            buyer_funds_account,
            spec_currency_id(old(listing).currency),
        ) >= old(listing).price && old(assets).spec_balance(
            escrow_asset_account,
            old(listing).mint,
        ) >= 1),
        listing_purchase_allowed(*old(listing)) && r is Err ==> r == Err::<
            Transaction,
            MarketplaceError,
        >(MarketplaceError::InsufficientFunds),
        r is Err ==> *final(listing) == *old(listing) && *final(escrow) == *old(escrow) && final(funds).entries@ == old(funds).entries@ && final(assets).entries@ == old(assets).entries@,
        r matches Ok(txn) ==> {
            &&& txn == (Transaction {
                buyer,
                seller: old(listing).seller,
                listing: spec_listing_key(old(listing).seller),
                amount: old(listing).price,
                currency: old(listing).currency,
                status: TransactionStatus::Pending,
                created_at: now,
                completed_at: None,
                escrow_release_time: (now + ESCROW_RELEASE_WINDOW) as i64,
                dispute_deadline: (now + DISPUTE_WINDOW) as i64,
            })
            &&& *final(listing) == (AgentListing {
                status: ListingStatus::Sold,
                ..*old(listing)
            })
            &&& *final(escrow) == (Escrow {
                transaction: Some(spec_transaction_key(buyer, old(listing).seller)),
                amount: old(listing).price,
                currency: old(listing).currency,
                status: old(escrow).status,
                release_time: (now + ESCROW_RELEASE_WINDOW) as i64,
            })
            &&& final(funds).spec_balance(
                buyer_funds_account,
                spec_currency_id(old(listing).currency),
            ) == old(funds).spec_balance(
                buyer_funds_account,
                spec_currency_id(old(listing).currency),
            ) - old(listing).price
            &&& final(funds).spec_balance(
                escrow_funds_account,
                spec_currency_id(old(listing).currency),
            ) == old(funds).spec_balance(
                escrow_funds_account,
                spec_currency_id(old(listing).currency),
            ) + old(listing).price
            &&& forall|a: u64, t: u64|
                !(a == buyer_funds_account && t == spec_currency_id(old(listing).currency)) && !(
                a == escrow_funds_account && t == spec_currency_id(old(listing).currency))
                    ==> #[trigger] final(funds).spec_balance(a, t) == old(funds).spec_balance(a, t)
            &&& final(assets).spec_balance(escrow_asset_account, old(listing).mint) == old(assets).spec_balance(escrow_asset_account, old(listing).mint) - 1
            &&& final(assets).spec_balance(buyer_asset_account, old(listing).mint) == old(assets).spec_balance(buyer_asset_account, old(listing).mint) + 1
            &&& forall|a: u64, t: u64|
                !(a == escrow_asset_account && t == old(listing).mint) && !(a
                    == buyer_asset_account && t == old(listing).mint) ==> #[trigger] final(assets).spec_balance(a, t) == old(assets).spec_balance(a, t)
        },
{
    if listing.status != ListingStatus::Active {
        return Err(MarketplaceError::ListingNotActive);
    }
    let seller = listing.seller;
    let price = listing.price;
    let currency = listing.currency;
    let mint = listing.mint;
    let cid = currency_id(currency);
    let buyer_balance = funds.balance_of(buyer_funds_account, cid);
    if buyer_balance < price {
        return Err(MarketplaceError::InsufficientFunds);
    }
    let held_asset = assets.balance_of(escrow_asset_account, mint);
    if held_asset < 1 {
        return Err(MarketplaceError::InsufficientFunds);
    }
    let paid = funds.transfer(buyer_funds_account, escrow_funds_account, cid, price);
    proof {
        assert(paid is Ok);
    }
    let delivered = assets.transfer(escrow_asset_account, buyer_asset_account, mint, 1);
    proof {
        assert(delivered is Ok);
    }
    let release_time = now + ESCROW_RELEASE_WINDOW;
    let transaction = Transaction {
        buyer,
        seller,
        listing: listing_key(seller),
        amount: price,
        currency,
        status: TransactionStatus::Pending,
        created_at: now,
        completed_at: None,
        escrow_release_time: release_time,
        dispute_deadline: now + DISPUTE_WINDOW,
    };
    listing.status = ListingStatus::Sold;
    escrow.transaction = Some(transaction_key(buyer, seller));
    escrow.amount = price;
    escrow.currency = currency;
    escrow.release_time = release_time;
    Ok(transaction)
}

/// Settle a Pending transaction after the lock window: mark it Completed,
/// flip its escrow to Released, and move the held currency from escrow
/// custody to the seller.
///
/// Fails with `TransactionAlreadyCompleted` when the transaction has left
/// Pending, with `InvalidEscrowState` when the escrow has already been
/// released or refunded (the other settlement entry point won the race),
/// and with `RefundPeriodNotElapsed` before the release time; every
/// failure writes nothing.
pub fn complete_transaction(
    transaction: &mut Transaction,
    escrow: &mut Escrow,
    funds: &mut Ledger,
    now: i64,
    escrow_funds_account: u64,
    seller_funds_account: u64,
) -> (r: Result<(), MarketplaceError>)
    requires
        old(funds).wf(),
        old(escrow).wf(),
        escrow_funds_account != seller_funds_account,
        old(funds).spec_balance(seller_funds_account, spec_currency_id(old(escrow).currency))
            + old(escrow).amount <= u64::MAX,
    ensures
        final(funds).wf(),
        final(escrow).wf(),
        transaction_step(old(transaction).status, final(transaction).status),
        escrow_step(old(escrow).status, final(escrow).status),
        old(transaction).status !is Pending ==> r == Err::<(), MarketplaceError>(
            MarketplaceError::TransactionAlreadyCompleted,
        ),
        old(transaction).status is Pending && old(escrow).status !is Active ==> r == Err::<
            (),
            MarketplaceError,
        >(MarketplaceError::InvalidEscrowState),
        old(transaction).status is Pending && old(escrow).status is Active && now < old(escrow).release_time ==> r == Err::<(), MarketplaceError>(
            MarketplaceError::RefundPeriodNotElapsed,
        ),
        transaction_completion_allowed(*old(transaction), *old(escrow), now) ==> (r is Ok <==> old(funds).spec_balance(escrow_funds_account, spec_currency_id(old(escrow).currency)) >= old(escrow).amount),
        transaction_completion_allowed(*old(transaction), *old(escrow), now) && r is Err ==> r
            == Err::<(), MarketplaceError>(MarketplaceError::InsufficientFunds),
        r is Err ==> *final(transaction) == *old(transaction) && *final(escrow) == *old(escrow)
            && final(funds).entries@ == old(funds).entries@,
        r is Ok ==> {
            &&& *final(transaction) == (Transaction {
                status: TransactionStatus::Completed,
                completed_at: Some(now),
                ..*old(transaction)
            })
            &&& *final(escrow) == (Escrow { status: EscrowStatus::Released, ..*old(escrow) })
            &&& final(funds).spec_balance(
                escrow_funds_account,
                spec_currency_id(old(escrow).currency),
            ) == old(funds).spec_balance(
                escrow_funds_account,
                spec_currency_id(old(escrow).currency),
            ) - old(escrow).amount
            &&& final(funds).spec_balance(
                seller_funds_account,
                spec_currency_id(old(escrow).currency),
            ) == old(funds).spec_balance(
                seller_funds_account,
                spec_currency_id(old(escrow).currency),
            ) + old(escrow).amount
            &&& forall|a: u64, t: u64|
                !(a == escrow_funds_account && t == spec_currency_id(old(escrow).currency)) && !(
                a == seller_funds_account && t == spec_currency_id(old(escrow).currency))
                    ==> #[trigger] final(funds).spec_balance(a, t) == old(funds).spec_balance(a, t)
        },
{
    if transaction.status != TransactionStatus::Pending {
        return Err(MarketplaceError::TransactionAlreadyCompleted);
    }
    if escrow.status != EscrowStatus::Active {
        return Err(MarketplaceError::InvalidEscrowState);
    }
    if now < escrow.release_time {
        return Err(MarketplaceError::RefundPeriodNotElapsed);
    }
    let cid = currency_id(escrow.currency);
    let moved = funds.transfer(escrow_funds_account, seller_funds_account, cid, escrow.amount);
    match moved {
        Err(e) => Err(e),
        Ok(()) => {
            transaction.status = TransactionStatus::Completed;
            transaction.completed_at = Some(now);
            escrow.status = EscrowStatus::Released;
            Ok(())
        },
    }
}

/// Release only the escrow half of a settlement: flip an Active escrow
/// past its release time to Released and move the held currency from
/// escrow custody to the seller, with no transaction bookkeeping.
///
/// Fails with `InvalidEscrowState` once the escrow has left Active — in
/// particular after a completed transaction or an earlier release already
/// paid the seller — and with `RefundPeriodNotElapsed` before the release
/// time; every failure writes nothing.
pub fn release_escrow(
    escrow: &mut Escrow,
    funds: &mut Ledger,
    now: i64,
    escrow_funds_account: u64,
    seller_funds_account: u64,
) -> (r: Result<(), MarketplaceError>)
    requires
        old(funds).wf(),
        old(escrow).wf(),
        escrow_funds_account != seller_funds_account,
        old(funds).spec_balance(seller_funds_account, spec_currency_id(old(escrow).currency))
            + old(escrow).amount <= u64::MAX,
    ensures
        final(funds).wf(),
        final(escrow).wf(),
        escrow_step(old(escrow).status, final(escrow).status),
        old(escrow).status !is Active ==> r == Err::<(), MarketplaceError>(
            MarketplaceError::InvalidEscrowState,
        ),
        old(escrow).status is Active && now < old(escrow).release_time ==> r == Err::<
            (),
            MarketplaceError,
        >(MarketplaceError::RefundPeriodNotElapsed),
        escrow_release_allowed(*old(escrow), now) ==> (r is Ok <==> old(funds).spec_balance(
            escrow_funds_account,
            spec_currency_id(old(escrow).currency),
        ) >= old(escrow).amount),
        escrow_release_allowed(*old(escrow), now) && r is Err ==> r == Err::<
            (),
            MarketplaceError,
        >(MarketplaceError::InsufficientFunds),
        r is Err ==> *final(escrow) == *old(escrow) && final(funds).entries@ == old(funds).entries@,
        r is Ok ==> {
            &&& *final(escrow) == (Escrow { status: EscrowStatus::Released, ..*old(escrow) })
            &&& final(funds).spec_balance(
                escrow_funds_account,
                spec_currency_id(old(escrow).currency),
            ) == old(funds).spec_balance(
                escrow_funds_account,
                spec_currency_id(old(escrow).currency),
            ) - old(escrow).amount
            &&& final(funds).spec_balance(
                seller_funds_account,
                spec_currency_id(old(escrow).currency),
            ) == old(funds).spec_balance(
                seller_funds_account,
                spec_currency_id(old(escrow).currency),
            ) + old(escrow).amount
            &&& forall|a: u64, t: u64|
                !(a == escrow_funds_account && t == spec_currency_id(old(escrow).currency)) && !(
                a == seller_funds_account && t == spec_currency_id(old(escrow).currency))
                    ==> #[trigger] final(funds).spec_balance(a, t) == old(funds).spec_balance(a, t)
        },
{
    if escrow.status != EscrowStatus::Active {
        return Err(MarketplaceError::InvalidEscrowState);
    }
    if now < escrow.release_time {
        return Err(MarketplaceError::RefundPeriodNotElapsed);
    }
    let cid = currency_id(escrow.currency);
    let moved = funds.transfer(escrow_funds_account, seller_funds_account, cid, escrow.amount);
    match moved {
        Err(e) => Err(e),
        Ok(()) => {
            escrow.status = EscrowStatus::Released;
            Ok(())
        },
    }
}

} // verus!
