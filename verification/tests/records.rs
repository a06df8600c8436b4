//! Record-level operations: the settlement timeline, the mutual
//! exclusions, and the dispute dispositions, on concrete values.

use axiom_marketplace::errors::MarketplaceError;
use axiom_marketplace::ledger::Ledger;
use axiom_marketplace::listing::{cancel_listing, create_listing, initialize_marketplace};
use axiom_marketplace::model::marketplace_key;
use axiom_marketplace::model::{
    currency_id, escrow_key, listing_key, transaction_key, AgentListing, Currency, Dispute,
    DisputeStatus, Escrow, EscrowStatus, ListingStatus, RecordKey, RecordTag, Transaction,
    TransactionStatus, DISPUTE_WINDOW, ESCROW_RELEASE_WINDOW,
};
use axiom_marketplace::settlement::{complete_transaction, purchase_agent, release_escrow};
use axiom_marketplace::dispute::{file_dispute, resolve_dispute};

const SELLER: u64 = 1;
const BUYER: u64 = 2;
const MINT: u64 = 7;
const PRICE: u64 = 1000;

const SELLER_ASSETS: u64 = 10;
const ESCROW_ASSETS: u64 = 20;
const BUYER_ASSETS: u64 = 21;
const BUYER_FUNDS: u64 = 30;
const ESCROW_FUNDS: u64 = 40;
const SELLER_FUNDS: u64 = 50;

const SOL_ID: u64 = 0;

fn listed() -> (AgentListing, Escrow, Ledger) {
    let mut assets = Ledger::new();
    assets.credit(SELLER_ASSETS, MINT, 1);
    let (listing, escrow) = create_listing(
        SELLER,
        MINT,
        PRICE,
        Currency::SOL,
        None,
        0,
        &mut assets,
        SELLER_ASSETS,
        ESCROW_ASSETS,
    )
    .expect("seller holds the asset");
    (listing, escrow, assets)
}

fn purchased() -> (AgentListing, Escrow, Transaction, Ledger, Ledger) {
    let (mut listing, mut escrow, mut assets) = listed();
    let mut funds = Ledger::new();
    funds.credit(BUYER_FUNDS, SOL_ID, PRICE);
    let txn = purchase_agent(
        &mut listing,
        &mut escrow,
        BUYER,
        0,
        &mut funds,
        &mut assets,
        BUYER_FUNDS,
        ESCROW_FUNDS,
        ESCROW_ASSETS,
        BUYER_ASSETS,
    )
    .expect("buyer funded and asset in escrow");
    (listing, escrow, txn, funds, assets)
}

#[test]
fn marketplace_holds_authority() {
    let m = initialize_marketplace(99);
    assert_eq!(m.authority, 99);
}

#[test]
fn currency_ids_are_distinct() {
    let ids = vec![
        currency_id(Currency::SOL),
        currency_id(Currency::USDC),
        currency_id(Currency::AXIOM),
    ];
    assert_eq!(ids, vec![0, 1, 2]);
}

#[test]
fn derived_keys_are_per_parent() {
    assert_eq!(marketplace_key(), marketplace_key());
    assert_eq!(listing_key(1), listing_key(1));
    assert_ne!(listing_key(1), listing_key(2));
    assert_ne!(listing_key(1), escrow_key(1));
    assert_ne!(transaction_key(2, 1), transaction_key(1, 2));
    assert_eq!(
        escrow_key(5),
        RecordKey { tag: RecordTag::Escrow, primary: 5, secondary: 0 }
    );
}

#[test]
fn create_listing_binds_one_unfunded_escrow() {
    let (listing, escrow, assets) = listed();
    assert_eq!(listing.status, ListingStatus::Active);
    assert_eq!(listing.escrow_account, Some(escrow_key(SELLER)));
    assert_eq!(escrow.status, EscrowStatus::Active);
    assert_eq!(escrow.amount, 0);
    assert!(escrow.transaction.is_none());
    assert_eq!(assets.balance_of(SELLER_ASSETS, MINT), 0);
    assert_eq!(assets.balance_of(ESCROW_ASSETS, MINT), 1);
}

#[test]
fn create_listing_without_asset_fails() {
    let mut assets = Ledger::new();
    let r = create_listing(
        SELLER,
        MINT,
        PRICE,
        Currency::SOL,
        None,
        0,
        &mut assets,
        SELLER_ASSETS,
        ESCROW_ASSETS,
    );
    assert_eq!(r.unwrap_err(), MarketplaceError::InsufficientFunds);
    assert_eq!(assets.balance_of(ESCROW_ASSETS, MINT), 0);
}

#[test]
fn settlement_timeline_scenario() {
    // price 1000, purchase at t=0: release at t+604800, dispute deadline at
    // t+259200; completion at t+259199 is early, at t+604800 it pays the
    // seller exactly 1000 and marks the transaction Completed.
    let (_listing, mut escrow, mut txn, mut funds, _assets) = purchased();
    assert_eq!(ESCROW_RELEASE_WINDOW, 604800);
    assert_eq!(DISPUTE_WINDOW, 259200);
    assert_eq!(txn.escrow_release_time, 604800);
    assert_eq!(txn.dispute_deadline, 259200);
    assert_eq!(txn.amount, PRICE);
    assert_eq!(escrow.amount, PRICE);
    assert_eq!(escrow.release_time, 604800);

    let early = complete_transaction(&mut txn, &mut escrow, &mut funds, 259199, ESCROW_FUNDS, SELLER_FUNDS);
    assert_eq!(early.unwrap_err(), MarketplaceError::RefundPeriodNotElapsed);
    assert_eq!(txn.status, TransactionStatus::Pending);
    assert_eq!(funds.balance_of(SELLER_FUNDS, SOL_ID), 0);

    let done = complete_transaction(&mut txn, &mut escrow, &mut funds, 604800, ESCROW_FUNDS, SELLER_FUNDS);
    assert!(done.is_ok());
    assert_eq!(funds.balance_of(SELLER_FUNDS, SOL_ID), 1000);
    assert_eq!(funds.balance_of(ESCROW_FUNDS, SOL_ID), 0);
    assert_eq!(txn.status, TransactionStatus::Completed);
    assert_eq!(txn.completed_at, Some(604800));
    assert_eq!(escrow.status, EscrowStatus::Released);
}

#[test]
fn purchase_delivers_asset_and_escrows_funds() {
    let (listing, escrow, txn, funds, assets) = purchased();
    assert_eq!(listing.status, ListingStatus::Sold);
    assert_eq!(escrow.transaction, Some(transaction_key(BUYER, SELLER)));
    assert_eq!(txn.status, TransactionStatus::Pending);
    assert_eq!(txn.listing, listing_key(SELLER));
    assert_eq!(txn.seller, SELLER);
    assert_eq!(txn.buyer, BUYER);
    assert_eq!(funds.balance_of(BUYER_FUNDS, SOL_ID), 0);
    assert_eq!(funds.balance_of(ESCROW_FUNDS, SOL_ID), PRICE);
    assert_eq!(assets.balance_of(ESCROW_ASSETS, MINT), 0);
    assert_eq!(assets.balance_of(BUYER_ASSETS, MINT), 1);
}

#[test]
fn second_purchase_fails() {
    let (mut listing, mut escrow, _txn, mut funds, mut assets) = purchased();
    funds.credit(BUYER_FUNDS, SOL_ID, PRICE);
    let again = purchase_agent(
        &mut listing,
        &mut escrow,
        3,
        5,
        &mut funds,
        &mut assets,
        BUYER_FUNDS,
        ESCROW_FUNDS,
        ESCROW_ASSETS,
        BUYER_ASSETS,
    );
    assert_eq!(again.unwrap_err(), MarketplaceError::ListingNotActive);
    // nothing moved the second time
    assert_eq!(funds.balance_of(BUYER_FUNDS, SOL_ID), PRICE);
    assert_eq!(funds.balance_of(ESCROW_FUNDS, SOL_ID), PRICE);
}

#[test]
fn underfunded_purchase_fails_cleanly() {
    let (mut listing, mut escrow, mut assets) = listed();
    let mut funds = Ledger::new();
    funds.credit(BUYER_FUNDS, SOL_ID, PRICE - 1);
    let r = purchase_agent(
        &mut listing,
        &mut escrow,
        BUYER,
        0,
        &mut funds,
        &mut assets,
        BUYER_FUNDS,
        ESCROW_FUNDS,
        ESCROW_ASSETS,
        BUYER_ASSETS,
    );
    assert_eq!(r.unwrap_err(), MarketplaceError::InsufficientFunds);
    assert_eq!(listing.status, ListingStatus::Active);
    assert_eq!(escrow.amount, 0);
    assert_eq!(funds.balance_of(BUYER_FUNDS, SOL_ID), PRICE - 1);
}

#[test]
fn currency_reaches_seller_once_complete_then_release() {
    let (_listing, mut escrow, mut txn, mut funds, _assets) = purchased();
    complete_transaction(&mut txn, &mut escrow, &mut funds, 604800, ESCROW_FUNDS, SELLER_FUNDS)
        .expect("first settlement pays");
    let r = release_escrow(&mut escrow, &mut funds, 604800, ESCROW_FUNDS, SELLER_FUNDS);
    assert_eq!(r.unwrap_err(), MarketplaceError::InvalidEscrowState);
    assert_eq!(funds.balance_of(SELLER_FUNDS, SOL_ID), PRICE);
}

#[test]
fn currency_reaches_seller_once_release_then_complete() {
    let (_listing, mut escrow, mut txn, mut funds, _assets) = purchased();
    release_escrow(&mut escrow, &mut funds, 604800, ESCROW_FUNDS, SELLER_FUNDS)
        .expect("first settlement pays");
    assert_eq!(escrow.status, EscrowStatus::Released);
    let r = complete_transaction(&mut txn, &mut escrow, &mut funds, 604800, ESCROW_FUNDS, SELLER_FUNDS);
    assert_eq!(r.unwrap_err(), MarketplaceError::InvalidEscrowState);
    assert_eq!(txn.status, TransactionStatus::Pending);
    assert_eq!(funds.balance_of(SELLER_FUNDS, SOL_ID), PRICE);
}

#[test]
fn release_before_window_fails() {
    let (_listing, mut escrow, _txn, mut funds, _assets) = purchased();
    let r = release_escrow(&mut escrow, &mut funds, 604799, ESCROW_FUNDS, SELLER_FUNDS);
    assert_eq!(r.unwrap_err(), MarketplaceError::RefundPeriodNotElapsed);
    assert_eq!(escrow.status, EscrowStatus::Active);
}

#[test]
fn cancel_returns_asset_exactly_once() {
    let (mut listing, _escrow, mut assets) = listed();
    cancel_listing(&mut listing, &mut assets, ESCROW_ASSETS, SELLER_ASSETS)
        .expect("listing is active");
    assert_eq!(listing.status, ListingStatus::Delisted);
    assert_eq!(assets.balance_of(SELLER_ASSETS, MINT), 1);
    assert_eq!(assets.balance_of(ESCROW_ASSETS, MINT), 0);

    let again = cancel_listing(&mut listing, &mut assets, ESCROW_ASSETS, SELLER_ASSETS);
    assert_eq!(again.unwrap_err(), MarketplaceError::ListingNotActive);
    assert_eq!(assets.balance_of(SELLER_ASSETS, MINT), 1);
    assert_eq!(assets.balance_of(ESCROW_ASSETS, MINT), 0);
}

#[test]
fn cancel_after_purchase_fails() {
    let (mut listing, _escrow, _txn, _funds, mut assets) = purchased();
    let r = cancel_listing(&mut listing, &mut assets, ESCROW_ASSETS, SELLER_ASSETS);
    assert_eq!(r.unwrap_err(), MarketplaceError::ListingNotActive);
}

#[test]
fn dispute_on_pending_transaction_fails() {
    // the ordering tension: at t+300000 the transaction is still Pending
    // (release only opens at t+604800), so filing fails on the status
    // precondition rather than the deadline.
    let (_listing, _escrow, mut txn, _funds, _assets) = purchased();
    let r = file_dispute(&mut txn, BUYER, String::from("asset defective"), 300000);
    assert_eq!(r.unwrap_err(), MarketplaceError::TransactionAlreadyCompleted);
    assert_eq!(txn.status, TransactionStatus::Pending);
}

#[test]
fn dispute_filed_within_window() {
    let (_listing, _escrow, mut txn, _funds, _assets) = purchased();
    txn.status = TransactionStatus::Completed;
    let d = file_dispute(&mut txn, BUYER, String::from("asset defective"), 259200)
        .expect("within the window");
    assert_eq!(d.status, DisputeStatus::Filed);
    assert_eq!(d.transaction, transaction_key(BUYER, SELLER));
    assert_eq!(d.complainant, BUYER);
    assert_eq!(d.respondent, SELLER);
    assert_eq!(d.reason, "asset defective");
    assert_eq!(d.created_at, 259200);
    assert!(d.resolved_at.is_none());
    assert!(d.resolution.is_none());
    assert_eq!(txn.status, TransactionStatus::Disputed);
}

#[test]
fn dispute_after_deadline_fails() {
    let (_listing, _escrow, mut txn, _funds, _assets) = purchased();
    txn.status = TransactionStatus::Completed;
    let r = file_dispute(&mut txn, BUYER, String::from("too late"), 259201);
    assert_eq!(r.unwrap_err(), MarketplaceError::InvalidDisputeStatus);
    assert_eq!(txn.status, TransactionStatus::Completed);
}

fn under_review(txn: &Transaction) -> Dispute {
    Dispute {
        transaction: transaction_key(txn.buyer, txn.seller),
        complainant: txn.buyer,
        respondent: txn.seller,
        reason: String::from("asset defective"),
        status: DisputeStatus::UnderReview,
        created_at: 259200,
        resolved_at: None,
        resolution: None,
    }
}

#[test]
fn resolution_for_complainant_refunds_from_escrow() {
    let (_listing, mut escrow, mut txn, mut funds, _assets) = purchased();
    txn.status = TransactionStatus::Disputed;
    let mut d = under_review(&txn);
    let buyer_before = funds.balance_of(BUYER_FUNDS, SOL_ID);
    resolve_dispute(
        &mut d,
        &mut txn,
        &mut escrow,
        &mut funds,
        String::from("refund the buyer"),
        true,
        300000,
        ESCROW_FUNDS,
        SELLER_FUNDS,
        BUYER_FUNDS,
    )
    .expect("escrow still holds the funds");
    assert_eq!(funds.balance_of(BUYER_FUNDS, SOL_ID), buyer_before + PRICE);
    assert_eq!(funds.balance_of(ESCROW_FUNDS, SOL_ID), 0);
    assert_eq!(escrow.status, EscrowStatus::Refunded);
    assert_eq!(txn.status, TransactionStatus::Refunded);
    assert_eq!(txn.completed_at, Some(300000));
    assert_eq!(d.status, DisputeStatus::Resolved);
    assert_eq!(d.resolved_at, Some(300000));
    assert_eq!(d.resolution.as_deref(), Some("refund the buyer"));
}

#[test]
fn resolution_for_complainant_refunds_from_seller_after_release() {
    let (_listing, mut escrow, mut txn, mut funds, _assets) = purchased();
    complete_transaction(&mut txn, &mut escrow, &mut funds, 604800, ESCROW_FUNDS, SELLER_FUNDS)
        .expect("settles");
    txn.status = TransactionStatus::Disputed;
    let mut d = under_review(&txn);
    resolve_dispute(
        &mut d,
        &mut txn,
        &mut escrow,
        &mut funds,
        String::from("claw back from the seller"),
        true,
        700000,
        ESCROW_FUNDS,
        SELLER_FUNDS,
        BUYER_FUNDS,
    )
    .expect("seller was paid and can compensate");
    assert_eq!(funds.balance_of(BUYER_FUNDS, SOL_ID), PRICE);
    assert_eq!(funds.balance_of(SELLER_FUNDS, SOL_ID), 0);
    assert_eq!(escrow.status, EscrowStatus::Released);
    assert_eq!(txn.status, TransactionStatus::Refunded);
}

#[test]
fn resolution_for_complainant_fails_when_seller_cannot_pay() {
    let (_listing, mut escrow, mut txn, mut funds, _assets) = purchased();
    complete_transaction(&mut txn, &mut escrow, &mut funds, 604800, ESCROW_FUNDS, SELLER_FUNDS)
        .expect("settles");
    // the seller spends the proceeds before the adjudication
    funds
        .transfer(SELLER_FUNDS, 60, SOL_ID, PRICE)
        .expect("seller moves the proceeds away");
    txn.status = TransactionStatus::Disputed;
    let mut d = under_review(&txn);
    let r = resolve_dispute(
        &mut d,
        &mut txn,
        &mut escrow,
        &mut funds,
        String::from("claw back from the seller"),
        true,
        700000,
        ESCROW_FUNDS,
        SELLER_FUNDS,
        BUYER_FUNDS,
    );
    assert_eq!(r.unwrap_err(), MarketplaceError::InsufficientFunds);
    // the whole call aborted: no record was touched
    assert_eq!(d.status, DisputeStatus::UnderReview);
    assert_eq!(txn.status, TransactionStatus::Disputed);
    assert_eq!(funds.balance_of(BUYER_FUNDS, SOL_ID), 0);
}

#[test]
fn resolution_against_complainant_moves_nothing() {
    let (_listing, mut escrow, mut txn, mut funds, _assets) = purchased();
    txn.status = TransactionStatus::Disputed;
    let mut d = under_review(&txn);
    let buyer_before = funds.balance_of(BUYER_FUNDS, SOL_ID);
    let escrow_before = funds.balance_of(ESCROW_FUNDS, SOL_ID);
    resolve_dispute(
        &mut d,
        &mut txn,
        &mut escrow,
        &mut funds,
        String::from("default outcome stands"),
        false,
        300000,
        ESCROW_FUNDS,
        SELLER_FUNDS,
        BUYER_FUNDS,
    )
    .expect("no transfer is needed");
    assert_eq!(funds.balance_of(BUYER_FUNDS, SOL_ID), buyer_before);
    assert_eq!(funds.balance_of(ESCROW_FUNDS, SOL_ID), escrow_before);
    assert_eq!(escrow.status, EscrowStatus::Active);
    assert_eq!(txn.status, TransactionStatus::Completed);
    assert_eq!(d.status, DisputeStatus::Resolved);
}

#[test]
fn resolution_needs_review_status() {
    let (_listing, mut escrow, mut txn, mut funds, _assets) = purchased();
    let mut d = under_review(&txn);
    d.status = DisputeStatus::Filed;
    let r = resolve_dispute(
        &mut d,
        &mut txn,
        &mut escrow,
        &mut funds,
        String::from("not yet"),
        true,
        300000,
        ESCROW_FUNDS,
        SELLER_FUNDS,
        BUYER_FUNDS,
    );
    assert_eq!(r.unwrap_err(), MarketplaceError::InvalidDisputeStatus);
    assert_eq!(d.status, DisputeStatus::Filed);
}

#[test]
fn ledger_transfer_is_atomic() {
    let mut ledger = Ledger::new();
    ledger.credit(1, 0, 100);
    assert_eq!(
        ledger.transfer(1, 2, 0, 101).unwrap_err(),
        MarketplaceError::InsufficientFunds
    );
    assert_eq!(ledger.balance_of(1, 0), 100);
    assert_eq!(ledger.balance_of(2, 0), 0);
    ledger.transfer(1, 2, 0, 60).expect("covered");
    assert_eq!(ledger.balance_of(1, 0), 40);
    assert_eq!(ledger.balance_of(2, 0), 60);
    assert_eq!(ledger.balance_of(3, 5), 0);
}

#[test]
fn error_messages_match_their_kinds() {
    assert_eq!(MarketplaceError::Unauthorized.message(), "Unauthorized access");
    assert_eq!(MarketplaceError::InsufficientFunds.message(), "Insufficient funds");
    assert_eq!(MarketplaceError::InvalidListing.message(), "Invalid listing");
    assert_eq!(MarketplaceError::ListingNotActive.message(), "Listing not active");
    assert_eq!(
        MarketplaceError::TransactionAlreadyCompleted.message(),
        "Transaction already completed"
    );
    assert_eq!(MarketplaceError::InvalidEscrowState.message(), "Invalid escrow state");
    assert_eq!(
        MarketplaceError::RefundPeriodNotElapsed.message(),
        "Refund period not elapsed"
    );
    assert_eq!(MarketplaceError::InvalidDisputeStatus.message(), "Invalid dispute status");
}

#[test]
fn zero_transfer_from_empty_account_succeeds() {
    let mut ledger = Ledger::new();
    ledger.transfer(1, 2, 0, 0).expect("zero covers zero");
    assert_eq!(ledger.balance_of(1, 0), 0);
    assert_eq!(ledger.balance_of(2, 0), 0);
}

#[test]
fn maximum_price_settles() {
    let mut assets = Ledger::new();
    assets.credit(SELLER_ASSETS, MINT, 1);
    let (mut listing, mut escrow) = create_listing(
        SELLER,
        MINT,
        u64::MAX,
        Currency::AXIOM,
        None,
        0,
        &mut assets,
        SELLER_ASSETS,
        ESCROW_ASSETS,
    )
    .expect("seller holds the asset");
    let mut funds = Ledger::new();
    funds.credit(BUYER_FUNDS, currency_id(Currency::AXIOM), u64::MAX);
    let mut txn = purchase_agent(
        &mut listing,
        &mut escrow,
        BUYER,
        0,
        &mut funds,
        &mut assets,
        BUYER_FUNDS,
        ESCROW_FUNDS,
        ESCROW_ASSETS,
        BUYER_ASSETS,
    )
    .expect("buyer exactly covers the price");
    assert_eq!(txn.amount, u64::MAX);
    complete_transaction(&mut txn, &mut escrow, &mut funds, 604800, ESCROW_FUNDS, SELLER_FUNDS)
        .expect("window elapsed");
    assert_eq!(funds.balance_of(SELLER_FUNDS, currency_id(Currency::AXIOM)), u64::MAX);
    assert_eq!(funds.balance_of(BUYER_FUNDS, currency_id(Currency::AXIOM)), 0);
}
