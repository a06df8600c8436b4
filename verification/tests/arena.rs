//! Store-level flow: records addressed by derived keys, with the custody
//! ledgers inside the arena.

use axiom_marketplace::errors::MarketplaceError;
use axiom_marketplace::model::{
    DisputeStatus, EscrowStatus, ListingStatus, Currency, TransactionStatus,
};
use axiom_marketplace::store::MarketStore;

const SELLER: u64 = 1;
const BUYER: u64 = 2;
const MINT: u64 = 7;
const PRICE: u64 = 1000;

const SELLER_ASSETS: u64 = 10;
const ESCROW_ASSETS: u64 = 20;
const BUYER_ASSETS: u64 = 21;
const BUYER_FUNDS: u64 = 30;
const ESCROW_FUNDS: u64 = 40;
const SELLER_FUNDS: u64 = 50;

const SOL_ID: u64 = 0;

fn market_with_listing() -> MarketStore {
    let mut store = MarketStore::new(99);
    store.fund_asset(SELLER_ASSETS, MINT, 1);
    store.fund_currency(BUYER_FUNDS, SOL_ID, PRICE);
    store
        .create_listing(SELLER, MINT, PRICE, Currency::SOL, None, 0, SELLER_ASSETS, ESCROW_ASSETS)
        .expect("fresh keys and a held asset");
    store
}

#[test]
fn store_tracks_a_full_settlement() {
    let mut store = market_with_listing();
    let listing = store.get_listing(SELLER).expect("created");
    assert_eq!(listing.status, ListingStatus::Active);
    let escrow = store.get_escrow(SELLER).expect("paired");
    assert_eq!(escrow.amount, 0);
    assert!(store.get_transaction(BUYER, SELLER).is_none());

    store
        .purchase_agent(SELLER, BUYER, 0, BUYER_FUNDS, ESCROW_FUNDS, ESCROW_ASSETS, BUYER_ASSETS)
        .expect("buyer funded");
    let txn = store.get_transaction(BUYER, SELLER).expect("opened");
    assert_eq!(txn.status, TransactionStatus::Pending);
    assert_eq!(txn.escrow_release_time, 604800);
    assert_eq!(store.get_listing(SELLER).unwrap().status, ListingStatus::Sold);
    assert_eq!(store.assets.balance_of(BUYER_ASSETS, MINT), 1);

    store
        .complete_transaction(BUYER, SELLER, 604800, ESCROW_FUNDS, SELLER_FUNDS)
        .expect("window elapsed");
    assert_eq!(store.funds.balance_of(SELLER_FUNDS, SOL_ID), PRICE);
    assert_eq!(store.get_escrow(SELLER).unwrap().status, EscrowStatus::Released);
    assert_eq!(
        store.get_transaction(BUYER, SELLER).unwrap().status,
        TransactionStatus::Completed
    );

    let again = store.release_escrow(SELLER, 604800, ESCROW_FUNDS, SELLER_FUNDS);
    assert_eq!(again.unwrap_err(), MarketplaceError::InvalidEscrowState);
    assert_eq!(store.funds.balance_of(SELLER_FUNDS, SOL_ID), PRICE);
}

#[test]
fn store_rejects_a_second_listing_per_seller() {
    let mut store = market_with_listing();
    store.fund_asset(SELLER_ASSETS, 8, 1);
    let r = store.create_listing(
        SELLER,
        8,
        500,
        Currency::USDC,
        None,
        5,
        SELLER_ASSETS,
        ESCROW_ASSETS,
    );
    assert_eq!(r.unwrap_err(), MarketplaceError::InvalidListing);
    assert_eq!(store.listings.len(), 1);
    assert_eq!(store.escrows.len(), 1);
}

#[test]
fn store_rejects_settlement_without_records() {
    let mut store = MarketStore::new(99);
    let r = store.purchase_agent(SELLER, BUYER, 0, BUYER_FUNDS, ESCROW_FUNDS, ESCROW_ASSETS, BUYER_ASSETS);
    assert_eq!(r.unwrap_err(), MarketplaceError::InvalidListing);
    let r = store.complete_transaction(BUYER, SELLER, 604800, ESCROW_FUNDS, SELLER_FUNDS);
    assert_eq!(r.unwrap_err(), MarketplaceError::InvalidListing);
    let r = store.release_escrow(SELLER, 604800, ESCROW_FUNDS, SELLER_FUNDS);
    assert_eq!(r.unwrap_err(), MarketplaceError::InvalidListing);
    let r = store.file_dispute(BUYER, SELLER, BUYER, String::from("nothing here"), 0);
    assert_eq!(r.unwrap_err(), MarketplaceError::InvalidListing);
}

#[test]
fn store_cancel_then_purchase_loses() {
    let mut store = market_with_listing();
    store
        .cancel_listing(SELLER, ESCROW_ASSETS, SELLER_ASSETS)
        .expect("listing active");
    assert_eq!(store.assets.balance_of(SELLER_ASSETS, MINT), 1);
    let r = store.purchase_agent(SELLER, BUYER, 0, BUYER_FUNDS, ESCROW_FUNDS, ESCROW_ASSETS, BUYER_ASSETS);
    assert_eq!(r.unwrap_err(), MarketplaceError::ListingNotActive);
    assert_eq!(store.funds.balance_of(BUYER_FUNDS, SOL_ID), PRICE);
}

#[test]
fn store_dispute_window_tension() {
    // By the time completion is possible (t+604800) the dispute deadline
    // (t+259200) has passed, so a dispute straight after settlement is
    // rejected on the deadline.
    let mut store = market_with_listing();
    store
        .purchase_agent(SELLER, BUYER, 0, BUYER_FUNDS, ESCROW_FUNDS, ESCROW_ASSETS, BUYER_ASSETS)
        .expect("buyer funded");
    store
        .complete_transaction(BUYER, SELLER, 604800, ESCROW_FUNDS, SELLER_FUNDS)
        .expect("window elapsed");
    let r = store.file_dispute(BUYER, SELLER, BUYER, String::from("too late"), 604801);
    assert_eq!(r.unwrap_err(), MarketplaceError::InvalidDisputeStatus);
    assert!(store.get_dispute(BUYER, SELLER).is_none());
}

#[test]
fn store_dispute_filed_and_resolved_for_complainant() {
    let mut store = market_with_listing();
    store
        .purchase_agent(SELLER, BUYER, 0, BUYER_FUNDS, ESCROW_FUNDS, ESCROW_ASSETS, BUYER_ASSETS)
        .expect("buyer funded");
    // within the window only because the transaction is marked Completed by
    // hand: the store exposes the records, and this core defines no path
    // that completes before the deadline (the documented ordering tension).
    for entry in store.transactions.iter_mut() {
        entry.1.status = TransactionStatus::Completed;
    }
    store
        .file_dispute(BUYER, SELLER, BUYER, String::from("asset defective"), 259200)
        .expect("completed and within the window");
    let filed = store.get_dispute(BUYER, SELLER).expect("filed");
    assert_eq!(filed.status, DisputeStatus::Filed);
    assert_eq!(filed.respondent, SELLER);
    assert_eq!(
        store.get_transaction(BUYER, SELLER).unwrap().status,
        TransactionStatus::Disputed
    );

    // nothing in this core produces UnderReview; put the record there by
    // hand to adjudicate.
    for entry in store.disputes.iter_mut() {
        entry.1.status = DisputeStatus::UnderReview;
    }
    store
        .resolve_dispute(
            BUYER,
            SELLER,
            String::from("refund the buyer"),
            true,
            300000,
            ESCROW_FUNDS,
            SELLER_FUNDS,
            BUYER_FUNDS,
        )
        .expect("escrow still holds the funds");
    assert_eq!(store.funds.balance_of(BUYER_FUNDS, SOL_ID), PRICE);
    assert_eq!(store.get_escrow(SELLER).unwrap().status, EscrowStatus::Refunded);
    assert_eq!(
        store.get_transaction(BUYER, SELLER).unwrap().status,
        TransactionStatus::Refunded
    );
    let resolved = store.get_dispute(BUYER, SELLER).expect("still stored");
    assert_eq!(resolved.status, DisputeStatus::Resolved);
    assert_eq!(resolved.resolution.as_deref(), Some("refund the buyer"));
}
