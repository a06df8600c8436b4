//! Record store: the arena behind the derived-key addressing scheme.
//!
//! Every record lives at the key derived from its tag and parent
//! identifiers, so there is at most one live record per key tuple and no
//! separate directory is needed. The store's well-formedness invariant
//! carries the cross-record guarantees: each listing is stored under its
//! seller's derived key and is bound to exactly the one escrow key derived
//! from the same parent, every escrow sits at such a key, and an escrow
//! holds no currency until a transaction is bound to it. Records are never
//! removed: a status change, not deletion, retires them.

use vstd::prelude::*;

use crate::dispute;
use crate::errors::MarketplaceError;
use crate::ledger::Ledger;
use crate::listing;
use crate::model::{
    dispute_filing_allowed, dispute_key, dispute_resolution_allowed, escrow_key,
    escrow_release_allowed, listing_cancel_allowed, listing_key, listing_purchase_allowed,
    spec_currency_id, spec_dispute_key, spec_escrow_key, spec_listing_key, spec_transaction_key,
    transaction_completion_allowed, transaction_key, AgentListing, Currency, Dispute,
    DisputeStatus, Escrow, EscrowStatus, ListingStatus, Marketplace, RecordKey, Transaction,
    TransactionStatus, DISPUTE_WINDOW, ESCROW_RELEASE_WINDOW,
};
use crate::settlement;

verus! {

/// No two records share a storage key.
pub open spec fn keys_unique<V>(s: Seq<(RecordKey, V)>) -> bool {
    forall|i: int, j: int| 0 <= i < j < s.len() ==> (#[trigger] s[i]).0 != (#[trigger] s[j]).0
}

/// Every listing sits at its derived key and is bound to the one escrow
/// key derived from the same parent.
pub open spec fn listings_wf(s: Seq<(RecordKey, AgentListing)>) -> bool {
    forall|i: int|
        0 <= i < s.len() ==> (#[trigger] s[i]).0 == spec_listing_key(s[i].1.seller) && s[i].1.escrow_account
            == Some(spec_escrow_key(s[i].1.seller))
}

/// Every escrow sits at a derived escrow key and holds no currency until a
/// transaction is bound to it.
pub open spec fn escrows_wf(s: Seq<(RecordKey, Escrow)>) -> bool {
    forall|i: int|
        0 <= i < s.len() ==> (#[trigger] s[i]).0 == spec_escrow_key(s[i].0.primary)
            && s[i].1.wf()
}

/// Every transaction sits at the key derived from its buyer and seller.
pub open spec fn transactions_wf(s: Seq<(RecordKey, Transaction)>) -> bool {
    forall|i: int|
        0 <= i < s.len() ==> (#[trigger] s[i]).0 == spec_transaction_key(
            s[i].1.buyer,
            s[i].1.seller,
        )
}

/// Some record is stored at `key`.
pub open spec fn has_key<V>(s: Seq<(RecordKey, V)>, key: RecordKey) -> bool {
    exists|i: int| 0 <= i < s.len() && (#[trigger] s[i]).0 == key
}

/// The record stored at `key`; meaningful only where `has_key` holds and
/// the keys are unique.
pub open spec fn record_at<V>(s: Seq<(RecordKey, V)>, key: RecordKey) -> V {
    s[choose|i: int| 0 <= i < s.len() && (#[trigger] s[i]).0 == key].1
}

proof fn lemma_found_record<V>(s: Seq<(RecordKey, V)>, i: int)
    requires
        keys_unique(s),
        0 <= i < s.len(),
    ensures
        has_key(s, s[i].0),
        record_at(s, s[i].0) == s[i].1,
{
    let j = choose|j: int| 0 <= j < s.len() && (#[trigger] s[j]).0 == s[i].0;
    assert(s[j].0 == s[i].0);
    assert(j == i);
}

proof fn lemma_update_record<V>(s: Seq<(RecordKey, V)>, i: int, v: V)
    requires
        keys_unique(s),
        0 <= i < s.len(),
    ensures
        keys_unique(s.update(i, (s[i].0, v))),
        has_key(s.update(i, (s[i].0, v)), s[i].0),
        record_at(s.update(i, (s[i].0, v)), s[i].0) == v,
        forall|k: RecordKey| #[trigger] has_key(s.update(i, (s[i].0, v)), k) <==> has_key(s, k),
        forall|k: RecordKey|
            k != s[i].0 && has_key(s, k) ==> #[trigger] record_at(s.update(i, (s[i].0, v)), k)
                == record_at(s, k),
{
    let t = s.update(i, (s[i].0, v));
    assert(t[i].0 == s[i].0);
    lemma_found_record(t, i);
    assert forall|k: RecordKey| #[trigger] has_key(t, k) <==> has_key(s, k) by {
        if has_key(t, k) {
            let j = choose|j: int| 0 <= j < t.len() && (#[trigger] t[j]).0 == k;
            assert(s[j].0 == k);
        }
        if has_key(s, k) {
            let j = choose|j: int| 0 <= j < s.len() && (#[trigger] s[j]).0 == k;
            assert(t[j].0 == k);
        }
    }
    assert forall|k: RecordKey| k != s[i].0 && has_key(s, k) implies #[trigger] record_at(t, k)
        == record_at(s, k) by {
        let j = choose|j: int| 0 <= j < s.len() && (#[trigger] s[j]).0 == k;
        assert(j != i);
        assert(t[j].0 == k);
        let j2 = choose|j2: int| 0 <= j2 < t.len() && (#[trigger] t[j2]).0 == k;
        assert(j2 != i);
        assert(s[j2].0 == k);
        assert(j2 == j);
    }
}

proof fn lemma_push_record<V>(s: Seq<(RecordKey, V)>, key: RecordKey, v: V)
    requires
        keys_unique(s),
        !has_key(s, key),
    ensures
        keys_unique(s.push((key, v))),
        has_key(s.push((key, v)), key),
        record_at(s.push((key, v)), key) == v,
        forall|k: RecordKey|
            k != key ==> (#[trigger] has_key(s.push((key, v)), k) <==> has_key(s, k)),
        forall|k: RecordKey|
            k != key && has_key(s, k) ==> #[trigger] record_at(s.push((key, v)), k) == record_at(
                s,
                k,
            ),
{
    let t = s.push((key, v));
    assert forall|i: int, j: int| 0 <= i < j < t.len() implies (#[trigger] t[i]).0 != (
    #[trigger] t[j]).0 by {
        if j == s.len() {
            assert(t[i] == s[i]);
            assert(!(s[i].0 == key));
        } else {
            assert(t[i] == s[i] && t[j] == s[j]);
        }
    }
    assert(t[s.len() as int].0 == key);
    lemma_found_record(t, s.len() as int);
    assert forall|k: RecordKey| k != key implies (#[trigger] has_key(t, k) <==> has_key(s, k)) by {
        if has_key(t, k) {
            let j = choose|j: int| 0 <= j < t.len() && (#[trigger] t[j]).0 == k;
            assert(j != s.len());
            assert(s[j].0 == k);
        }
        if has_key(s, k) {
            let j = choose|j: int| 0 <= j < s.len() && (#[trigger] s[j]).0 == k;
            assert(t[j].0 == k);
        }
    }
    assert forall|k: RecordKey| k != key && has_key(s, k) implies #[trigger] record_at(t, k)
        == record_at(s, k) by {
        let j = choose|j: int| 0 <= j < s.len() && (#[trigger] s[j]).0 == k;
        assert(t[j].0 == k);
        let j2 = choose|j2: int| 0 <= j2 < t.len() && (#[trigger] t[j2]).0 == k;
        assert(j2 != s.len());
        assert(s[j2].0 == k);
        assert(j2 == j);
    }
}

/// Arena of all marketplace records plus the two custody ledgers.
pub struct MarketStore {
    pub marketplace: Marketplace,
    pub listings: Vec<(RecordKey, AgentListing)>,
    pub escrows: Vec<(RecordKey, Escrow)>,
    pub transactions: Vec<(RecordKey, Transaction)>,
    pub disputes: Vec<(RecordKey, Dispute)>,
    /// Settlement currency custody, keyed by (account, currency id).
    pub funds: Ledger,
    /// Tradable asset custody, keyed by (account, asset id).
    pub assets: Ledger,
}

impl MarketStore {
    pub open spec fn wf(self) -> bool {
        &&& self.funds.wf()
        &&& self.assets.wf()
        &&& keys_unique(self.listings@)
        &&& keys_unique(self.escrows@)
        &&& keys_unique(self.transactions@)
        &&& keys_unique(self.disputes@)
        &&& listings_wf(self.listings@)
        &&& escrows_wf(self.escrows@)
        &&& transactions_wf(self.transactions@)
    }

    /// Empty marketplace under the given authority: no records, no custody
    /// balances.
    pub fn new(authority: u64) -> (r: MarketStore)
        ensures
            r.wf(),
            r.marketplace == (Marketplace { authority }),
            r.listings@.len() == 0,
            r.escrows@.len() == 0,
            r.transactions@.len() == 0,
            r.disputes@.len() == 0,
            forall|a: u64, t: u64| r.funds.spec_balance(a, t) == 0,
            forall|a: u64, t: u64| r.assets.spec_balance(a, t) == 0,
    {
        MarketStore {
            marketplace: listing::initialize_marketplace(authority),
            listings: Vec::new(),
            escrows: Vec::new(),
            transactions: Vec::new(),
            disputes: Vec::new(),
            funds: Ledger::new(),
            assets: Ledger::new(),
        }
    }

    /// Create a listing and its paired escrow at their derived keys, and
    /// move the listed asset from the seller's custody into escrow custody.
    ///
    /// Fails with `InvalidListing` when either derived key is already
    /// occupied (records are never removed, so a seller lists at most
    /// once), and with `InsufficientFunds` when the seller's custody does
    /// not hold the asset; every failure writes nothing.
    pub fn create_listing(
        &mut self,
        seller: u64,
        mint: u64,
        price: u64,
        currency: Currency,
        rent_price: Option<u64>,
        now: i64,
        seller_asset_account: u64,
        escrow_asset_account: u64,
    ) -> (r: Result<(), MarketplaceError>)
        requires
            old(self).wf(),
            seller_asset_account != escrow_asset_account,
            old(self).assets.spec_balance(escrow_asset_account, mint) + 1 <= u64::MAX,
        ensures
            final(self).wf(),
            final(self).marketplace == old(self).marketplace,
            final(self).transactions@ == old(self).transactions@,
            final(self).disputes@ == old(self).disputes@,
            final(self).funds.entries@ == old(self).funds.entries@,
            has_key(old(self).listings@, spec_listing_key(seller)) || has_key(
                old(self).escrows@,
                spec_escrow_key(seller),
            ) ==> r == Err::<(), MarketplaceError>(MarketplaceError::InvalidListing),
            !has_key(old(self).listings@, spec_listing_key(seller)) && !has_key(
                old(self).escrows@,
                spec_escrow_key(seller),
            ) ==> {
                &&& r is Ok <==> old(self).assets.spec_balance(seller_asset_account, mint) >= 1
                &&& (r is Err ==> r == Err::<(), MarketplaceError>(
                    MarketplaceError::InsufficientFunds,
                ))
            },
            r is Err ==> final(self).listings@ == old(self).listings@ && final(self).escrows@
                == old(self).escrows@ && final(self).assets.entries@ == old(self).assets.entries@,
            r is Ok ==> {
                &&& final(self).listings@ == old(self).listings@.push(
                    (
                        spec_listing_key(seller),
                        (AgentListing {
                            seller,
                            mint,
                            price,
                            rent_price,
                            currency,
                            status: ListingStatus::Active,
                            created_at: now,
                            escrow_account: Some(spec_escrow_key(seller)),
                        }),
                    ),
                )
                &&& final(self).escrows@ == old(self).escrows@.push(
                    (
                        spec_escrow_key(seller),
                        (Escrow {
                            transaction: None,
                            amount: 0,
                            currency,
                            status: EscrowStatus::Active,
                            release_time: 0,
                        }),
                    ),
                )
                &&& final(self).assets.spec_balance(seller_asset_account, mint) == old(self).assets.spec_balance(seller_asset_account, mint) - 1
                &&& final(self).assets.spec_balance(escrow_asset_account, mint) == old(self).assets.spec_balance(escrow_asset_account, mint) + 1
                &&& forall|a: u64, t: u64|
                    !(a == seller_asset_account && t == mint) && !(a == escrow_asset_account && t
                        == mint) ==> #[trigger] final(self).assets.spec_balance(a, t) == old(self).assets.spec_balance(a, t)
            },
    {
        let lkey = listing_key(seller);
        match find_record(&self.listings, lkey) {
            Some(i) => {
                proof {
                    lemma_found_record(self.listings@, i as int);
                }
                return Err(MarketplaceError::InvalidListing);
            },
            None => {},
        }
        let ekey = escrow_key(seller);
        match find_record(&self.escrows, ekey) {
            Some(i) => {
                proof {
                    lemma_found_record(self.escrows@, i as int);
                }
                return Err(MarketplaceError::InvalidListing);
            },
            None => {},
        }
        match listing::create_listing(
            seller,
            mint,
            price,
            currency,
            rent_price,
            now,
            &mut self.assets,
            seller_asset_account,
            escrow_asset_account,
        ) {
            Err(e) => Err(e),
            Ok(created) => {
                proof {
                    lemma_push_record(self.listings@, spec_listing_key(seller), created.0);
                    lemma_push_record(self.escrows@, spec_escrow_key(seller), created.1);
                }
                self.listings.push((lkey, created.0));
                self.escrows.push((ekey, created.1));
                Ok(())
            },
        }
    }

    /// Take the seller's Active listing off the market and return the held
    /// asset from escrow custody to the seller.
    ///
    /// Fails with `InvalidListing` when no listing or escrow exists at the
    /// derived keys, with `ListingNotActive` when the listing has left
    /// Active (a second cancellation, or a purchase that won the race), and
    /// with `InsufficientFunds` when escrow custody does not hold the
    /// asset; every failure writes nothing, so the asset is returned
    /// exactly once.
    pub fn cancel_listing(
        &mut self,
        seller: u64,
        escrow_asset_account: u64,
        seller_asset_account: u64,
    ) -> (r: Result<(), MarketplaceError>)
        requires
            old(self).wf(),
            escrow_asset_account != seller_asset_account,
            has_key(old(self).listings@, spec_listing_key(seller)) ==> old(self).assets.spec_balance(
                seller_asset_account,
                record_at(old(self).listings@, spec_listing_key(seller)).mint,
            ) + 1 <= u64::MAX,
        ensures
            final(self).wf(),
            final(self).marketplace == old(self).marketplace,
            final(self).escrows@ == old(self).escrows@,
            final(self).transactions@ == old(self).transactions@,
            final(self).disputes@ == old(self).disputes@,
            final(self).funds.entries@ == old(self).funds.entries@,
            !has_key(old(self).listings@, spec_listing_key(seller)) ==> r == Err::<
                (),
                MarketplaceError,
            >(MarketplaceError::InvalidListing),
            has_key(old(self).listings@, spec_listing_key(seller)) ==> {
                let before = record_at(old(self).listings@, spec_listing_key(seller));
                &&& (!listing_cancel_allowed(before) ==> r == Err::<(), MarketplaceError>(
                    MarketplaceError::ListingNotActive,
                ))
                &&& (listing_cancel_allowed(before) ==> (r is Ok <==> old(self).assets.spec_balance(escrow_asset_account, before.mint) >= 1))
                &&& (listing_cancel_allowed(before) && r is Err ==> r == Err::<
                    (),
                    MarketplaceError,
                >(MarketplaceError::InsufficientFunds))
                &&& (r is Ok ==> {
                    &&& has_key(final(self).listings@, spec_listing_key(seller))
                    &&& record_at(final(self).listings@, spec_listing_key(seller))
                        == (AgentListing { status: ListingStatus::Delisted, ..before })
                    &&& final(self).listings@.len() == old(self).listings@.len()
                    &&& forall|k: RecordKey|
                        #[trigger] has_key(final(self).listings@, k) <==> has_key(
                            old(self).listings@,
                            k,
                        )
                    &&& forall|k: RecordKey|
                        k != spec_listing_key(seller) && has_key(old(self).listings@, k)
                            ==> #[trigger] record_at(final(self).listings@, k) == record_at(
                            old(self).listings@,
                            k,
                        )
                    &&& final(self).assets.spec_balance(escrow_asset_account, before.mint) == old(self).assets.spec_balance(escrow_asset_account, before.mint) - 1
                    &&& final(self).assets.spec_balance(seller_asset_account, before.mint) == old(self).assets.spec_balance(seller_asset_account, before.mint) + 1
                    &&& forall|a: u64, t: u64|
                        !(a == escrow_asset_account && t == before.mint) && !(a
                            == seller_asset_account && t == before.mint) ==> #[trigger] final(self).assets.spec_balance(a, t) == old(self).assets.spec_balance(a, t)
                })
            },
            r is Err ==> final(self).listings@ == old(self).listings@ && final(self).assets.entries@ == old(self).assets.entries@,
    {
        let lkey = listing_key(seller);
        let li = match find_record(&self.listings, lkey) {
            Some(i) => i,
            None => {
                return Err(MarketplaceError::InvalidListing);
            },
        };
        proof {
            lemma_found_record(self.listings@, li as int);
        }
        let mut rec = self.listings[li].1;
        let res = listing::cancel_listing(
            &mut rec,
            &mut self.assets,
            escrow_asset_account,
            seller_asset_account,
        );
        match res {
            Err(e) => Err(e),
            Ok(()) => {
                proof {
                    lemma_update_record(self.listings@, li as int, rec);
                }
                self.listings[li] = (lkey, rec);
                Ok(())
            },
        }
    }

    /// Buy the seller's listing: open a Pending transaction at its derived
    /// key, rebind the escrow, move the settlement currency from the buyer
    /// into escrow custody and deliver the asset to the buyer at once.
    ///
    /// Fails with `InvalidListing` when the listing or its escrow is
    /// missing or the transaction key is already occupied, with
    /// `ListingNotActive` when the listing has left Active, and with
    /// `InsufficientFunds` when the buyer cannot pay or escrow custody does
    /// not hold the asset; every failure writes nothing.
    pub fn purchase_agent(
        &mut self,
        seller: u64,
        buyer: u64,
        now: i64,
        buyer_funds_account: u64,
        escrow_funds_account: u64,
        escrow_asset_account: u64,
        buyer_asset_account: u64,
    ) -> (r: Result<(), MarketplaceError>)
        requires
            old(self).wf(),
            buyer_funds_account != escrow_funds_account,
            escrow_asset_account != buyer_asset_account,
            now <= i64::MAX - ESCROW_RELEASE_WINDOW,
            has_key(old(self).listings@, spec_listing_key(seller)) ==> {
                let before = record_at(old(self).listings@, spec_listing_key(seller));
                &&& old(self).funds.spec_balance(
                    escrow_funds_account,
                    spec_currency_id(before.currency),
                ) + before.price <= u64::MAX
                &&& old(self).assets.spec_balance(buyer_asset_account, before.mint) + 1
                    <= u64::MAX
            },
        ensures
            final(self).wf(),
            final(self).marketplace == old(self).marketplace,
            final(self).disputes@ == old(self).disputes@,
            !has_key(old(self).listings@, spec_listing_key(seller)) || !has_key(
                old(self).escrows@,
                spec_escrow_key(seller),
            ) || has_key(old(self).transactions@, spec_transaction_key(buyer, seller)) ==> r
                == Err::<(), MarketplaceError>(MarketplaceError::InvalidListing),
            r is Err ==> final(self).listings@ == old(self).listings@ && final(self).escrows@
                == old(self).escrows@ && final(self).transactions@ == old(self).transactions@
                && final(self).funds.entries@ == old(self).funds.entries@ && final(self).assets.entries@ == old(self).assets.entries@,
            has_key(old(self).listings@, spec_listing_key(seller)) && has_key(
                old(self).escrows@,
                spec_escrow_key(seller),
            ) && !has_key(old(self).transactions@, spec_transaction_key(buyer, seller)) ==> {
                let before = record_at(old(self).listings@, spec_listing_key(seller));
                &&& (!listing_purchase_allowed(before) ==> r == Err::<(), MarketplaceError>(
                    MarketplaceError::ListingNotActive,
                ))
                &&& (listing_purchase_allowed(before) ==> (r is Ok <==> old(self).funds.spec_balance(buyer_funds_account, spec_currency_id(before.currency))
                    >= before.price && old(self).assets.spec_balance(
                    escrow_asset_account,
                    before.mint,
                ) >= 1))
                &&& (listing_purchase_allowed(before) && r is Err ==> r == Err::<
                    (),
                    MarketplaceError,
                >(MarketplaceError::InsufficientFunds))
                &&& (r is Ok ==> {
                    &&& record_at(final(self).listings@, spec_listing_key(seller))
                        == (AgentListing { status: ListingStatus::Sold, ..before })
                    &&& record_at(final(self).escrows@, spec_escrow_key(seller)) == (Escrow {
                        transaction: Some(spec_transaction_key(buyer, seller)),
                        amount: before.price,
                        currency: before.currency,
                        status: record_at(old(self).escrows@, spec_escrow_key(seller)).status,
                        release_time: (now + ESCROW_RELEASE_WINDOW) as i64,
                    })
                    &&& final(self).transactions@ == old(self).transactions@.push(
                        (
                            spec_transaction_key(buyer, seller),
                            (Transaction {
                                buyer,
                                seller,
                                listing: spec_listing_key(seller),
                                amount: before.price,
                                currency: before.currency,
                                status: TransactionStatus::Pending,
                                created_at: now,
                                completed_at: None,
                                escrow_release_time: (now + ESCROW_RELEASE_WINDOW) as i64,
                                dispute_deadline: (now + DISPUTE_WINDOW) as i64,
                            }),
                        ),
                    )
                    &&& final(self).funds.spec_balance(
                        buyer_funds_account,
                        spec_currency_id(before.currency),
                    ) == old(self).funds.spec_balance(
                        buyer_funds_account,
                        spec_currency_id(before.currency),
                    ) - before.price
                    &&& final(self).funds.spec_balance(
                        escrow_funds_account,
                        spec_currency_id(before.currency),
                    ) == old(self).funds.spec_balance(
                        escrow_funds_account,
                        spec_currency_id(before.currency),
                    ) + before.price
                    &&& final(self).assets.spec_balance(escrow_asset_account, before.mint) == old(self).assets.spec_balance(escrow_asset_account, before.mint) - 1
                    &&& final(self).assets.spec_balance(buyer_asset_account, before.mint) == old(self).assets.spec_balance(buyer_asset_account, before.mint) + 1
                    &&& (forall|k: RecordKey|
                        #[trigger] has_key(final(self).listings@, k) <==> has_key(
                            old(self).listings@,
                            k,
                        ))
                    &&& (forall|k: RecordKey|
                        k != spec_listing_key(seller) && has_key(old(self).listings@, k)
                            ==> #[trigger] record_at(final(self).listings@, k) == record_at(
                            old(self).listings@,
                            k,
                        ))
                    &&& (forall|k: RecordKey|
                        #[trigger] has_key(final(self).escrows@, k) <==> has_key(
                            old(self).escrows@,
                            k,
                        ))
                    &&& (forall|k: RecordKey|
                        k != spec_escrow_key(seller) && has_key(old(self).escrows@, k)
                            ==> #[trigger] record_at(final(self).escrows@, k) == record_at(
                            old(self).escrows@,
                            k,
                        ))
                    &&& (forall|a: u64, t: u64|
                        !(a == buyer_funds_account && t == spec_currency_id(before.currency))
                            && !(a == escrow_funds_account && t == spec_currency_id(
                            before.currency,
                        )) ==> #[trigger] final(self).funds.spec_balance(a, t) == old(self).funds.spec_balance(a, t))
                    &&& (forall|a: u64, t: u64|
                        !(a == escrow_asset_account && t == before.mint) && !(a
                            == buyer_asset_account && t == before.mint) ==> #[trigger] final(self).assets.spec_balance(a, t) == old(self).assets.spec_balance(a, t))
                })
            },
    {
        let lkey = listing_key(seller);
        let li = match find_record(&self.listings, lkey) {
            Some(i) => i,
            None => {
                return Err(MarketplaceError::InvalidListing);
            },
        };
        let ekey = escrow_key(seller);
        let ei = match find_record(&self.escrows, ekey) {
            Some(i) => i,
            None => {
                return Err(MarketplaceError::InvalidListing);
            },
        };
        let tkey = transaction_key(buyer, seller);
        match find_record(&self.transactions, tkey) {
            Some(i) => {
                proof {
                    lemma_found_record(self.transactions@, i as int);
                }
                return Err(MarketplaceError::InvalidListing);
            },
            None => {},
        }
        proof {
            lemma_found_record(self.listings@, li as int);
            lemma_found_record(self.escrows@, ei as int);
        }
        let mut l = self.listings[li].1;
        let mut e = self.escrows[ei].1;
        let res = settlement::purchase_agent(
            &mut l,
            &mut e,
            buyer,
            now,
            &mut self.funds,
            &mut self.assets,
            buyer_funds_account,
            escrow_funds_account,
            escrow_asset_account,
            buyer_asset_account,
        );
        match res {
            Err(err) => Err(err),
            Ok(txn) => {
                proof {
                    lemma_update_record(self.listings@, li as int, l);
                    lemma_update_record(self.escrows@, ei as int, e);
                }
                self.listings[li] = (lkey, l);
                self.escrows[ei] = (ekey, e);
                proof {
                    lemma_push_record(self.transactions@, spec_transaction_key(buyer, seller), txn);
                }
                self.transactions.push((tkey, txn));
                Ok(())
            },
        }
    }

    /// Settle the Pending transaction between `buyer` and `seller` after
    /// the lock window: mark it Completed, flip its escrow to Released and
    /// move the held currency from escrow custody to the seller.
    ///
    /// Fails with `InvalidListing` when the transaction or the escrow is
    /// missing, and otherwise exactly as the record-level settlement does;
    /// every failure writes nothing.
    pub fn complete_transaction(
        &mut self,
        buyer: u64,
        seller: u64,
        now: i64,
        escrow_funds_account: u64,
        seller_funds_account: u64,
    ) -> (r: Result<(), MarketplaceError>)
        requires
            old(self).wf(),
            escrow_funds_account != seller_funds_account,
            has_key(old(self).escrows@, spec_escrow_key(seller)) ==> {
                let held = record_at(old(self).escrows@, spec_escrow_key(seller));
                old(self).funds.spec_balance(
                    seller_funds_account,
                    spec_currency_id(held.currency),
                ) + held.amount <= u64::MAX
            },
        ensures
            final(self).wf(),
            final(self).marketplace == old(self).marketplace,
            final(self).listings@ == old(self).listings@,
            final(self).disputes@ == old(self).disputes@,
            final(self).assets.entries@ == old(self).assets.entries@,
            !has_key(old(self).transactions@, spec_transaction_key(buyer, seller)) || !has_key(
                old(self).escrows@,
                spec_escrow_key(seller),
            ) ==> r == Err::<(), MarketplaceError>(MarketplaceError::InvalidListing),
            r is Err ==> final(self).transactions@ == old(self).transactions@ && final(self).escrows@ == old(self).escrows@ && final(self).funds.entries@ == old(self).funds.entries@,
            has_key(old(self).transactions@, spec_transaction_key(buyer, seller)) && has_key(
                old(self).escrows@,
                spec_escrow_key(seller),
            ) ==> {
                let txn = record_at(old(self).transactions@, spec_transaction_key(buyer, seller));
                let held = record_at(old(self).escrows@, spec_escrow_key(seller));
                &&& (txn.status !is Pending ==> r == Err::<(), MarketplaceError>(
                    MarketplaceError::TransactionAlreadyCompleted,
                ))
                &&& (txn.status is Pending && held.status !is Active ==> r == Err::<
                    (),
                    MarketplaceError,
                >(MarketplaceError::InvalidEscrowState))
                &&& (txn.status is Pending && held.status is Active && now < held.release_time
                    ==> r == Err::<(), MarketplaceError>(MarketplaceError::RefundPeriodNotElapsed))
                &&& (transaction_completion_allowed(txn, held, now) ==> (r is Ok <==> old(self).funds.spec_balance(escrow_funds_account, spec_currency_id(held.currency))
                    >= held.amount))
                &&& (r is Ok ==> {
                    &&& record_at(final(self).transactions@, spec_transaction_key(buyer, seller))
                        == (Transaction {
                        status: TransactionStatus::Completed,
                        completed_at: Some(now),
                        ..txn
                    })
                    &&& record_at(final(self).escrows@, spec_escrow_key(seller)) == (Escrow {
                        status: EscrowStatus::Released,
                        ..held
                    })
                    &&& final(self).funds.spec_balance(
                        escrow_funds_account,
                        spec_currency_id(held.currency),
                    ) == old(self).funds.spec_balance(
                        escrow_funds_account,
                        spec_currency_id(held.currency),
                    ) - held.amount
                    &&& final(self).funds.spec_balance(
                        seller_funds_account,
                        spec_currency_id(held.currency),
                    ) == old(self).funds.spec_balance(
                        seller_funds_account,
                        spec_currency_id(held.currency),
                    ) + held.amount
                    &&& (forall|k: RecordKey|
                        #[trigger] has_key(final(self).transactions@, k) <==> has_key(
                            old(self).transactions@,
                            k,
                        ))
                    &&& (forall|k: RecordKey|
                        k != spec_transaction_key(buyer, seller) && has_key(
                            old(self).transactions@,
                            k,
                        ) ==> #[trigger] record_at(final(self).transactions@, k) == record_at(
                            old(self).transactions@,
                            k,
                        ))
                    &&& (forall|k: RecordKey|
                        #[trigger] has_key(final(self).escrows@, k) <==> has_key(
                            old(self).escrows@,
                            k,
                        ))
                    &&& (forall|k: RecordKey|
                        k != spec_escrow_key(seller) && has_key(old(self).escrows@, k)
                            ==> #[trigger] record_at(final(self).escrows@, k) == record_at(
                            old(self).escrows@,
                            k,
                        ))
                    &&& (forall|a: u64, t: u64|
                        !(a == escrow_funds_account && t == spec_currency_id(held.currency))
                            && !(a == seller_funds_account && t == spec_currency_id(
                            held.currency,
                        )) ==> #[trigger] final(self).funds.spec_balance(a, t) == old(self).funds.spec_balance(a, t))
                })
            },
    {
        let tkey = transaction_key(buyer, seller);
        let ti = match find_record(&self.transactions, tkey) {
            Some(i) => i,
            None => {
                return Err(MarketplaceError::InvalidListing);
            },
        };
        let ekey = escrow_key(seller);
        let ei = match find_record(&self.escrows, ekey) {
            Some(i) => i,
            None => {
                return Err(MarketplaceError::InvalidListing);
            },
        };
        proof {
            lemma_found_record(self.transactions@, ti as int);
            lemma_found_record(self.escrows@, ei as int);
        }
        let mut t = self.transactions[ti].1;
        let mut e = self.escrows[ei].1;
        let res = settlement::complete_transaction(
            &mut t,
            &mut e,
            &mut self.funds,
            now,
            escrow_funds_account,
            seller_funds_account,
        );
        match res {
            Err(err) => Err(err),
            Ok(()) => {
                proof {
                    lemma_update_record(self.transactions@, ti as int, t);
                    lemma_update_record(self.escrows@, ei as int, e);
                }
                self.transactions[ti] = (tkey, t);
                self.escrows[ei] = (ekey, e);
                Ok(())
            },
        }
    }

    /// Release the seller's escrow past its release time, moving the held
    /// currency from escrow custody to the seller with no transaction
    /// bookkeeping.
    ///
    /// Fails with `InvalidListing` when no escrow exists at the derived
    /// key, and otherwise exactly as the record-level release does; every
    /// failure writes nothing.
    pub fn release_escrow(
        &mut self,
        seller: u64,
        now: i64,
        escrow_funds_account: u64,
        seller_funds_account: u64,
    ) -> (r: Result<(), MarketplaceError>)
        requires
            old(self).wf(),
            escrow_funds_account != seller_funds_account,
            has_key(old(self).escrows@, spec_escrow_key(seller)) ==> {
                let held = record_at(old(self).escrows@, spec_escrow_key(seller));
                old(self).funds.spec_balance(
                    seller_funds_account,
                    spec_currency_id(held.currency),
                ) + held.amount <= u64::MAX
            },
        ensures
            final(self).wf(),
            final(self).marketplace == old(self).marketplace,
            final(self).listings@ == old(self).listings@,
            final(self).transactions@ == old(self).transactions@,
            final(self).disputes@ == old(self).disputes@,
            final(self).assets.entries@ == old(self).assets.entries@,
            !has_key(old(self).escrows@, spec_escrow_key(seller)) ==> r == Err::<
                (),
                MarketplaceError,
            >(MarketplaceError::InvalidListing),
            r is Err ==> final(self).escrows@ == old(self).escrows@ && final(self).funds.entries@
                == old(self).funds.entries@,
            has_key(old(self).escrows@, spec_escrow_key(seller)) ==> {
                let held = record_at(old(self).escrows@, spec_escrow_key(seller));
                &&& (held.status !is Active ==> r == Err::<(), MarketplaceError>(
                    MarketplaceError::InvalidEscrowState,
                ))
                &&& (held.status is Active && now < held.release_time ==> r == Err::<
                    (),
                    MarketplaceError,
                >(MarketplaceError::RefundPeriodNotElapsed))
                &&& (escrow_release_allowed(held, now) ==> (r is Ok <==> old(self).funds.spec_balance(escrow_funds_account, spec_currency_id(held.currency))
                    >= held.amount))
                &&& (r is Ok ==> {
                    &&& record_at(final(self).escrows@, spec_escrow_key(seller)) == (Escrow {
                        status: EscrowStatus::Released,
                        ..held
                    })
                    &&& final(self).funds.spec_balance(
                        escrow_funds_account,
                        spec_currency_id(held.currency),
                    ) == old(self).funds.spec_balance(
                        escrow_funds_account,
                        spec_currency_id(held.currency),
                    ) - held.amount
                    &&& final(self).funds.spec_balance(
                        seller_funds_account,
                        spec_currency_id(held.currency),
                    ) == old(self).funds.spec_balance(
                        seller_funds_account,
                        spec_currency_id(held.currency),
                    ) + held.amount
                    &&& (forall|k: RecordKey|
                        #[trigger] has_key(final(self).escrows@, k) <==> has_key(
                            old(self).escrows@,
                            k,
                        ))
                    &&& (forall|k: RecordKey|
                        k != spec_escrow_key(seller) && has_key(old(self).escrows@, k)
                            ==> #[trigger] record_at(final(self).escrows@, k) == record_at(
                            old(self).escrows@,
                            k,
                        ))
                    &&& (forall|a: u64, t: u64|
                        !(a == escrow_funds_account && t == spec_currency_id(held.currency))
                            && !(a == seller_funds_account && t == spec_currency_id(
                            held.currency,
                        )) ==> #[trigger] final(self).funds.spec_balance(a, t) == old(self).funds.spec_balance(a, t))
                })
            },
    {
        let ekey = escrow_key(seller);
        let ei = match find_record(&self.escrows, ekey) {
            Some(i) => i,
            None => {
                return Err(MarketplaceError::InvalidListing);
            },
        };
        proof {
            lemma_found_record(self.escrows@, ei as int);
        }
        let mut e = self.escrows[ei].1;
        let res = settlement::release_escrow(
            &mut e,
            &mut self.funds,
            now,
            escrow_funds_account,
            seller_funds_account,
        );
        match res {
            Err(err) => Err(err),
            Ok(()) => {
                proof {
                    lemma_update_record(self.escrows@, ei as int, e);
                }
                self.escrows[ei] = (ekey, e);
                Ok(())
            },
        }
    }

    /// File a dispute at its derived key against the Completed transaction
    /// between `buyer` and `seller`, marking the transaction Disputed.
    ///
    /// Fails with `InvalidListing` when the transaction is missing or the
    /// dispute key is already occupied, and otherwise exactly as the
    /// record-level filing does; every failure writes nothing.
    pub fn file_dispute(
        &mut self,
        buyer: u64,
        seller: u64,
        complainant: u64,
        reason: String,
        now: i64,
    ) -> (r: Result<(), MarketplaceError>)
        requires
            old(self).wf(),
        ensures
            final(self).wf(),
            final(self).marketplace == old(self).marketplace,
            final(self).listings@ == old(self).listings@,
            final(self).escrows@ == old(self).escrows@,
            final(self).funds.entries@ == old(self).funds.entries@,
            final(self).assets.entries@ == old(self).assets.entries@,
            !has_key(old(self).transactions@, spec_transaction_key(buyer, seller)) || has_key(
                old(self).disputes@,
                spec_dispute_key(buyer, seller),
            ) ==> r == Err::<(), MarketplaceError>(MarketplaceError::InvalidListing),
            r is Err ==> final(self).transactions@ == old(self).transactions@ && final(self).disputes@ == old(self).disputes@,
            has_key(old(self).transactions@, spec_transaction_key(buyer, seller)) && !has_key(
                old(self).disputes@,
                spec_dispute_key(buyer, seller),
            ) ==> {
                let txn = record_at(old(self).transactions@, spec_transaction_key(buyer, seller));
                &&& (txn.status !is Completed ==> r == Err::<(), MarketplaceError>(
                    MarketplaceError::TransactionAlreadyCompleted,
                ))
                &&& (txn.status is Completed && now > txn.dispute_deadline ==> r == Err::<
                    (),
                    MarketplaceError,
                >(MarketplaceError::InvalidDisputeStatus))
                &&& (r is Ok <==> dispute_filing_allowed(txn, now))
                &&& (r is Ok ==> {
                    &&& record_at(final(self).transactions@, spec_transaction_key(buyer, seller))
                        == (Transaction { status: TransactionStatus::Disputed, ..txn })
                    &&& final(self).disputes@ == old(self).disputes@.push(
                        (
                            spec_dispute_key(buyer, seller),
                            (Dispute {
                                transaction: spec_transaction_key(buyer, seller),
                                complainant,
                                respondent: txn.seller,
                                reason: reason,
                                status: DisputeStatus::Filed,
                                created_at: now,
                                resolved_at: None,
                                resolution: None,
                            }),
                        ),
                    )
                    &&& (forall|k: RecordKey|
                        #[trigger] has_key(final(self).transactions@, k) <==> has_key(
                            old(self).transactions@,
                            k,
                        ))
                    &&& (forall|k: RecordKey|
                        k != spec_transaction_key(buyer, seller) && has_key(
                            old(self).transactions@,
                            k,
                        ) ==> #[trigger] record_at(final(self).transactions@, k) == record_at(
                            old(self).transactions@,
                            k,
                        ))
                })
            },
    {
        let tkey = transaction_key(buyer, seller);
        let ti = match find_record(&self.transactions, tkey) {
            Some(i) => i,
            None => {
                return Err(MarketplaceError::InvalidListing);
            },
        };
        let dkey = dispute_key(buyer, seller);
        match find_record(&self.disputes, dkey) {
            Some(i) => {
                proof {
                    lemma_found_record(self.disputes@, i as int);
                }
                return Err(MarketplaceError::InvalidListing);
            },
            None => {},
        }
        proof {
            lemma_found_record(self.transactions@, ti as int);
        }
        let mut t = self.transactions[ti].1;
        let res = dispute::file_dispute(&mut t, complainant, reason, now);
        match res {
            Err(err) => Err(err),
            Ok(filed) => {
                proof {
                    lemma_update_record(self.transactions@, ti as int, t);
                    lemma_push_record(self.disputes@, spec_dispute_key(buyer, seller), filed);
                }
                self.transactions[ti] = (tkey, t);
                self.disputes.push((dkey, filed));
                Ok(())
            },
        }
    }

    /// Adjudicate the dispute between `buyer` and `seller` with a binary
    /// outcome, moving the disputed amount back to the buyer when the
    /// complainant prevails.
    ///
    /// Fails with `InvalidListing` when the dispute, the transaction or the
    /// escrow is missing, and otherwise exactly as the record-level
    /// adjudication does; every failure writes nothing.
    pub fn resolve_dispute(
        &mut self,
        buyer: u64,
        seller: u64,
        resolution: String,
        favor_complainant: bool,
        now: i64,
        escrow_funds_account: u64,
        seller_funds_account: u64,
        buyer_funds_account: u64,
    ) -> (r: Result<(), MarketplaceError>)
        requires
            old(self).wf(),
            escrow_funds_account != buyer_funds_account,
            seller_funds_account != buyer_funds_account,
            has_key(old(self).transactions@, spec_transaction_key(buyer, seller)) ==> {
                let txn = record_at(old(self).transactions@, spec_transaction_key(buyer, seller));
                old(self).funds.spec_balance(
                    buyer_funds_account,
                    spec_currency_id(txn.currency),
                ) + txn.amount <= u64::MAX
            },
        ensures
            final(self).wf(),
            final(self).marketplace == old(self).marketplace,
            final(self).listings@ == old(self).listings@,
            final(self).assets.entries@ == old(self).assets.entries@,
            !has_key(old(self).disputes@, spec_dispute_key(buyer, seller)) || !has_key(
                old(self).transactions@,
                spec_transaction_key(buyer, seller),
            ) || !has_key(old(self).escrows@, spec_escrow_key(seller)) ==> r == Err::<
                (),
                MarketplaceError,
            >(MarketplaceError::InvalidListing),
            r is Err ==> final(self).disputes@ == old(self).disputes@ && final(self).transactions@ == old(self).transactions@ && final(self).escrows@ == old(self).escrows@ && final(self).funds.entries@ == old(self).funds.entries@,
            has_key(old(self).disputes@, spec_dispute_key(buyer, seller)) && has_key(
                old(self).transactions@,
                spec_transaction_key(buyer, seller),
            ) && has_key(old(self).escrows@, spec_escrow_key(seller)) ==> {
                let d = record_at(old(self).disputes@, spec_dispute_key(buyer, seller));
                let txn = record_at(old(self).transactions@, spec_transaction_key(buyer, seller));
                let held = record_at(old(self).escrows@, spec_escrow_key(seller));
                &&& (!dispute_resolution_allowed(d) ==> r == Err::<(), MarketplaceError>(
                    MarketplaceError::InvalidDisputeStatus,
                ))
                &&& (dispute_resolution_allowed(d) ==> (r is Ok <==> !favor_complainant || old(self).funds.spec_balance(
                    if held.status is Active {
                        escrow_funds_account
                    } else {
                        seller_funds_account
                    },
                    spec_currency_id(txn.currency),
                ) >= txn.amount))
                &&& (r is Ok ==> record_at(final(self).disputes@, spec_dispute_key(buyer, seller))
                    == (Dispute {
                    status: DisputeStatus::Resolved,
                    resolved_at: Some(now),
                    resolution: Some(resolution),
                    ..d
                }))
                &&& (r is Ok && favor_complainant ==> {
                    &&& record_at(final(self).transactions@, spec_transaction_key(buyer, seller))
                        == (Transaction {
                        status: TransactionStatus::Refunded,
                        completed_at: Some(now),
                        ..txn
                    })
                    &&& final(self).funds.spec_balance(
                        buyer_funds_account,
                        spec_currency_id(txn.currency),
                    ) == old(self).funds.spec_balance(
                        buyer_funds_account,
                        spec_currency_id(txn.currency),
                    ) + txn.amount
                })
                &&& (r is Ok && !favor_complainant ==> {
                    &&& record_at(final(self).transactions@, spec_transaction_key(buyer, seller))
                        == (Transaction { status: TransactionStatus::Completed, ..txn })
                    &&& final(self).escrows@ == old(self).escrows@
                    &&& final(self).funds.entries@ == old(self).funds.entries@
                })
                &&& (r is Ok ==> {
                    &&& (forall|k: RecordKey|
                        #[trigger] has_key(final(self).disputes@, k) <==> has_key(
                            old(self).disputes@,
                            k,
                        ))
                    &&& (forall|k: RecordKey|
                        k != spec_dispute_key(buyer, seller) && has_key(old(self).disputes@, k)
                            ==> #[trigger] record_at(final(self).disputes@, k) == record_at(
                            old(self).disputes@,
                            k,
                        ))
                    &&& (forall|k: RecordKey|
                        #[trigger] has_key(final(self).transactions@, k) <==> has_key(
                            old(self).transactions@,
                            k,
                        ))
                    &&& (forall|k: RecordKey|
                        k != spec_transaction_key(buyer, seller) && has_key(
                            old(self).transactions@,
                            k,
                        ) ==> #[trigger] record_at(final(self).transactions@, k) == record_at(
                            old(self).transactions@,
                            k,
                        ))
                    &&& (forall|k: RecordKey|
                        #[trigger] has_key(final(self).escrows@, k) <==> has_key(
                            old(self).escrows@,
                            k,
                        ))
                    &&& (forall|k: RecordKey|
                        k != spec_escrow_key(seller) && has_key(old(self).escrows@, k)
                            ==> #[trigger] record_at(final(self).escrows@, k) == record_at(
                            old(self).escrows@,
                            k,
                        ))
                    &&& (forall|a: u64, t: u64|
                        !(a == escrow_funds_account && t == spec_currency_id(txn.currency)) && !(
                        a == seller_funds_account && t == spec_currency_id(txn.currency)) && !(a
                            == buyer_funds_account && t == spec_currency_id(txn.currency))
                            ==> #[trigger] final(self).funds.spec_balance(a, t) == old(self).funds.spec_balance(a, t))
                })
            },
    {
        let dkey = dispute_key(buyer, seller);
        let di = match find_record(&self.disputes, dkey) {
            Some(i) => i,
            None => {
                return Err(MarketplaceError::InvalidListing);
            },
        };
        let tkey = transaction_key(buyer, seller);
        let ti = match find_record(&self.transactions, tkey) {
            Some(i) => i,
            None => {
                return Err(MarketplaceError::InvalidListing);
            },
        };
        let ekey = escrow_key(seller);
        let ei = match find_record(&self.escrows, ekey) {
            Some(i) => i,
            None => {
                return Err(MarketplaceError::InvalidListing);
            },
        };
        proof {
            lemma_found_record(self.disputes@, di as int);
            lemma_found_record(self.transactions@, ti as int);
            lemma_found_record(self.escrows@, ei as int);
        }
        let ghost disputes_before = self.disputes@;
        let ghost transactions_before = self.transactions@;
        let ghost escrows_before = self.escrows@;
        let res = dispute::resolve_dispute(
            &mut self.disputes[di].1,
            &mut self.transactions[ti].1,
            &mut self.escrows[ei].1,
            &mut self.funds,
            resolution,
            favor_complainant,
            now,
            escrow_funds_account,
            seller_funds_account,
            buyer_funds_account,
        );
        proof {
            lemma_update_record(disputes_before, di as int, self.disputes@[di as int].1);
            lemma_update_record(transactions_before, ti as int, self.transactions@[ti as int].1);
            lemma_update_record(escrows_before, ei as int, self.escrows@[ei as int].1);
            assert(self.disputes@ =~= disputes_before.update(
                di as int,
                (disputes_before[di as int].0, self.disputes@[di as int].1),
            ));
            assert(self.transactions@ =~= transactions_before.update(
                ti as int,
                (transactions_before[ti as int].0, self.transactions@[ti as int].1),
            ));
            assert(self.escrows@ =~= escrows_before.update(
                ei as int,
                (escrows_before[ei as int].0, self.escrows@[ei as int].1),
            ));
            if res is Err {
                assert(self.disputes@ =~= disputes_before);
                assert(self.transactions@ =~= transactions_before);
                assert(self.escrows@ =~= escrows_before);
            }
        }
        res
    }

    /// The seller's listing, if one exists at its derived key.
    pub fn get_listing(&self, seller: u64) -> (r: Option<AgentListing>)
        requires
            self.wf(),
        ensures
            match r {
                Some(l) => has_key(self.listings@, spec_listing_key(seller)) && l == record_at(
                    self.listings@,
                    spec_listing_key(seller),
                ),
                None => !has_key(self.listings@, spec_listing_key(seller)),
            },
    {
        match find_record(&self.listings, listing_key(seller)) {
            Some(i) => {
                proof {
                    lemma_found_record(self.listings@, i as int);
                }
                Some(self.listings[i].1)
            },
            None => None,
        }
    }

    /// The escrow paired with the seller's listing, if one exists.
    pub fn get_escrow(&self, seller: u64) -> (r: Option<Escrow>)
        requires
            self.wf(),
        ensures
            match r {
                Some(e) => has_key(self.escrows@, spec_escrow_key(seller)) && e == record_at(
                    self.escrows@,
                    spec_escrow_key(seller),
                ),
                None => !has_key(self.escrows@, spec_escrow_key(seller)),
            },
    {
        match find_record(&self.escrows, escrow_key(seller)) {
            Some(i) => {
                proof {
                    lemma_found_record(self.escrows@, i as int);
                }
                Some(self.escrows[i].1)
            },
            None => None,
        }
    }

    /// The transaction between `buyer` and `seller`, if one exists.
    pub fn get_transaction(&self, buyer: u64, seller: u64) -> (r: Option<Transaction>)
        requires
            self.wf(),
        ensures
            match r {
                Some(t) => has_key(self.transactions@, spec_transaction_key(buyer, seller)) && t
                    == record_at(self.transactions@, spec_transaction_key(buyer, seller)),
                None => !has_key(self.transactions@, spec_transaction_key(buyer, seller)),
            },
    {
        match find_record(&self.transactions, transaction_key(buyer, seller)) {
            Some(i) => {
                proof {
                    lemma_found_record(self.transactions@, i as int);
                }
                Some(self.transactions[i].1)
            },
            None => None,
        }
    }

    /// The dispute over the transaction between `buyer` and `seller`, if
    /// one exists.
    pub fn get_dispute(&self, buyer: u64, seller: u64) -> (r: Option<&Dispute>)
        requires
            self.wf(),
        ensures
            match r {
                Some(d) => has_key(self.disputes@, spec_dispute_key(buyer, seller)) && *d
                    == record_at(self.disputes@, spec_dispute_key(buyer, seller)),
                None => !has_key(self.disputes@, spec_dispute_key(buyer, seller)),
            },
    {
        match find_record(&self.disputes, dispute_key(buyer, seller)) {
            Some(i) => {
                proof {
                    lemma_found_record(self.disputes@, i as int);
                }
                Some(&self.disputes[i].1)
            },
            None => None,
        }
    }

    /// Custody provisioning edge: put settlement currency into an account.
    pub fn fund_currency(&mut self, account: u64, currency_asset: u64, amount: u64)
        requires
            old(self).wf(),
            old(self).funds.spec_balance(account, currency_asset) + amount <= u64::MAX,
        ensures
            final(self).wf(),
            *final(self) == (MarketStore { funds: final(self).funds, ..*old(self) }),
            final(self).funds.spec_balance(account, currency_asset) == old(self).funds.spec_balance(account, currency_asset) + amount,
            forall|a: u64, t: u64|
                !(a == account && t == currency_asset) ==> #[trigger] final(self).funds.spec_balance(a, t) == old(self).funds.spec_balance(a, t),
    {
        self.funds.credit(account, currency_asset, amount);
    }

    /// Custody provisioning edge: put units of a tradable asset into an
    /// account.
    pub fn fund_asset(&mut self, account: u64, asset: u64, amount: u64)
        requires
            old(self).wf(),
            old(self).assets.spec_balance(account, asset) + amount <= u64::MAX,
        ensures
            final(self).wf(),
            *final(self) == (MarketStore { assets: final(self).assets, ..*old(self) }),
            final(self).assets.spec_balance(account, asset) == old(self).assets.spec_balance(
                account,
                asset,
            ) + amount,
            forall|a: u64, t: u64|
                !(a == account && t == asset) ==> #[trigger] final(self).assets.spec_balance(a, t)
                    == old(self).assets.spec_balance(a, t),
    {
        self.assets.credit(account, asset, amount);
    }
}

/// Index of the record stored at `key`, if one exists.
fn find_record<V>(records: &Vec<(RecordKey, V)>, key: RecordKey) -> (r: Option<usize>)
    ensures
        match r {
            Some(i) => i < records@.len() && records@[i as int].0 == key,
            None => forall|i: int| 0 <= i < records@.len() ==> (#[trigger] records@[i]).0 != key,
        },
{
    let n = records.len();
    let mut i: usize = 0;
    while i < n
        invariant
            n == records@.len(),
            i <= n,
            forall|k: int| 0 <= k < i ==> (#[trigger] records@[k]).0 != key,
        decreases n - i,
    {
        if records[i].0 == key {
            return Some(i);
        }
        i = i + 1;
    }
    None
}

} // verus!
