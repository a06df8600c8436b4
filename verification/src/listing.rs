//! Listing store: marketplace initialization, listing creation with its
//! paired escrow, and cancellation.

use vstd::prelude::*;

use crate::errors::MarketplaceError;
use crate::ledger::Ledger;
use crate::model::{
    escrow_key, listing_step, spec_escrow_key, AgentListing, Currency, Escrow, EscrowStatus,
    ListingStatus, Marketplace,
};
use crate::model::listing_cancel_allowed;

verus! {

/// Create the singleton registry holding the marketplace authority. The
/// authority is fixed here and no operation ever rewrites it.
pub fn initialize_marketplace(authority: u64) -> (m: Marketplace)
    ensures
        m == (Marketplace { authority }),
{
    Marketplace { authority }
}

/// Create an Active listing and its paired escrow, and move the listed
/// asset (one unit of `mint` on the asset ledger) from the seller's custody
/// into escrow custody.
///
/// Fails with `InsufficientFunds` exactly when the seller's custody does
/// not hold the asset, and then writes nothing. On success the new escrow
/// is bound to the listing's derived escrow key, holds no currency, and
/// references no transaction yet.
pub fn create_listing(
    seller: u64,
    mint: u64,
    price: u64,
    currency: Currency,
    rent_price: Option<u64>,
    now: i64,
    assets: &mut Ledger,
    seller_asset_account: u64,
    escrow_asset_account: u64,
) -> (r: Result<(AgentListing, Escrow), MarketplaceError>)
    requires
        old(assets).wf(),
        seller_asset_account != escrow_asset_account,
        old(assets).spec_balance(escrow_asset_account, mint) + 1 <= u64::MAX,
    ensures
        final(assets).wf(),
        r is Ok <==> old(assets).spec_balance(seller_asset_account, mint) >= 1,
        r is Err ==> r == Err::<(AgentListing, Escrow), MarketplaceError>(
            MarketplaceError::InsufficientFunds,
        ) && final(assets).entries@ == old(assets).entries@,
        r matches Ok(created) ==> {
            &&& created.0 == (AgentListing {
                seller,
                mint,
                price,
                rent_price,
                currency,
                status: ListingStatus::Active,
                created_at: now,
                escrow_account: Some(spec_escrow_key(seller)),
            })
            &&& created.1 == (Escrow {
                transaction: None,
                amount: 0,
                currency,
                status: EscrowStatus::Active,
                release_time: 0,
            })
            &&& created.1.wf()
            &&& final(assets).spec_balance(seller_asset_account, mint) == old(assets).spec_balance(seller_asset_account, mint) - 1
            &&& final(assets).spec_balance(escrow_asset_account, mint) == old(assets).spec_balance(escrow_asset_account, mint) + 1
            &&& forall|a: u64, t: u64|
                !(a == seller_asset_account && t == mint) && !(a == escrow_asset_account && t
                    == mint) ==> #[trigger] final(assets).spec_balance(a, t) == old(assets).spec_balance(a, t)
        },
{
    let moved = assets.transfer(seller_asset_account, escrow_asset_account, mint, 1);
    match moved {
        Err(e) => Err(e),
        Ok(()) => {
            let listing = AgentListing {
                seller,
                mint,
                price,
                rent_price,
                currency,
                status: ListingStatus::Active,
                created_at: now,
                escrow_account: Some(escrow_key(seller)),
            };
            let escrow = Escrow {
                transaction: None,
                amount: 0,
                currency,
                status: EscrowStatus::Active,
                release_time: 0,
            };
            Ok((listing, escrow))
        },
    }
}

/// Take an Active listing off the market and return the held asset from
/// escrow custody to the seller.
///
/// Fails with `ListingNotActive` when the listing has already been sold,
/// delisted or paused, and with `InsufficientFunds` when escrow custody
/// does not hold the asset; every failure writes nothing, so the asset is
/// returned exactly once over repeated calls.
pub fn cancel_listing(
    listing: &mut AgentListing,
    assets: &mut Ledger,
    escrow_asset_account: u64,
    seller_asset_account: u64,
) -> (r: Result<(), MarketplaceError>)
    requires
        old(assets).wf(),
        escrow_asset_account != seller_asset_account,
        old(assets).spec_balance(seller_asset_account, old(listing).mint) + 1 <= u64::MAX,
    ensures
        final(assets).wf(),
        listing_step(old(listing).status, final(listing).status),
        final(listing).escrow_account == old(listing).escrow_account,
        !listing_cancel_allowed(*old(listing)) ==> r == Err::<(), MarketplaceError>(
            MarketplaceError::ListingNotActive,
        ),
        listing_cancel_allowed(*old(listing)) ==> (r is Ok <==> old(assets).spec_balance(
            escrow_asset_account,
            old(listing).mint,
        ) >= 1),
        listing_cancel_allowed(*old(listing)) && r is Err ==> r == Err::<(), MarketplaceError>(
            MarketplaceError::InsufficientFunds,
        ),
        r is Err ==> *final(listing) == *old(listing) && final(assets).entries@ == old(assets).entries@,
        r is Ok ==> {
            &&& *final(listing) == (AgentListing {
                status: ListingStatus::Delisted,
                ..*old(listing)
            })
            &&& final(assets).spec_balance(escrow_asset_account, old(listing).mint) == old(assets).spec_balance(escrow_asset_account, old(listing).mint) - 1
            &&& final(assets).spec_balance(seller_asset_account, old(listing).mint) == old(assets).spec_balance(seller_asset_account, old(listing).mint) + 1
            &&& forall|a: u64, t: u64|
                !(a == escrow_asset_account && t == old(listing).mint) && !(a
                    == seller_asset_account && t == old(listing).mint) ==> #[trigger] final(assets).spec_balance(a, t) == old(assets).spec_balance(a, t)
        },
{
    if listing.status != ListingStatus::Active {
        return Err(MarketplaceError::ListingNotActive);
    }
    let moved = assets.transfer(escrow_asset_account, seller_asset_account, listing.mint, 1);
    match moved {
        Err(e) => Err(e),
        Ok(()) => {
            listing.status = ListingStatus::Delisted;
            Ok(())
        },
    }
}

} // verus!
