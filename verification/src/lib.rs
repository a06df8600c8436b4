//! Custodial marketplace for a uniquely identified digital asset.
//!
//! A seller lists the asset; the asset moves into escrow custody. A buyer
//! purchases it, which opens a time-locked transaction: the settlement
//! currency moves into escrow custody and the asset is delivered to the
//! buyer at once. After the lock window the held currency releases to the
//! seller, through either of two settlement entry points. Within a separate
//! window a dispute may be filed, and its resolution can flip the final
//! disposition of the funds.
//!
//! Custody balances live in explicit ledgers (one for settlement currency,
//! one for the tradable asset), so every fund movement is part of each
//! operation's contract: at-most-once release, clean failure with no
//! partial writes, and exact balance changes are all verified.

pub mod dispute;
pub mod errors;
pub mod laws;
pub mod ledger;
pub mod listing;
pub mod model;
pub mod settlement;
pub mod store;
