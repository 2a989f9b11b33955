//! A collateralized-options engine: series creation against escrowed
//! collateral, early redemption, settlement-price fixing from an oracle
//! reading, and close-out. Every operation checks its preconditions and
//! returns the token-ledger calls it needs, to be applied all together.
//!
//! - `otc`: the series lifecycle, with the error conditions and effects of
//!   each operation as spec functions.
//! - `math`: lot sizes, oracle normalisation and the in-the-money payout.
//! - `ledger`: ledger calls and their effect on balances and supplies.
//! - `address`: derived addresses of records and key-less authorities.
//! - `laws`: properties that hold across operations.
//! - `oracle`, `pyth`: reading and writing price-feed data.
//! - `auction`: opening auctions and escrowing bids.

pub mod error;
pub mod key;
pub mod math;
pub mod ledger;
pub mod accounts;
pub mod context;
pub mod otc;
pub mod address;
pub mod laws;
pub mod pyth;
pub mod oracle;
pub mod auction;
