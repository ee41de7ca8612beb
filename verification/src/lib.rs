//! A collateralized minting engine.
//!
//! An account locks a quantity of a collateral currency and, in the same
//! atomic step, is credited a freshly created quantity of a synthetic token,
//! priced by a fixed conversion rate. The ledger that holds each account's
//! balances is modelled in memory; the engine validates a request, reserves
//! the required collateral, credits the token, and emits two ordered
//! notifications, or fails leaving every balance untouched.

mod laws;
mod ledger;
mod pallet;

pub use ledger::AccountBalances;
pub use ledger::Ledger;
pub use pallet::Config;
pub use pallet::Error;
pub use pallet::Event;
pub use pallet::Pallet;
