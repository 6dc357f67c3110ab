//! Fee-routing vault: claims trading fees from an outside market-maker position
//! into escrow balances owned by a program-derived authority, keeps overflow-safe
//! lifetime totals, and pays held balances out under the control authority.

pub mod address;
pub mod derivation;
pub mod vault;
pub mod permissionless_interface;
pub mod laws;
