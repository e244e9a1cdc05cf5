//! Verified core of a replay-protected program upgrade that a quorum-signed
//! governance message authorises.

pub mod accounts;
pub mod address;
pub mod constants;
pub mod error;
pub mod identity;
pub mod instruction;
pub mod laws;
pub mod ledger;
pub mod message;
pub mod process;
pub mod transaction;
