//! Greeting counters for a ledger of accounts: one record per user, created
//! once and then greeted, together with the rules the ledger applies before a
//! record is created or changed.

pub mod account;
pub mod address;
pub mod context;
pub mod error;
pub mod hsw;
pub mod ledger;
pub mod pubkey;
pub mod rnp;
pub mod text;
