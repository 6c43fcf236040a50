//! A verified core for a minimal on-ledger microblogging record store.
//!
//! An identified author may create a size-bounded tweet record and later
//! reclaim the storage deposit it occupied.  The core here is the record
//! lifecycle logic: exact size accounting, field-length validation, and the
//! create/delete state transitions for the single record type.  The ledger
//! substrate that persists records, checks signatures and moves deposits is a
//! host collaborator: its observable state (account balances, the storage
//! slot) and its trusted inputs (the clock reading, the deposit it charges)
//! enter each operation as explicit values, so the whole transition is
//! expressed — and proved — over plain data.

pub mod constants;
pub mod errors;
pub mod instructions;
pub mod state;
pub mod validate;

pub use instructions::delete_tweet::delete_tweet;
pub use instructions::send_tweet::send_tweet;
