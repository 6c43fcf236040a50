//! Data held on the ledger: the record itself and the accounts around it.

pub mod tweet;
