//! A listing-and-settlement ledger for a single collection of non-fungible tokens.
//!
//! The [`ledger`] records which tokens are for sale and at what price. The
//! [`settlement`] coordinator decides who may change it and settles a purchase:
//! the listing of a token goes only after the external [`registry`] has moved the
//! token to its buyer. The [`laws`] state what holds of every ledger and caller.

pub mod address;
pub mod error;
pub mod laws;
pub mod ledger;
pub mod registry;
pub mod settlement;
