//! A minimal treasury: a keyless pot of funds over a balance ledger.
//!
//! The pot accumulates value through voluntary donations and through
//! surplus absorbed from elsewhere in the surrounding system, and it
//! disburses value only under a privileged origin. The [`ledger`] module
//! models the balance ledger the pot sits on; the [`pot`] module holds the
//! pot's operations and their audit events; the [`laws`] module states and
//! proves the properties that hold of every sequence of operations; the
//! [`testing`] module builds the mock ledger the tests drive.

pub mod laws;
pub mod ledger;
pub mod pot;
pub mod testing;
