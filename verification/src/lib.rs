//! Bookkeeping of cross-asset payments held in escrow: validation of new
//! payments, the payment status machine, settlement of escrowed funds and a
//! whole-state model of the payment contract.

pub mod status;
pub mod error;
pub mod record;
pub mod rules;
pub mod sender_ledgers;
pub mod ledger;
pub mod laws;
