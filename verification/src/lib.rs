//! A custody-and-settlement engine for peer-to-peer sale of unique digital
//! assets. Sellers place an asset into escrow at a fixed price; buyers either
//! pay the price immediately or place separate time-bound offers; a singleton
//! configuration record governs the fee rate and an emergency pause.
//!
//! The host ledger is modeled explicitly: records live at addresses derived
//! deterministically from their identifying keys, native-currency balances are
//! a map from identity to amount, and each asset's single unit has exactly one
//! holder. Every operation is a whole-state transition with an exact contract:
//! it either returns its notification event and performs precisely the record
//! mutations and custody moves it promises, or returns a typed error and
//! leaves the state untouched.

pub mod errors;
pub mod events;
pub mod fees;
pub mod laws;
pub mod market;
pub mod model;
pub mod records;
pub mod transitions;
