//! A decentralized reputation and incident-reporting registry.
//!
//! A fixed population of authorized agents scores tracked programs along four
//! dimensions and submits incident reports that other agents ratify through a
//! quorum-based voting protocol. The caller-identity, clock, and keyed-storage
//! substrate are supplied by the surrounding runtime; this crate holds the
//! decision logic — validation, score aggregation, quorum derivation, the
//! report finalization state machine, and reputation accounting — with its
//! behaviour stated in contracts and proved.

pub mod errors;
pub mod ops;
pub mod quorum;
pub mod scoring;
pub mod state;
pub mod votes;
