//! A cross-chain token custody vault: per-token escrow accounting, pause
//! controls, authority-gated administration, and the event log consumed by an
//! off-chain relayer.
//!
//! The vault escrows fungible tokens on behalf of a remote hub ledger and
//! releases them when the vault authority applies a verified hub instruction.
//! The token-transfer primitive, the message relay, and the wall clock are
//! external collaborators: callers hand their results in as plain values
//! (identities, amounts, timestamps), and the vault state machine — the part
//! verified here — decides and records.

pub mod errors;
pub mod events;
pub mod laws;
pub mod model;
pub mod types;
pub mod vault;
