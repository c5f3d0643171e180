//! A ledger entry that tracks an environmental quality metric (the
//! "ecostate") and releases a fixed token allotment as that metric improves,
//! under role-gated administrative control.
//!
//! The core is a pure state machine: `contract::init` builds the initial
//! [`state::State`], `contract::handle` applies one mutating message to it,
//! and `contract::query` projects read-only views. Persistence, transport
//! encoding and address canonicalization belong to the host around this
//! library.

pub mod contract;
pub mod error;
pub mod msg;
pub mod state;
