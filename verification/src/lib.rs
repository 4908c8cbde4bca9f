//! A single-node proof-of-work ledger: blocks linked by content hashes, sealed
//! by a small proof of work, and reconciled with peers by the longest valid
//! chain.
//!
//! The ledger (`blockchain`), the proof of work (`pow`), the validity of
//! chains (`validation`), the registry of peers (`nodemanager`) and the
//! consensus rule (`consensus`) are verified against the models in these
//! modules. Three things are taken on trust, each behind one function: that
//! `crypto` computes SHA-256 (`sha256`), that `bincode` writes the canonical
//! bytes of a block as `encoding` states them, and the clock.
//!
//! Nothing here talks to the network. What is to be sent is handed out
//! (`P2PNodeManager::registration_request`, `P2PNodeManager::chain_requests`),
//! and what came back is handed in (`P2PNodeManager::add_node`,
//! `Blockchain::resolve_conflicts`).

pub mod block;
pub mod blockchain;
mod clock;
pub mod consensus;
pub mod decimal;
pub mod encoding;
pub mod nodemanager;
pub mod pow;
pub mod sha256;
pub mod validation;
