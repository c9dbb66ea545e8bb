//! A protocol-translation gateway core: validates and translates inbound chat
//! requests, negotiates upstream session requirements, solves a bounded
//! proof-of-work challenge, decodes cumulative streaming snapshots into
//! incremental deltas, and renders the outgoing wire documents.
//!
//! Network I/O, routing and the HTTP accept loop live outside this crate; the
//! functions here are pure decision and rendering logic with verified
//! contracts, plus a small number of trusted wrappers around outside crates.

pub mod assemble;
pub mod chat;
pub mod errors;
pub mod pow;
pub mod relay;
pub mod session;
pub mod upstream;
pub mod text;
