//! A mocked blockchain execution environment for exercising smart contracts
//! in unit tests: execution contexts, a key/value storage table, an
//! append-only log buffer, receipt (cross-contract call) bookkeeping, and a
//! token transfer-and-call protocol layered on top of those primitives.

pub mod account;
pub mod context;
pub mod host;
pub mod protocol;
pub mod resolver;
