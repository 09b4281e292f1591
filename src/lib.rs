//! Proof-of-work search engine and mining pass controller.
//!
//! The nonce space is split among workers (`partition`), each worker scans
//! its block and decides at checkpoints whether to stop (`worker`), the
//! workers' results are combined (`search`), and the pass controller turns
//! balance snapshots and clock readings into decisions (`balance`,
//! `controller`). Calls into outside crates stand in `external`.

pub mod balance;
pub mod controller;
pub mod external;
pub mod partition;
pub mod search;
pub mod worker;
