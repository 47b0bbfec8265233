//! Structured host ↔ container IPC protocol: framing, message model,
//! lifecycle rules, traffic budgets and socket-path policy.

pub mod codec;
pub mod error;
pub mod forward_compat;
pub mod lifecycle;
pub mod limits;
pub mod message;
pub mod outbound;
pub mod path_policy;
pub mod peer_cred;
pub mod policy;
pub mod recv_policy;
pub mod semantics;
pub mod session;
pub mod type_probe;
pub mod version;
