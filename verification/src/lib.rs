//! Forgeclaw: shared domain types, configuration rules and the verified
//! host/container IPC protocol core.

pub mod command;
pub mod config;
pub mod config_tree;
pub mod error;
pub mod event;
pub mod id;
pub mod ipc;
pub mod text;

use vstd::prelude::*;

verus! {

} // verus!
