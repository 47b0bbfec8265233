//! Typed request/response commands between subsystems.
//!
//! A command names the response its handler owes. Delivery (channels,
//! one-shot replies) belongs to the runtime; this module holds what a
//! command is and how its failures are classified.

use crate::error::{is_error_class_text, ErrorClass};
use crate::id::GroupId;
use vstd::prelude::*;

verus! {

/// A request with a typed response.
pub trait Command: Send + 'static {
    /// What the handler replies.
    type Response: Send + 'static;
}

/// Why a command got no response.
#[derive(Debug, Clone)]
pub enum CommandError {
    /// The handler went away before replying.
    HandlerDropped,
    /// The handler replied with a failure.
    Handler(ErrorClass),
}

impl CommandError {
    /// A dropped handler is never retriable; a handler failure is when its
    /// class is.
    pub fn is_retriable(&self) -> (r: bool)
        ensures
            r == match *self {
                CommandError::HandlerDropped => false,
                CommandError::Handler(e) => e is Transient,
            },
    {
        match self {
            CommandError::HandlerDropped => false,
            CommandError::Handler(e) => e.is_retriable(),
        }
    }

    /// The display text: fixed for a dropped handler, the failure's own
    /// text otherwise.
    pub fn message(&self) -> (s: String)
        ensures
            *self is HandlerDropped ==> s@ == "command handler is unavailable"@,
            *self matches CommandError::Handler(e) ==> is_error_class_text(e, s@),
    {
        match self {
            CommandError::HandlerDropped => crate::text::owned("command handler is unavailable"),
            CommandError::Handler(e) => e.message(),
        }
    }
}

/// Spawn a container for a group.
#[derive(Debug)]
pub struct SpawnContainer {
    /// The group the container serves.
    pub group: GroupId,
}

impl Command for SpawnContainer {
    type Response = crate::id::ContainerId;
}

/// Ask a component whether it is healthy.
#[derive(Debug)]
pub struct HealthCheck {
    /// The component.
    pub component: String,
}

impl Command for HealthCheck {
    type Response = bool;
}

} // verus!
