//! Peer credentials, session identity, socket-directory rules and bind
//! attestation.

pub mod attestation;
pub mod socket_dir;

use crate::ipc::message::shared::GroupInfo;
use vstd::prelude::*;

verus! {

/// OS credentials of a connected peer.
#[derive(Debug, Clone, Copy, PartialEq, Eq)]
pub struct PeerCredentials {
    /// The peer's user id.
    pub uid: u32,
    /// The peer's group id.
    pub gid: u32,
    /// The peer's process id, when the OS reports it.
    pub pid: Option<i32>,
}

/// Who is on the other end of a session: its credentials (when captured)
/// and the group it serves.
#[derive(Debug, Clone)]
pub struct SessionIdentity {
    peer_credentials: Option<PeerCredentials>,
    group: GroupInfo,
}

impl SessionIdentity {
    /// The captured credentials.
    pub closed spec fn credentials_spec(&self) -> Option<PeerCredentials> {
        self.peer_credentials
    }

    /// The group.
    pub closed spec fn group_spec(&self) -> GroupInfo {
        self.group
    }

    /// Bind credentials and group into an identity.
    pub fn new(peer_credentials: Option<PeerCredentials>, group: GroupInfo) -> (s: Self)
        ensures
            s.credentials_spec() == peer_credentials,
            s.group_spec() == group,
    {
        SessionIdentity { peer_credentials, group }
    }

    /// The captured credentials, if any.
    pub fn peer_credentials(&self) -> (c: Option<&PeerCredentials>)
        ensures
            match self.credentials_spec() {
                Some(p) => c == Some(&p),
                None => c is None,
            },
    {
        match &self.peer_credentials {
            Some(p) => Some(p),
            None => None,
        }
    }

    /// The group this session serves.
    pub fn group(&self) -> (g: &GroupInfo)
        ensures
            *g == self.group_spec(),
    {
        &self.group
    }

    /// Whether the session's group is the main group.
    pub fn is_main(&self) -> (b: bool)
        ensures
            b == self.group_spec().is_main,
    {
        self.group.is_main
    }
}

} // verus!
