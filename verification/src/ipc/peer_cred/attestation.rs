//! Post-bind attestation: does the bound listener really serve the socket
//! path, and did the parent directory stay put during the bind?
//!
//! Two independent probes give evidence: the listener's pathname (its
//! local address, then its file-descriptor targets, compared after
//! canonicalization) and the listener's inode compared with the path's.
//! Only two matches attest the bind; a conflict is a mismatch, and a
//! missing probe leaves it inconclusive. Anything but a match fails the
//! bind with a bind race.

use crate::ipc::error::IpcError;
use crate::ipc::path_policy::is_absolute_path;
use crate::ipc::peer_cred::socket_dir::{components_of, path_components, string_views};
use crate::text::{decimal_seq, push_decimal, push_str, str_eq};
use vstd::prelude::*;

verus! {

/// Evidence from one probe.
#[derive(Debug, Clone, PartialEq, Eq)]
pub enum AttestationEvidence {
    /// The probe shows the listener serves the path.
    Match,
    /// The probe shows it does not.
    Mismatch(String),
    /// The probe could not tell.
    Inconclusive(String),
}

/// The verdict on the bind.
#[derive(Debug, Clone, PartialEq, Eq)]
pub enum ListenerSocketAttestation {
    /// Both probes match.
    Match,
    /// Some probe contradicts the bind.
    Mismatch(String),
    /// The evidence is incomplete.
    Inconclusive(String),
}

/// The three outcomes of a probe or a verdict.
#[derive(PartialEq, Eq)]
pub enum Outcome {
    /// Match.
    Match,
    /// Mismatch.
    Mismatch,
    /// Inconclusive.
    Inconclusive,
}

/// Evidence as its outcome and reason text (empty for a match).
pub open spec fn evidence_view(e: AttestationEvidence) -> (Outcome, Seq<char>) {
    match e {
        AttestationEvidence::Match => (Outcome::Match, Seq::empty()),
        AttestationEvidence::Mismatch(r) => (Outcome::Mismatch, r@),
        AttestationEvidence::Inconclusive(r) => (Outcome::Inconclusive, r@),
    }
}

/// A verdict as its outcome and reason text (empty for a match).
pub open spec fn verdict_view(v: ListenerSocketAttestation) -> (Outcome, Seq<char>) {
    match v {
        ListenerSocketAttestation::Match => (Outcome::Match, Seq::empty()),
        ListenerSocketAttestation::Mismatch(r) => (Outcome::Mismatch, r@),
        ListenerSocketAttestation::Inconclusive(r) => (Outcome::Inconclusive, r@),
    }
}

/// The verdict from the pathname evidence `p` and the inode evidence `i`:
/// two matches attest; a match against a mismatch is a conflict; a match
/// against an inconclusive probe is partial; a mismatch wins over an
/// inconclusive probe; two of a kind join their reasons.
pub open spec fn merge_view(p: (Outcome, Seq<char>), i: (Outcome, Seq<char>)) -> (Outcome, Seq<char>) {
    let conflict = "conflicting listener/path identity evidence: "@;
    let partial = "partial listener/path identity evidence (one probe unavailable): "@;
    match (p.0, i.0) {
        (Outcome::Match, Outcome::Match) => (Outcome::Match, Seq::empty()),
        (Outcome::Match, Outcome::Mismatch) => (Outcome::Mismatch, conflict + i.1),
        (Outcome::Mismatch, Outcome::Match) => (Outcome::Mismatch, conflict + p.1),
        (Outcome::Match, Outcome::Inconclusive) => (Outcome::Inconclusive, partial + i.1),
        (Outcome::Inconclusive, Outcome::Match) => (Outcome::Inconclusive, partial + p.1),
        (Outcome::Mismatch, Outcome::Inconclusive) => (Outcome::Mismatch, p.1),
        (Outcome::Inconclusive, Outcome::Mismatch) => (Outcome::Mismatch, i.1),
        (Outcome::Mismatch, Outcome::Mismatch) => (Outcome::Mismatch, p.1 + "; "@ + i.1),
        (Outcome::Inconclusive, Outcome::Inconclusive) => (Outcome::Inconclusive, p.1 + "; "@
            + i.1),
    }
}

fn prefixed(prefix: &str, reason: &String) -> (s: String)
    ensures
        s@ == prefix@ + reason@,
{
    let mut s = String::new();
    push_str(&mut s, prefix);
    push_str(&mut s, reason.as_str());
    s
}

fn joined(a: &String, b: &String) -> (s: String)
    ensures
        s@ == a@ + "; "@ + b@,
{
    let mut s = String::new();
    push_str(&mut s, a.as_str());
    push_str(&mut s, "; ");
    push_str(&mut s, b.as_str());
    s
}

/// Merges the pathname and inode evidence into a verdict.
pub fn merge_evidence(path_evidence: AttestationEvidence, inode_evidence: AttestationEvidence) -> (v:
    ListenerSocketAttestation)
    ensures
        verdict_view(v) == merge_view(evidence_view(path_evidence), evidence_view(inode_evidence)),
{
    let conflict = "conflicting listener/path identity evidence: ";
    let partial = "partial listener/path identity evidence (one probe unavailable): ";
    match (path_evidence, inode_evidence) {
        (AttestationEvidence::Match, AttestationEvidence::Match) => ListenerSocketAttestation::Match,
        (AttestationEvidence::Match, AttestationEvidence::Mismatch(r)) => {
            ListenerSocketAttestation::Mismatch(prefixed(conflict, &r))
        },
        (AttestationEvidence::Mismatch(r), AttestationEvidence::Match) => {
            ListenerSocketAttestation::Mismatch(prefixed(conflict, &r))
        },
        (AttestationEvidence::Match, AttestationEvidence::Inconclusive(r)) => {
            ListenerSocketAttestation::Inconclusive(prefixed(partial, &r))
        },
        (AttestationEvidence::Inconclusive(r), AttestationEvidence::Match) => {
            ListenerSocketAttestation::Inconclusive(prefixed(partial, &r))
        },
        (AttestationEvidence::Mismatch(r), AttestationEvidence::Inconclusive(_)) => {
            ListenerSocketAttestation::Mismatch(r)
        },
        (AttestationEvidence::Inconclusive(_), AttestationEvidence::Mismatch(r)) => {
            ListenerSocketAttestation::Mismatch(r)
        },
        (AttestationEvidence::Mismatch(a), AttestationEvidence::Mismatch(b)) => {
            ListenerSocketAttestation::Mismatch(joined(&a, &b))
        },
        (AttestationEvidence::Inconclusive(a), AttestationEvidence::Inconclusive(b)) => {
            ListenerSocketAttestation::Inconclusive(joined(&a, &b))
        },
    }
}

/// The bind is attested only by two matching probes.
pub proof fn lemma_attested_only_by_two_matches(p: AttestationEvidence, i: AttestationEvidence)
    ensures
        merge_view(evidence_view(p), evidence_view(i)).0 == Outcome::Match <==> (p is Match
            && i is Match),
        (p is Mismatch || i is Mismatch) ==> merge_view(evidence_view(p), evidence_view(i)).0
            == Outcome::Mismatch,
{
}

/// Maps the verdict to the bind's result: only a match passes; anything
/// else is a bind race naming the socket path and the reason.
pub fn map_attestation_verdict(socket_path: &str, verdict: ListenerSocketAttestation) -> (r: Result<
    (),
    IpcError,
>)
    ensures
        match verdict {
            ListenerSocketAttestation::Match => r is Ok,
            ListenerSocketAttestation::Mismatch(reason) => r matches Err(IpcError::BindRace(m))
                && m@ == "listener/path attestation mismatch after bind at "@ + socket_path@
                + ": "@ + reason@,
            ListenerSocketAttestation::Inconclusive(reason) => r matches Err(IpcError::BindRace(m))
                && m@ == "listener/path attestation inconclusive after bind at "@ + socket_path@
                + ": "@ + reason@,
        },
{
    match verdict {
        ListenerSocketAttestation::Match => Ok(()),
        ListenerSocketAttestation::Mismatch(reason) => {
            let mut s = String::new();
            push_str(&mut s, "listener/path attestation mismatch after bind at ");
            push_str(&mut s, socket_path);
            push_str(&mut s, ": ");
            push_str(&mut s, reason.as_str());
            Err(IpcError::BindRace(s))
        },
        ListenerSocketAttestation::Inconclusive(reason) => {
            let mut s = String::new();
            push_str(&mut s, "listener/path attestation inconclusive after bind at ");
            push_str(&mut s, socket_path);
            push_str(&mut s, ": ");
            push_str(&mut s, reason.as_str());
            Err(IpcError::BindRace(s))
        },
    }
}

/// Path equality as `std::path::Path` has it: same absoluteness and same
/// named components.
pub open spec fn same_path(a: Seq<char>, b: Seq<char>) -> bool {
    is_absolute_path(a) == is_absolute_path(b) && path_components(a) == path_components(b)
}

/// Component-wise path equality.
pub fn paths_equal(a: &str, b: &str) -> (r: bool)
    ensures
        r == same_path(a@, b@),
{
    let ca = components_of(a);
    let cb = components_of(b);
    let abs_a = crate::text::starts_with_char(a, '/');
    let abs_b = crate::text::starts_with_char(b, '/');
    if abs_a != abs_b || ca.len() != cb.len() {
        proof {
            if abs_a == abs_b {
                assert(string_views(ca@).len() != string_views(cb@).len());
            }
        }
        return false;
    }
    let mut i: usize = 0;
    while i < ca.len()
        invariant
            ca@.len() == cb@.len(),
            i <= ca@.len(),
            string_views(ca@) == path_components(a@),
            string_views(cb@) == path_components(b@),
            forall|k: int| 0 <= k < i ==> ca@[k]@ == cb@[k]@,
        decreases ca@.len() - i,
    {
        if !str_eq(ca[i].as_str(), cb[i].as_str()) {
            assert(string_views(ca@)[i as int] != string_views(cb@)[i as int]);
            return false;
        }
        i = i + 1;
    }
    assert(string_views(ca@) =~= string_views(cb@));
    true
}

/// Whether two paths name the same file: equal paths do; otherwise their
/// canonical forms decide, and without both canonical forms nothing can
/// be said.
pub fn canonical_path_match(left: &str, right: &str, left_real: Option<&str>, right_real: Option<
    &str,
>) -> (r: Option<bool>)
    ensures
        same_path(left@, right@) ==> r == Some(true),
        !same_path(left@, right@) ==> r == match (left_real, right_real) {
            (Some(l), Some(rr)) => Some(same_path(l@, rr@)),
            _ => None,
        },
{
    if paths_equal(left, right) {
        return Some(true);
    }
    match (left_real, right_real) {
        (Some(l), Some(rr)) => Some(paths_equal(l, rr)),
        _ => None,
    }
}

/// One pathname probe of the listener: the path it reported and whether
/// that path names the socket path (`None` when it could not be compared).
pub struct PathProbe {
    /// The reported path.
    pub path: String,
    /// The comparison with the socket path.
    pub matched: Option<bool>,
}

/// The mismatch reason for a probe at `index` (the local address is
/// index 0 when present).
pub open spec fn probe_mismatch_text(local: bool, path: Seq<char>) -> Seq<char> {
    if local {
        "listener local address differs from socket path ("@ + path + ")"@
    } else {
        "listener fd target differs from socket path ("@ + path + ")"@
    }
}

/// The pathname evidence from the probes in order (`(is_local, path,
/// comparison)`): the first matching probe attests a match; otherwise the
/// last comparable probe's difference is a mismatch; otherwise the
/// evidence is inconclusive.
pub open spec fn path_evidence_spec(probes: Seq<(bool, Seq<char>, Option<bool>)>) -> (Outcome, Seq<char>) {
    if exists|k: int| 0 <= k < probes.len() && #[trigger] probes[k].2 == Some(true) {
        (Outcome::Match, Seq::empty())
    } else if exists|k: int| 0 <= k < probes.len() && #[trigger] probes[k].2 == Some(false) {
        let k = choose|k: int|
            0 <= k < probes.len() && #[trigger] probes[k].2 == Some(false) && forall|m: int|
                k < m < probes.len() ==> probes[m].2 != Some(false);
        (Outcome::Mismatch, probe_mismatch_text(probes[k].0, probes[k].1))
    } else {
        (Outcome::Inconclusive, "could not derive comparable listener pathname evidence"@)
    }
}

/// The probes in the order they are consulted.
pub open spec fn probe_sequence(local: Option<PathProbe>, targets: Seq<PathProbe>) -> Seq<
    (bool, Seq<char>, Option<bool>),
> {
    let rest = targets.map_values(|p: PathProbe| (false, p.path@, p.matched));
    match local {
        Some(p) => seq![(true, p.path@, p.matched)] + rest,
        None => rest,
    }
}

fn probe_reason(local: bool, path: &String) -> (s: String)
    ensures
        s@ == probe_mismatch_text(local, path@),
{
    let mut s = String::new();
    if local {
        push_str(&mut s, "listener local address differs from socket path (");
    } else {
        push_str(&mut s, "listener fd target differs from socket path (");
    }
    push_str(&mut s, path.as_str());
    push_str(&mut s, ")");
    s
}

/// The pathname evidence: the listener's local address is consulted
/// first, then each file-descriptor target.
pub fn listener_path_evidence(local: Option<PathProbe>, fd_targets: &Vec<PathProbe>) -> (e:
    AttestationEvidence)
    ensures
        evidence_view(e) == path_evidence_spec(probe_sequence(local, fd_targets@)),
{
    let ghost probes = probe_sequence(local, fd_targets@);
    let ghost offset: int = if local is Some {
        1
    } else {
        0
    };
    let mut mismatch: Option<String> = None;
    let ghost mut last: int = -1;
    match &local {
        Some(p) => {
            match p.matched {
                Some(true) => {
                    assert(probes[0].2 == Some(true));
                    return AttestationEvidence::Match;
                },
                Some(false) => {
                    mismatch = Some(probe_reason(true, &p.path));
                    proof {
                        last = 0;
                    }
                },
                None => {},
            }
        },
        None => {},
    }
    let mut i: usize = 0;
    while i < fd_targets.len()
        invariant
            probes == probe_sequence(local, fd_targets@),
            offset == (if local is Some { 1int } else { 0int }),
            probes.len() == fd_targets@.len() + offset,
            i <= fd_targets@.len(),
            forall|k: int| 0 <= k < i + offset ==> #[trigger] probes[k].2 != Some(true),
            -1 <= last < i + offset,
            mismatch is Some <==> last >= 0,
            last >= 0 ==> probes[last].2 == Some(false) && mismatch->0@ == probe_mismatch_text(
                probes[last].0,
                probes[last].1,
            ),
            forall|m: int| last < m < i + offset ==> #[trigger] probes[m].2 != Some(false),
        decreases fd_targets@.len() - i,
    {
        let t = &fd_targets[i];
        assert(probes[i + offset] == (false, t.path@, t.matched));
        match t.matched {
            Some(true) => {
                assert(probes[i + offset].2 == Some(true));
                return AttestationEvidence::Match;
            },
            Some(false) => {
                mismatch = Some(probe_reason(false, &t.path));
                proof {
                    last = i + offset;
                }
            },
            None => {},
        }
        i = i + 1;
    }
    proof {
        assert(!exists|k: int| 0 <= k < probes.len() && #[trigger] probes[k].2 == Some(true));
        if last >= 0 {
            let k = choose|k: int|
                0 <= k < probes.len() && #[trigger] probes[k].2 == Some(false) && forall|m: int|
                    k < m < probes.len() ==> probes[m].2 != Some(false);
            if k < last {
                assert(probes[last].2 == Some(false));
            } else if k > last {
                assert(probes[k].2 != Some(false));
            }
            assert(k == last);
        }
    }
    match mismatch {
        Some(reason) => AttestationEvidence::Mismatch(reason),
        None => {
            let mut s = String::new();
            push_str(&mut s, "could not derive comparable listener pathname evidence");
            AttestationEvidence::Inconclusive(s)
        },
    }
}

/// The inode evidence: the listener's fingerprint equal to the path's is a
/// match, a different one a mismatch, none inconclusive.
pub fn listener_inode_evidence(listener_fp: Option<(u64, u64)>, path_fp: (u64, u64)) -> (e:
    AttestationEvidence)
    ensures
        evidence_view(e) == match listener_fp {
            Some(fp) => if fp == path_fp {
                (Outcome::Match, Seq::<char>::empty())
            } else {
                (
                    Outcome::Mismatch,
                    "listener inode ("@ + decimal_seq(fp.0 as nat) + ","@ + decimal_seq(
                        fp.1 as nat,
                    ) + ") differs from socket inode ("@ + decimal_seq(path_fp.0 as nat) + ","@
                        + decimal_seq(path_fp.1 as nat) + ")"@,
                )
            },
            None => (
                Outcome::Inconclusive,
                "could not fingerprint listener file descriptor path after bind"@,
            ),
        },
{
    match listener_fp {
        Some((dev, ino)) => {
            if dev == path_fp.0 && ino == path_fp.1 {
                AttestationEvidence::Match
            } else {
                let mut s = String::new();
                push_str(&mut s, "listener inode (");
                push_decimal(&mut s, dev);
                push_str(&mut s, ",");
                push_decimal(&mut s, ino);
                push_str(&mut s, ") differs from socket inode (");
                push_decimal(&mut s, path_fp.0);
                push_str(&mut s, ",");
                push_decimal(&mut s, path_fp.1);
                push_str(&mut s, ")");
                AttestationEvidence::Mismatch(s)
            }
        },
        None => {
            let mut s = String::new();
            push_str(&mut s, "could not fingerprint listener file descriptor path after bind");
            AttestationEvidence::Inconclusive(s)
        },
    }
}

/// The listener's fingerprint: from its local address when that names a
/// socket, else from the first file-descriptor target that does.
pub fn listener_fingerprint(local: Option<(u64, u64)>, fd_targets: &Vec<Option<(u64, u64)>>) -> (r:
    Option<(u64, u64)>)
    ensures
        local is Some ==> r == local,
        local is None ==> match r {
            Some(fp) => exists|k: int|
                0 <= k < fd_targets@.len() && fd_targets@[k] == Some(fp) && forall|m: int|
                    0 <= m < k ==> #[trigger] fd_targets@[m] is None,
            None => forall|k: int| 0 <= k < fd_targets@.len() ==> #[trigger] fd_targets@[k] is None,
        },
{
    if local.is_some() {
        return local;
    }
    let mut i: usize = 0;
    while i < fd_targets.len()
        invariant
            local is None,
            i <= fd_targets@.len(),
            forall|m: int| 0 <= m < i ==> #[trigger] fd_targets@[m] is None,
        decreases fd_targets@.len() - i,
    {
        if fd_targets[i].is_some() {
            return fd_targets[i];
        }
        i = i + 1;
    }
    None
}

/// Whether the listener definitively serves the path: the path has a
/// socket fingerprint and the inode evidence is a match.
pub fn listener_matches_socket_definitive(path_fp: Option<(u64, u64)>, listener_fp: Option<(u64, u64)>) -> (r:
    bool)
    ensures
        r == (path_fp is Some && listener_fp is Some && listener_fp == path_fp),
{
    match (path_fp, listener_fp) {
        (Some(p), Some(l)) => p.0 == l.0 && p.1 == l.1,
        _ => false,
    }
}

/// Identity of the socket's parent directory captured before bind.
#[derive(Debug, Clone, Copy, PartialEq, Eq)]
pub struct ParentFingerprint {
    /// Device.
    pub dev: u64,
    /// Inode.
    pub ino: u64,
    /// Permission bits.
    pub mode: u32,
    /// Owner.
    pub uid: u32,
    /// Group.
    pub gid: u32,
}

/// Fails with a bind race when the parent's fingerprint changed.
pub fn check_parent_fingerprint(parent: &str, captured: ParentFingerprint, current: ParentFingerprint) -> (r:
    Result<(), IpcError>)
    ensures
        captured == current ==> r is Ok,
        captured != current ==> (r matches Err(IpcError::BindRace(m)) && m@
            == "socket parent fingerprint changed during bind: "@ + parent@),
{
    if captured.dev == current.dev && captured.ino == current.ino && captured.mode == current.mode
        && captured.uid == current.uid && captured.gid == current.gid {
        return Ok(());
    }
    let mut s = String::new();
    push_str(&mut s, "socket parent fingerprint changed during bind: ");
    push_str(&mut s, parent);
    Err(IpcError::BindRace(s))
}

/// The socket path's fingerprint, or a bind race when the path no longer
/// holds a socket.
pub fn check_socket_fingerprint(socket_path: &str, is_socket: bool, dev: u64, ino: u64) -> (r:
    Result<(u64, u64), IpcError>)
    ensures
        is_socket ==> r == Ok::<(u64, u64), IpcError>((dev, ino)),
        !is_socket ==> (r matches Err(IpcError::BindRace(m)) && m@
            == "socket path replaced with non-socket after bind: "@ + socket_path@),
{
    if !is_socket {
        let mut s = String::new();
        push_str(&mut s, "socket path replaced with non-socket after bind: ");
        push_str(&mut s, socket_path);
        return Err(IpcError::BindRace(s));
    }
    Ok((dev, ino))
}

} // verus!
