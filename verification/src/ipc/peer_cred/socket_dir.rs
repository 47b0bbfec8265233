//! Rules for the directory a server socket lives in.
//!
//! The filesystem probing (metadata, canonicalization, directory creation)
//! is the caller's; this module holds the decisions: how the socket's
//! parent relates to its nearest existing ancestor, the canonical parent
//! path, and what each probe result means. The parent must be a real
//! directory (not a symlink) of mode `0700`, owned by the expected UID,
//! and resolve to the path the checks were made on.

use crate::ipc::error::IpcError;
use crate::ipc::path_policy::is_absolute_path;
use crate::text::{chars_of, push_char, push_str, str_eq};
use vstd::prelude::*;

verus! {

/// Policy governing which UID may own the socket's parent directory.
#[derive(Debug, Clone, Copy, PartialEq, Eq)]
pub enum ParentOwnerPolicy {
    /// The parent UID must match the process's effective UID.
    MatchEffectiveUid,
    /// The parent UID must equal the explicitly supplied value.
    RequireUid(u32),
    /// Ownership is not checked (audit-visible, permissive).
    Disabled,
}

impl ParentOwnerPolicy {
    /// The UID the parent must have, given the process's effective UID, or
    /// `None` when the check is disabled.
    pub fn expected_uid(self, effective_uid: u32) -> (r: Option<u32>)
        ensures
            r == match self {
                ParentOwnerPolicy::MatchEffectiveUid => Some(effective_uid),
                ParentOwnerPolicy::RequireUid(uid) => Some(uid),
                ParentOwnerPolicy::Disabled => None,
            },
    {
        match self {
            ParentOwnerPolicy::MatchEffectiveUid => Some(effective_uid),
            ParentOwnerPolicy::RequireUid(uid) => Some(uid),
            ParentOwnerPolicy::Disabled => None,
        }
    }
}

/// Decides the ownership check: no expectation passes; otherwise the
/// actual UID must equal the expected one, else `SocketParentOwnership`.
pub fn check_parent_owner(parent: &str, expected_uid: Option<u32>, actual_uid: u32) -> (r: Result<
    (),
    IpcError,
>)
    ensures
        match expected_uid {
            None => r is Ok,
            Some(e) => if actual_uid == e {
                r is Ok
            } else {
                r matches Err(IpcError::SocketParentOwnership { path, expected_uid: x, actual_uid: a })
                    && path@ == parent@ && x == e && a == actual_uid
            },
        },
{
    match expected_uid {
        None => Ok(()),
        Some(expected) => {
            if actual_uid == expected {
                Ok(())
            } else {
                Err(
                    IpcError::SocketParentOwnership {
                        path: parent.to_owned(),
                        expected_uid: expected,
                        actual_uid,
                    },
                )
            }
        },
    }
}

/// A segment kept as a path component: non-empty and not `.`.
pub open spec fn kept_segment(s: Seq<char>) -> Seq<Seq<char>> {
    if s.len() > 0 && s != "."@ {
        seq![s]
    } else {
        Seq::empty()
    }
}

/// The components accumulated scanning `p` from `i`, with the current
/// segment starting at `start` and `acc` collected so far.
pub open spec fn components_from(p: Seq<char>, i: int, start: int, acc: Seq<Seq<char>>) -> Seq<
    Seq<char>,
>
    decreases p.len() - i,
{
    if i >= p.len() {
        acc + kept_segment(p.subrange(start, p.len() as int))
    } else if p[i] == '/' {
        components_from(p, i + 1, i + 1, acc + kept_segment(p.subrange(start, i)))
    } else {
        components_from(p, i + 1, start, acc)
    }
}

/// The named components of a path: its non-empty segments other than `.`.
pub open spec fn path_components(p: Seq<char>) -> Seq<Seq<char>> {
    components_from(p, 0, 0, Seq::empty())
}

/// The views of a vector of strings.
pub open spec fn string_views(v: Seq<String>) -> Seq<Seq<char>> {
    v.map_values(|s: String| s@)
}

/// Splits a path into its named components.
pub fn components_of(p: &str) -> (v: Vec<String>)
    ensures
        string_views(v@) == path_components(p@),
{
    let cs = chars_of(p);
    let n = cs.len();
    let mut out: Vec<String> = Vec::new();
    let mut current = String::new();
    let mut i: usize = 0;
    let ghost mut start: int = 0;
    assert(string_views(out@) =~= Seq::<Seq<char>>::empty());
    while i < n
        invariant
            cs@ == p@,
            n == cs@.len(),
            0 <= start <= i <= n,
            current@ == p@.subrange(start, i as int),
            path_components(p@) == components_from(p@, i as int, start, string_views(out@)),
        decreases n - i,
    {
        let c = cs[i];
        if c == '/' {
            let keep = !current.as_str().is_empty() && !str_eq(current.as_str(), ".");
            proof {
                reveal_strlit(".");
            }
            let ghost before = out@;
            if keep {
                out.push(current);
                assert(string_views(out@) == string_views(before) + kept_segment(
                    p@.subrange(start, i as int),
                ));
            } else {
                assert(string_views(out@) == string_views(before) + kept_segment(
                    p@.subrange(start, i as int),
                ));
            }
            current = String::new();
            proof {
                start = i + 1;
            }
        } else {
            push_char(&mut current, c);
            assert(p@.subrange(start, i + 1) == p@.subrange(start, i as int).push(c));
        }
        i = i + 1;
    }
    let keep = !current.as_str().is_empty() && !str_eq(current.as_str(), ".");
    let ghost before = out@;
    if keep {
        out.push(current);
    }
    assert(string_views(out@) == string_views(before) + kept_segment(p@.subrange(start, n as int)));
    out
}

/// How the socket's parent relates to its nearest existing ancestor: the
/// components to create below the ancestor, or the error text.
pub open spec fn relative_components_spec(parent: Seq<char>, start: Seq<char>) -> Result<
    Seq<Seq<char>>,
    Seq<char>,
> {
    let pc = path_components(parent);
    let sc = path_components(start);
    if is_absolute_path(parent) == is_absolute_path(start) && pc == sc {
        Ok(Seq::empty())
    } else if !(is_absolute_path(parent) == is_absolute_path(start) && sc.len() <= pc.len()
        && pc.take(sc.len() as int) == sc) {
        Err(
            "socket parent "@ + parent + " is not under existing ancestor "@ + start
                + ": prefix not found"@,
        )
    } else if pc.skip(sc.len() as int).contains(".."@) {
        Err("invalid path traversal segment in socket parent: "@ + parent)
    } else {
        Ok(pc.skip(sc.len() as int))
    }
}

fn starts_with_slash(p: &str) -> (r: bool)
    ensures
        r == is_absolute_path(p@),
{
    let cs = chars_of(p);
    cs.len() > 0 && cs[0] == '/'
}

/// The components of `parent` below its existing ancestor `start`, or the
/// error text: `start` must be a component-wise prefix of `parent`, and
/// what remains must not contain `..`.
pub fn normalized_relative_components(parent: &str, start: &str) -> (r: Result<Vec<String>, String>)
    ensures
        match relative_components_spec(parent@, start@) {
            Ok(parts) => r matches Ok(v) && string_views(v@) == parts,
            Err(m) => r matches Err(s) && s@ == m,
        },
        r matches Ok(v) ==> path_components(joined_path(start@, string_views(v@)))
            == path_components(parent@),
{
    proof {
        if relative_components_spec(parent@, start@) is Ok {
            lemma_relative_components_join_back(parent@, start@);
        }
    }
    let pc = components_of(parent);
    let sc = components_of(start);
    let same_kind = starts_with_slash(parent) == starts_with_slash(start);
    let ghost pcv = string_views(pc@);
    let ghost scv = string_views(sc@);
    let mut prefix = same_kind && sc.len() <= pc.len();
    let mut i: usize = 0;
    while prefix && i < sc.len()
        invariant
            sc@.len() <= pc@.len() || !prefix,
            i <= sc@.len(),
            pcv == string_views(pc@),
            scv == string_views(sc@),
            prefix ==> sc@.len() <= pc@.len() && forall|k: int| 0 <= k < i ==> pcv[k] == scv[k],
            !prefix ==> !(same_kind && sc@.len() <= pc@.len() && pcv.take(sc@.len() as int) == scv),
            prefix ==> same_kind,
        decreases sc@.len() - i + (if prefix {
            1int
        } else {
            0int
        }),
    {
        if !str_eq(pc[i].as_str(), sc[i].as_str()) {
            assert(pcv.take(sc@.len() as int)[i as int] != scv[i as int]);
            prefix = false;
        } else {
            i = i + 1;
        }
    }
    if prefix {
        assert(pcv.take(sc@.len() as int) =~= scv);
    }
    if prefix && pc.len() == sc.len() {
        assert(pcv =~= scv);
        let empty: Vec<String> = Vec::new();
        assert(string_views(empty@) =~= Seq::<Seq<char>>::empty());
        return Ok(empty);
    }
    if !prefix {
        proof {
            if same_kind && pcv == scv {
                assert(pcv.take(sc@.len() as int) =~= scv);
            }
        }
        let mut s = String::new();
        push_str(&mut s, "socket parent ");
        push_str(&mut s, parent);
        push_str(&mut s, " is not under existing ancestor ");
        push_str(&mut s, start);
        push_str(&mut s, ": prefix not found");
        return Err(s);
    }
    proof {
        assert(pcv != scv);
    }
    let mut parts: Vec<String> = Vec::new();
    let mut j: usize = sc.len();
    assert(string_views(parts@) =~= pcv.subrange(sc@.len() as int, j as int));
    while j < pc.len()
        invariant
            sc@.len() <= j <= pc@.len(),
            pcv == string_views(pc@),
            scv == string_views(sc@),
            pcv == path_components(parent@),
            scv == path_components(start@),
            is_absolute_path(parent@) == is_absolute_path(start@),
            pcv.take(sc@.len() as int) == scv,
            pcv != scv,
            string_views(parts@) == pcv.subrange(sc@.len() as int, j as int),
            forall|k: int| sc@.len() <= k < j ==> #[trigger] pcv[k] != ".."@,
        decreases pc@.len() - j,
    {
        if str_eq(pc[j].as_str(), "..") {
            assert(pcv.skip(sc@.len() as int)[j - sc@.len()] == ".."@);
            let mut s = String::new();
            push_str(&mut s, "invalid path traversal segment in socket parent: ");
            push_str(&mut s, parent);
            return Err(s);
        }
        let ghost before = parts@;
        parts.push(pc[j].clone());
        proof {
            assert(string_views(parts@) == string_views(before).push(pcv[j as int]));
            assert(pcv.subrange(sc@.len() as int, j + 1) == pcv.subrange(sc@.len() as int, j as int).push(pcv[j as int]));
        }
        j = j + 1;
    }
    assert(pcv.subrange(sc@.len() as int, pc@.len() as int) =~= pcv.skip(sc@.len() as int));
    proof {
        if pcv.skip(sc@.len() as int).contains(".."@) {
            let w = choose|w: int| 0 <= w < pcv.skip(sc@.len() as int).len() && pcv.skip(sc@.len() as int)[w] == ".."@;
            assert(pcv[w + sc@.len()] == ".."@);
        }
    }
    Ok(parts)
}

/// Appends one component to a path the way `PathBuf::push` does for a
/// relative component: a `/` separator is added unless the path is empty
/// or already ends with one.
pub open spec fn push_component(base: Seq<char>, part: Seq<char>) -> Seq<char> {
    if base.len() > 0 && base[base.len() - 1] != '/' {
        base + "/"@ + part
    } else {
        base + part
    }
}

/// `base` with `parts` pushed in order.
pub open spec fn joined_path(base: Seq<char>, parts: Seq<Seq<char>>) -> Seq<char>
    decreases parts.len(),
{
    if parts.len() == 0 {
        base
    } else {
        push_component(joined_path(base, parts.drop_last()), parts.last())
    }
}

/// The canonical parent: the canonical existing ancestor with the missing
/// components pushed onto it.
pub fn canonical_parent_path(start_canonical: &str, parts: &Vec<String>) -> (r: String)
    ensures
        r@ == joined_path(start_canonical@, string_views(parts@)),
{
    let mut current = start_canonical.to_owned();
    let mut i: usize = 0;
    while i < parts.len()
        invariant
            i <= parts@.len(),
            current@ == joined_path(start_canonical@, string_views(parts@).take(i as int)),
        decreases parts@.len() - i,
    {
        let ghost before = current@;
        let cs = chars_of(current.as_str());
        if cs.len() > 0 && cs[cs.len() - 1] != '/' {
            push_char(&mut current, '/');
            proof {
                reveal_strlit("/");
                assert(before.push('/') =~= before + "/"@);
            }
        }
        push_str(&mut current, parts[i].as_str());
        proof {
            let v = string_views(parts@);
            assert(v.take(i + 1).drop_last() =~= v.take(i as int));
            assert(v.take(i + 1).last() == parts@[i as int]@);
        }
        i = i + 1;
    }
    assert(string_views(parts@).take(parts@.len() as int) =~= string_views(parts@));
    current
}

/// The error text when the parent is not a plain directory, if it is not:
/// a symlink is reported before a non-directory.
pub fn parent_shape_problem(parent: &str, is_symlink: bool, is_dir: bool) -> (r: Option<String>)
    ensures
        if is_symlink {
            r matches Some(s) && s@ == "socket parent is a symlink: "@ + parent@
        } else if !is_dir {
            r matches Some(s) && s@ == "socket parent is not a directory: "@ + parent@
        } else {
            r is None
        },
{
    if is_symlink {
        let mut s = String::new();
        push_str(&mut s, "socket parent is a symlink: ");
        push_str(&mut s, parent);
        return Some(s);
    }
    if !is_dir {
        let mut s = String::new();
        push_str(&mut s, "socket parent is not a directory: ");
        push_str(&mut s, parent);
        return Some(s);
    }
    None
}

/// The octal rendering of `n` without leading zeros.
pub open spec fn octal_seq(n: nat) -> Seq<char>
    decreases n,
{
    if n < 8 {
        seq![(48 + n) as char]
    } else {
        octal_seq(n / 8).push((48 + n % 8) as char)
    }
}

fn push_octal(out: &mut String, n: u32)
    ensures
        final(out)@ == old(out)@ + octal_seq(n as nat),
    decreases n,
{
    if n >= 8 {
        push_octal(out, n / 8);
    }
    let d: u32 = n % 8;
    let c: char = if d == 0 {
        '0'
    } else if d == 1 {
        '1'
    } else if d == 2 {
        '2'
    } else if d == 3 {
        '3'
    } else if d == 4 {
        '4'
    } else if d == 5 {
        '5'
    } else if d == 6 {
        '6'
    } else {
        '7'
    };
    push_char(out, c);
    assert(octal_seq(n as nat) == if n < 8 {
        seq![(48 + n) as char]
    } else {
        octal_seq((n / 8) as nat).push((48 + n % 8) as char)
    });
}

/// The error text when the parent's permission bits are not exactly
/// `0700`, with the found bits in octal.
pub fn parent_mode_problem(parent: &str, mode: u32) -> (r: Option<String>)
    ensures
        mode % 512 == 448 ==> r is None,
        mode % 512 != 448 ==> (r matches Some(s) && s@ == "socket parent "@ + parent@
            + " must have mode 0700 (found "@ + octal_seq((mode % 512) as nat) + ")"@),
{
    let bits = mode % 512;
    if bits == 448 {
        return None;
    }
    let mut s = String::new();
    push_str(&mut s, "socket parent ");
    push_str(&mut s, parent);
    push_str(&mut s, " must have mode 0700 (found ");
    push_octal(&mut s, bits);
    push_str(&mut s, ")");
    Some(s)
}

/// The error text when the parent does not resolve to the canonical path
/// the checks were made on.
pub fn canonical_identity_problem(canonical_parent: &str, resolved_parent: &str) -> (r: Option<
    String,
>)
    ensures
        canonical_parent@ == resolved_parent@ ==> r is None,
        canonical_parent@ != resolved_parent@ ==> (r matches Some(s) && s@
            == "socket parent canonical identity mismatch: expected "@ + canonical_parent@
            + ", got "@ + resolved_parent@),
{
    if str_eq(canonical_parent, resolved_parent) {
        return None;
    }
    let mut s = String::new();
    push_str(&mut s, "socket parent canonical identity mismatch: expected ");
    push_str(&mut s, canonical_parent);
    push_str(&mut s, ", got ");
    push_str(&mut s, resolved_parent);
    Some(s)
}

/// A symlinked ancestor that the host system is known to ship: on Linux
/// `/var/run` → `/run` and `/var/lock` → `/run/lock`, each only when it
/// resolves to that target.
pub open spec fn vetted_system_symlink(path: Seq<char>, resolved: Option<Seq<char>>) -> bool {
    (path == "/var/run"@ && resolved == Some("/run"@)) || (path == "/var/lock"@ && resolved
        == Some("/run/lock"@))
}

/// Whether a symlinked ancestor is allowed, given where it resolves to
/// (`None` when it does not resolve).
pub fn allowed_system_symlink_ancestor(path: &str, resolved: Option<&str>) -> (r: bool)
    ensures
        r == vetted_system_symlink(path@, match resolved {
            Some(t) => Some(t@),
            None => None,
        }),
{
    match resolved {
        None => false,
        Some(target) => (str_eq(path, "/var/run") && str_eq(target, "/run")) || (str_eq(
            path,
            "/var/lock",
        ) && str_eq(target, "/run/lock")),
    }
}

/// What a probe found at a path.
#[derive(Debug, Clone, Copy, PartialEq, Eq)]
pub enum FileKind {
    /// A Unix socket.
    Socket,
    /// A symbolic link.
    Symlink,
    /// A regular file.
    Regular,
    /// A directory.
    Directory,
    /// A FIFO.
    Fifo,
    /// A block device.
    BlockDevice,
    /// A character device.
    CharDevice,
}

/// How a file kind is named in errors.
pub open spec fn file_kind_name(k: FileKind) -> Seq<char> {
    match k {
        FileKind::Regular => "regular file"@,
        FileKind::Directory => "directory"@,
        FileKind::Fifo => "FIFO"@,
        FileKind::BlockDevice => "block device"@,
        FileKind::CharDevice => "character device"@,
        _ => "non-socket filesystem object"@,
    }
}

/// How a file kind is named in errors.
pub fn describe_file_type(k: FileKind) -> (s: &'static str)
    ensures
        s@ == file_kind_name(k),
{
    match k {
        FileKind::Regular => "regular file",
        FileKind::Directory => "directory",
        FileKind::Fifo => "FIFO",
        FileKind::BlockDevice => "block device",
        FileKind::CharDevice => "character device",
        _ => "non-socket filesystem object",
    }
}

/// The client's advisory target check: a missing path, a socket or a
/// symlink pass; anything else is named in the error text.
pub fn client_target_problem(path: &str, found: Option<FileKind>) -> (r: Option<String>)
    ensures
        match found {
            None => r is None,
            Some(k) => if k is Socket || k is Symlink {
                r is None
            } else {
                r matches Some(s) && s@ == "socket path is not a Unix socket (is "@
                    + file_kind_name(k) + "): "@ + path@
            },
        },
{
    match found {
        None => None,
        Some(FileKind::Socket) | Some(FileKind::Symlink) => None,
        Some(k) => {
            let mut s = String::new();
            push_str(&mut s, "socket path is not a Unix socket (is ");
            push_str(&mut s, describe_file_type(k));
            push_str(&mut s, "): ");
            push_str(&mut s, path);
            Some(s)
        },
    }
}

/// What binding does with whatever already sits at the socket path.
#[derive(Debug, Clone, Copy, PartialEq, Eq)]
pub enum StaleSocketAction {
    /// Nothing is there.
    Nothing,
    /// A stale socket: remove it.
    Remove,
    /// Something else: refuse to bind.
    Refuse,
}

/// A socket is removed, nothing is left alone, anything else refuses.
pub fn stale_socket_action(found: Option<FileKind>) -> (a: StaleSocketAction)
    ensures
        a == match found {
            None => StaleSocketAction::Nothing,
            Some(FileKind::Socket) => StaleSocketAction::Remove,
            Some(_) => StaleSocketAction::Refuse,
        },
{
    match found {
        None => StaleSocketAction::Nothing,
        Some(FileKind::Socket) => StaleSocketAction::Remove,
        Some(_) => StaleSocketAction::Refuse,
    }
}

/// What creating the missing parent segments does at one segment.
#[derive(Debug, Clone, Copy, PartialEq, Eq)]
pub enum SegmentAction {
    /// The segment is missing: create it with mode `0700`.
    Create,
    /// The segment is an existing directory: go on.
    Keep,
}

/// The decision at one missing-parent segment: missing is created, a real
/// directory is kept, a symlink or a non-directory is an error (text).
pub fn segment_action(segment: &str, found: Option<FileKind>) -> (r: Result<SegmentAction, String>)
    ensures
        match found {
            None => r == Ok::<SegmentAction, String>(SegmentAction::Create),
            Some(FileKind::Directory) => r == Ok::<SegmentAction, String>(SegmentAction::Keep),
            Some(FileKind::Symlink) => r matches Err(s) && s@ == "socket parent segment is a symlink: "@
                + segment@,
            Some(_) => r matches Err(s) && s@ == "socket parent segment is not a directory: "@
                + segment@,
        },
{
    match found {
        None => Ok(SegmentAction::Create),
        Some(FileKind::Directory) => Ok(SegmentAction::Keep),
        Some(FileKind::Symlink) => {
            let mut s = String::new();
            push_str(&mut s, "socket parent segment is a symlink: ");
            push_str(&mut s, segment);
            Err(s)
        },
        Some(_) => {
            let mut s = String::new();
            push_str(&mut s, "socket parent segment is not a directory: ");
            push_str(&mut s, segment);
            Err(s)
        },
    }
}

/// `c` is a named path component: non-empty, without `/`, and not `.`.
pub open spec fn is_named_component(c: Seq<char>) -> bool {
    c.len() > 0 && !c.contains('/') && c != "."@
}

/// No `/` in `s[a..b]`.
pub open spec fn slash_free(s: Seq<char>, a: int, b: int) -> bool {
    forall|k: int| a <= k < b ==> s[k] != '/'
}

proof fn lemma_kept_segment_named(s: Seq<char>)
    requires
        !s.contains('/'),
    ensures
        forall|j: int| 0 <= j < kept_segment(s).len() ==> is_named_component(#[trigger] kept_segment(s)[j]),
{
}

proof fn lemma_components_from_named(p: Seq<char>, i: int, start: int, acc: Seq<Seq<char>>)
    requires
        0 <= start <= i <= p.len(),
        slash_free(p, start, i),
        forall|j: int| 0 <= j < acc.len() ==> is_named_component(#[trigger] acc[j]),
    ensures
        forall|j: int|
            0 <= j < components_from(p, i, start, acc).len() ==> is_named_component(
                #[trigger] components_from(p, i, start, acc)[j],
            ),
    decreases p.len() - i,
{
    if i >= p.len() {
        let seg = p.subrange(start, p.len() as int);
        assert(!seg.contains('/')) by {
            if seg.contains('/') {
                let w = choose|w: int| 0 <= w < seg.len() && seg[w] == '/';
                assert(p[start + w] == '/');
            }
        }
        lemma_kept_segment_named(seg);
        let r = acc + kept_segment(seg);
        assert(components_from(p, i, start, acc) == r);
        assert forall|j: int| 0 <= j < r.len() implies is_named_component(#[trigger] r[j]) by {
            if j >= acc.len() {
                assert(r[j] == kept_segment(seg)[j - acc.len()]);
            }
        }
    } else if p[i] == '/' {
        let seg = p.subrange(start, i);
        assert(!seg.contains('/')) by {
            if seg.contains('/') {
                let w = choose|w: int| 0 <= w < seg.len() && seg[w] == '/';
                assert(p[start + w] == '/');
            }
        }
        lemma_kept_segment_named(seg);
        let acc2 = acc + kept_segment(seg);
        assert forall|j: int| 0 <= j < acc2.len() implies is_named_component(#[trigger] acc2[j]) by {
            if j >= acc.len() {
                assert(acc2[j] == kept_segment(seg)[j - acc.len()]);
            }
        }
        lemma_components_from_named(p, i + 1, i + 1, acc2);
        assert(components_from(p, i, start, acc) == components_from(p, i + 1, i + 1, acc2));
    } else {
        lemma_components_from_named(p, i + 1, start, acc);
        assert(components_from(p, i, start, acc) == components_from(p, i + 1, start, acc));
    }
}

/// Every component of a path is named.
pub proof fn lemma_path_components_named(p: Seq<char>)
    ensures
        forall|j: int|
            0 <= j < path_components(p).len() ==> is_named_component(#[trigger] path_components(p)[j]),
{
    lemma_components_from_named(p, 0, 0, Seq::empty());
}

proof fn lemma_components_tail_free(s: Seq<char>, i: int, start: int, acc: Seq<Seq<char>>)
    requires
        0 <= start <= i <= s.len(),
        slash_free(s, i, s.len() as int),
    ensures
        components_from(s, i, start, acc) == acc + kept_segment(s.subrange(start, s.len() as int)),
    decreases s.len() - i,
{
    if i < s.len() {
        lemma_components_tail_free(s, i + 1, start, acc);
    }
}

proof fn lemma_components_append_after_slash(
    p: Seq<char>,
    q: Seq<char>,
    i: int,
    start: int,
    acc: Seq<Seq<char>>,
)
    requires
        p.len() > 0 && p[p.len() - 1] == '/',
        !q.contains('/'),
        0 <= start <= i <= p.len(),
        i == p.len() ==> start == i,
    ensures
        components_from(p + q, i, start, acc) == components_from(p, i, start, acc) + kept_segment(q),
    decreases p.len() - i,
{
    let s = p + q;
    if i == p.len() {
        assert forall|k: int| i <= k < s.len() implies s[k] != '/' by {
            assert(s[k] == q[k - p.len()]);
        }
        lemma_components_tail_free(s, i, start, acc);
        assert(s.subrange(start, s.len() as int) =~= q);
        assert(p.subrange(start, p.len() as int) =~= Seq::<char>::empty());
        assert(kept_segment(Seq::<char>::empty()) =~= Seq::<Seq<char>>::empty());
    } else {
        assert(s[i] == p[i]);
        if p[i] == '/' {
            assert(s.subrange(start, i) =~= p.subrange(start, i));
            lemma_components_append_after_slash(p, q, i + 1, i + 1, acc + kept_segment(p.subrange(start, i)));
        } else {
            lemma_components_append_after_slash(p, q, i + 1, start, acc);
        }
    }
}

proof fn lemma_components_trailing_slash(b: Seq<char>, i: int, start: int, acc: Seq<Seq<char>>)
    requires
        0 <= start <= i <= b.len(),
    ensures
        components_from(b + "/"@, i, start, acc) == components_from(b, i, start, acc),
    decreases b.len() - i,
{
    let s = b + "/"@;
    assert(s.len() == b.len() + 1 && s[b.len() as int] == '/') by {
        reveal_strlit("/");
    }
    if i == b.len() {
        assert(s.subrange(start, i) =~= b.subrange(start, b.len() as int));
        assert(s.subrange(i + 1, s.len() as int) =~= Seq::<char>::empty());
        assert(kept_segment(Seq::<char>::empty()) =~= Seq::<Seq<char>>::empty());
        let acc2 = acc + kept_segment(b.subrange(start, i));
        assert(components_from(s, i + 1, i + 1, acc2) == acc2 + kept_segment(
            s.subrange(i + 1, s.len() as int),
        ));
        assert(acc2 + Seq::<Seq<char>>::empty() =~= acc2);
    } else {
        assert(s[i] == b[i]);
        if b[i] == '/' {
            assert(s.subrange(start, i) =~= b.subrange(start, i));
            lemma_components_trailing_slash(b, i + 1, i + 1, acc + kept_segment(b.subrange(start, i)));
        } else {
            lemma_components_trailing_slash(b, i + 1, start, acc);
        }
    }
}

/// Pushing a named component adds exactly that component, and keeps
/// whether the path is absolute.
pub proof fn lemma_push_component(base: Seq<char>, part: Seq<char>)
    requires
        is_named_component(part),
    ensures
        path_components(push_component(base, part)) == path_components(base).push(part),
        is_absolute_path(push_component(base, part)) == is_absolute_path(base),
{
    reveal_strlit("/");
    reveal_strlit(".");
    let kept = kept_segment(part);
    assert(kept =~= seq![part]);
    if base.len() > 0 && base[base.len() - 1] != '/' {
        let p = base + "/"@;
        assert(p.len() > 0 && p[p.len() - 1] == '/');
        lemma_components_append_after_slash(p, part, 0, 0, Seq::empty());
        lemma_components_trailing_slash(base, 0, 0, Seq::empty());
        assert(push_component(base, part) == p + part);
        assert((p + part)[0] == base[0]);
    } else if base.len() > 0 {
        lemma_components_append_after_slash(base, part, 0, 0, Seq::empty());
        assert((base + part)[0] == base[0]);
    } else {
        assert(base + part =~= part);
        lemma_components_tail_free(part, 0, 0, Seq::empty());
        assert(part.subrange(0, part.len() as int) =~= part);
        assert(part[0] != '/');
    }
}

/// Pushing named components in turn adds exactly them, in order, and
/// keeps whether the path is absolute.
pub proof fn lemma_joined_path(base: Seq<char>, parts: Seq<Seq<char>>)
    requires
        forall|j: int| 0 <= j < parts.len() ==> is_named_component(#[trigger] parts[j]),
    ensures
        path_components(joined_path(base, parts)) == path_components(base) + parts,
        is_absolute_path(joined_path(base, parts)) == is_absolute_path(base),
    decreases parts.len(),
{
    if parts.len() == 0 {
        assert(path_components(base) + parts =~= path_components(base));
    } else {
        let init = parts.drop_last();
        assert forall|j: int| 0 <= j < init.len() implies is_named_component(#[trigger] init[j]) by {
            assert(init[j] == parts[j]);
        }
        lemma_joined_path(base, init);
        assert(is_named_component(parts[parts.len() - 1]));
        lemma_push_component(joined_path(base, init), parts.last());
        assert((path_components(base) + init).push(parts.last()) =~= path_components(base) + parts);
    }
}

/// The components below the existing ancestor join back to the parent:
/// each is a single named component other than `..`, and pushing them in
/// turn onto `start` gives a path with the same components as `parent`,
/// absolute exactly when `parent` is.
pub proof fn lemma_relative_components_join_back(parent: Seq<char>, start: Seq<char>)
    requires
        relative_components_spec(parent, start) is Ok,
    ensures
        ({
            let parts = relative_components_spec(parent, start)->Ok_0;
            &&& forall|j: int|
                0 <= j < parts.len() ==> is_named_component(#[trigger] parts[j]) && parts[j]
                    != ".."@
            &&& path_components(joined_path(start, parts)) == path_components(parent)
            &&& is_absolute_path(joined_path(start, parts)) == is_absolute_path(parent)
        }),
{
    let parts = relative_components_spec(parent, start)->Ok_0;
    let pc = path_components(parent);
    let sc = path_components(start);
    lemma_path_components_named(parent);
    if pc == sc && is_absolute_path(parent) == is_absolute_path(start) {
        assert(parts.len() == 0);
    } else {
        assert(parts == pc.skip(sc.len() as int));
        assert forall|j: int| 0 <= j < parts.len() implies is_named_component(#[trigger] parts[j])
            && parts[j] != ".."@ by {
            assert(parts[j] == pc[j + sc.len()]);
            if parts[j] == ".."@ {
                assert(pc.skip(sc.len() as int).contains(".."@));
            }
        }
        assert(sc + parts =~= pc) by {
            assert(pc.take(sc.len() as int) == sc);
        }
    }
    lemma_joined_path(start, parts);
    if parts.len() == 0 {
        assert(sc + parts =~= sc);
    }
}

/// When the parent lies under its existing ancestor: exactly when both
/// paths are absolute or both relative, the ancestor's components are a
/// prefix of the parent's, and no remaining component is `..`. Equal paths
/// give no components to create.
pub proof fn lemma_relative_components_ok_iff(parent: Seq<char>, start: Seq<char>)
    ensures
        ({
            let pc = path_components(parent);
            let sc = path_components(start);
            &&& relative_components_spec(parent, start) is Ok <==> (is_absolute_path(parent)
                == is_absolute_path(start) && sc.len() <= pc.len() && pc.take(sc.len() as int)
                == sc && !pc.skip(sc.len() as int).contains(".."@))
            &&& (is_absolute_path(parent) == is_absolute_path(start) && pc == sc)
                ==> relative_components_spec(parent, start) == Ok::<Seq<Seq<char>>, Seq<char>>(
                Seq::empty(),
            )
        }),
{
    let pc = path_components(parent);
    let sc = path_components(start);
    if pc == sc {
        assert(pc.take(sc.len() as int) =~= sc);
        assert(pc.skip(sc.len() as int) =~= Seq::<Seq<char>>::empty());
    }
}

} // verus!
