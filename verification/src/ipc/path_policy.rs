//! Lexical policy for Unix socket paths, shared by server and client.
//!
//! A socket path must be absolute (start with `/`) and must not contain a
//! `.` or `..` segment anywhere, including after repeated separators. The
//! check looks at the text only: it does not touch the filesystem.

use crate::ipc::error::IpcError;
use crate::text::{chars_of, push_str};
use vstd::prelude::*;

verus! {

/// The path text is absolute.
pub open spec fn is_absolute_path(p: Seq<char>) -> bool {
    p.len() > 0 && p[0] == '/'
}

/// `p[i..j]` is a whole `/`-separated segment.
pub open spec fn is_segment(p: Seq<char>, i: int, j: int) -> bool {
    &&& 0 <= i <= j <= p.len()
    &&& (i == 0 || p[i - 1] == '/')
    &&& (j == p.len() || p[j] == '/')
    &&& forall|k: int| i <= k < j ==> p[k] != '/'
}

/// Some segment of `p` is `.` or `..`.
pub open spec fn has_traversal_segment(p: Seq<char>) -> bool {
    exists|i: int, j: int|
        #![trigger is_segment(p, i, j)]
        is_segment(p, i, j) && (p.subrange(i, j) == "."@ || p.subrange(i, j) == ".."@)
}

/// What is wrong with a socket path, if anything: not absolute is
/// reported before a traversal segment.
pub open spec fn socket_path_problem_spec(p: Seq<char>) -> Option<Seq<char>> {
    if !is_absolute_path(p) {
        Some("socket path must be absolute: "@ + p)
    } else if has_traversal_segment(p) {
        Some("socket path must not contain traversal component `.` or `..`: "@ + p)
    } else {
        None
    }
}

fn segment_is_dot(cs: &Vec<char>, start: usize, end: usize) -> (r: bool)
    requires
        start <= end <= cs@.len(),
    ensures
        r == (cs@.subrange(start as int, end as int) == "."@ || cs@.subrange(start as int, end as int)
            == ".."@),
{
    let len = end - start;
    let r = (len == 1 && cs[start] == '.') || (len == 2 && cs[start] == '.' && cs[start + 1] == '.');
    proof {
        reveal_strlit(".");
        reveal_strlit("..");
        let seg = cs@.subrange(start as int, end as int);
        if len == 1 {
            if cs@[start as int] == '.' {
                assert(seg =~= "."@);
            } else {
                assert(seg[0] != "."@[0]);
            }
            assert(seg.len() != ".."@.len());
        } else if len == 2 {
            if cs@[start as int] == '.' && cs@[start + 1] == '.' {
                assert(seg =~= ".."@);
            } else if cs@[start as int] != '.' {
                assert(seg[0] != ".."@[0]);
            } else {
                assert(seg[1] != ".."@[1]);
            }
            assert(seg.len() != "."@.len());
        } else {
            assert(seg.len() != "."@.len());
            assert(seg.len() != ".."@.len());
        }
    }
    r
}

/// Scans `/`-separated segments for `.` or `..`.
pub fn path_contains_explicit_traversal_segment(path: &str) -> (r: bool)
    ensures
        r == has_traversal_segment(path@),
{
    let cs = chars_of(path);
    let n = cs.len();
    let mut start: usize = 0;
    let mut i: usize = 0;
    while i < n
        invariant
            cs@ == path@,
            n == cs@.len(),
            start <= i <= n,
            start == 0 || cs@[start - 1] == '/',
            forall|k: int| start <= k < i ==> cs@[k] != '/',
            forall|a: int, b: int|
                #![trigger is_segment(path@, a, b)]
                is_segment(path@, a, b) && b < i ==> !(path@.subrange(a, b) == "."@
                    || path@.subrange(a, b) == ".."@),
        decreases n - i,
    {
        if cs[i] == '/' {
            let dot = segment_is_dot(&cs, start, i);
            assert(is_segment(path@, start as int, i as int));
            if dot {
                return true;
            }
            proof {
                assert forall|a: int, b: int|
                    #![trigger is_segment(path@, a, b)]
                    is_segment(path@, a, b) && b < i + 1 implies !(path@.subrange(a, b) == "."@
                        || path@.subrange(a, b) == ".."@) by {
                    if b == i {
                        if a < start {
                            assert(path@[start - 1] == '/');
                        } else if a > start {
                            assert(path@[a - 1] == '/');
                        }
                    }
                }
            }
            start = i + 1;
        }
        i = i + 1;
    }
    let dot = segment_is_dot(&cs, start, n);
    assert(is_segment(path@, start as int, n as int));
    proof {
        if !dot {
            assert forall|a: int, b: int|
                #![trigger is_segment(path@, a, b)]
                is_segment(path@, a, b) implies !(path@.subrange(a, b) == "."@ || path@.subrange(
                    a,
                    b,
                ) == ".."@) by {
                if b == n {
                    if a < start {
                        assert(path@[start - 1] == '/');
                    } else if a > start {
                        assert(path@[a - 1] == '/');
                    }
                }
            }
        }
    }
    dot
}

/// The problem with a socket path, as its error text, or `None`.
pub fn socket_path_problem(path: &str) -> (r: Option<String>)
    ensures
        match socket_path_problem_spec(path@) {
            Some(m) => r matches Some(s) && s@ == m,
            None => r is None,
        },
{
    let cs = chars_of(path);
    if cs.len() == 0 || cs[0] != '/' {
        let mut s = String::new();
        push_str(&mut s, "socket path must be absolute: ");
        push_str(&mut s, path);
        return Some(s);
    }
    if path_contains_explicit_traversal_segment(path) {
        let mut s = String::new();
        push_str(&mut s, "socket path must not contain traversal component `.` or `..`: ");
        push_str(&mut s, path);
        return Some(s);
    }
    None
}

/// An I/O error of kind `InvalidInput` carrying `message`.
#[verifier::external_body]
pub(crate) fn invalid_input_error(message: String) -> (e: IpcError)
    ensures
        e is Io,
{
    IpcError::Io(std::io::Error::new(std::io::ErrorKind::InvalidInput, message))
}

/// Validates that `path` is a plausible Unix socket path: absolute, with
/// no `.` or `..` segment. Failures are `InvalidInput` I/O errors whose
/// text [`socket_path_problem`] gives.
pub fn validate_socket_path_shape(path: &str) -> (r: Result<(), IpcError>)
    ensures
        r is Ok <==> socket_path_problem_spec(path@) is None,
        r matches Err(e) ==> e is Io,
{
    match socket_path_problem(path) {
        None => Ok(()),
        Some(message) => Err(invalid_input_error(message)),
    }
}

} // verus!
