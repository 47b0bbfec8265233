//! Protocol version text, local version and compatibility.
//!
//! A protocol version is written `<major>.<minor>`: two non-empty runs of
//! ASCII digits separated by a single `.`, each value fitting in a `u32`.
//! Peers are compatible when their major version equals the local one.

use crate::text::{all_digits, chars_of, digits_value, parse_decimal_u32};
use vstd::prelude::*;

verus! {

/// The protocol version this crate implements.
pub const PROTOCOL_VERSION: &'static str = "1.0";

/// The local major version.
pub const LOCAL_MAJOR: u32 = 1;

/// The local minor version.
pub const LOCAL_MINOR: u32 = 0;

/// `s` splits at index `i` into `<digits>.<digits>`.
pub open spec fn version_split(s: Seq<char>, i: int) -> bool {
    &&& 0 <= i < s.len()
    &&& s[i] == '.'
    &&& all_digits(s.take(i))
    &&& all_digits(s.skip(i + 1))
}

/// `s` is a well-formed version text whose two parts fit in `u32`.
pub open spec fn is_version_text(s: Seq<char>) -> bool {
    exists|i: int|
        #![trigger version_split(s, i)]
        version_split(s, i) && digits_value(s.take(i)) <= u32::MAX && digits_value(s.skip(i + 1))
            <= u32::MAX
}

/// There is at most one split point: digit runs contain no `.`.
pub proof fn lemma_version_split_unique(s: Seq<char>, i: int, j: int)
    requires
        version_split(s, i),
        version_split(s, j),
    ensures
        i == j,
{
    if i < j {
        assert(s.skip(i + 1)[j - i - 1] == s[j]);
    } else if j < i {
        assert(s.skip(j + 1)[i - j - 1] == s[i]);
    }
}

fn find_dot(cs: &Vec<char>) -> (r: Option<usize>)
    ensures
        r matches Some(i) ==> i < cs@.len() && cs@[i as int] == '.' && forall|k: int|
            0 <= k < i ==> cs@[k] != '.',
        r is None ==> forall|k: int| 0 <= k < cs@.len() ==> cs@[k] != '.',
{
    let mut i: usize = 0;
    while i < cs.len()
        invariant
            i <= cs@.len(),
            forall|k: int| 0 <= k < i ==> cs@[k] != '.',
        decreases cs@.len() - i,
    {
        if cs[i] == '.' {
            return Some(i);
        }
        i = i + 1;
    }
    None
}

/// Parses `<major>.<minor>`, returning both parts, or `None` when the
/// text is malformed or a part does not fit in `u32`.
pub fn parse_version_text(value: &str) -> (r: Option<(u32, u32)>)
    ensures
        r is Some <==> is_version_text(value@),
        r matches Some((major, minor)) ==> exists|i: int|
            #![trigger version_split(value@, i)]
            version_split(value@, i) && major as nat == digits_value(value@.take(i)) && minor
                as nat == digits_value(value@.skip(i + 1)),
{
    let cs = chars_of(value);
    let ghost s = value@;
    match find_dot(&cs) {
        None => {
            assert forall|i: int| !version_split(s, i) by {}
            None
        },
        Some(d) => {
            assert(cs@.subrange(0, d as int) == s.take(d as int));
            assert(cs@.subrange(d + 1, cs@.len() as int) == s.skip(d + 1));
            let major = parse_decimal_u32(&cs, 0, d);
            let minor = parse_decimal_u32(&cs, d + 1, cs.len());
            proof {
                assert forall|i: int| version_split(s, i) implies i == d by {
                    if i < d {
                    } else if i > d {
                        assert(s.take(i)[d as int] == '.');
                    }
                }
            }
            match (major, minor) {
                (Some(a), Some(b)) => {
                    assert(version_split(s, d as int));
                    Some((a, b))
                },
                _ => None,
            }
        },
    }
}

/// A protocol version both peers agreed to speak.
#[derive(Debug, Clone, Copy, PartialEq, Eq)]
pub struct NegotiatedProtocolVersion {
    major: u32,
    minor: u32,
}

impl NegotiatedProtocolVersion {
    /// Build a negotiated version from its parts.
    pub fn new(major: u32, minor: u32) -> (v: Self)
        ensures
            v.major_spec() == major,
            v.minor_spec() == minor,
    {
        NegotiatedProtocolVersion { major, minor }
    }

    /// The major part.
    pub closed spec fn major_spec(&self) -> u32 {
        self.major
    }

    /// The minor part.
    pub closed spec fn minor_spec(&self) -> u32 {
        self.minor
    }

    /// The major part.
    pub fn major(&self) -> (m: u32)
        ensures
            m == self.major_spec(),
    {
        self.major
    }

    /// The minor part.
    pub fn minor(&self) -> (m: u32)
        ensures
            m == self.minor_spec(),
    {
        self.minor
    }
}

/// The major version a well-formed version text carries.
pub open spec fn version_major(s: Seq<char>) -> nat {
    let i = choose|i: int| version_split(s, i);
    digits_value(s.take(i))
}

/// The minor version a well-formed version text carries.
pub open spec fn version_minor(s: Seq<char>) -> nat {
    let i = choose|i: int| version_split(s, i);
    digits_value(s.skip(i + 1))
}

/// Whether a peer advertising `peer` can talk to this crate: the text is
/// well formed and its major version equals the local major.
pub open spec fn compatible_spec(peer: Seq<char>) -> bool {
    is_version_text(peer) && version_major(peer) == LOCAL_MAJOR
}

/// Returns `true` when `peer` is a well-formed version with the local
/// major version.
pub fn is_compatible(peer: &str) -> (r: bool)
    ensures
        r == compatible_spec(peer@),
{
    match parse_version_text(peer) {
        Some((major, _)) => {
            proof {
                let i = choose|i: int| version_split(peer@, i);
                let j = choose|j: int|
                    #![trigger version_split(peer@, j)]
                    version_split(peer@, j) && major as nat == digits_value(peer@.take(j));
                lemma_version_split_unique(peer@, i, j);
            }
            major == LOCAL_MAJOR
        },
        None => false,
    }
}

/// Negotiates the version to speak with a peer advertising `peer`: the
/// shared major and the smaller of the two minors, or `None` when the
/// peer is incompatible.
pub fn negotiate(peer: &str) -> (r: Option<NegotiatedProtocolVersion>)
    ensures
        r is Some <==> compatible_spec(peer@),
        r matches Some(v) ==> v.major_spec() == LOCAL_MAJOR && v.minor_spec() as nat == (if version_minor(
            peer@,
        ) < LOCAL_MINOR {
            version_minor(peer@)
        } else {
            LOCAL_MINOR as nat
        }),
{
    match parse_version_text(peer) {
        Some((major, minor)) => {
            proof {
                let i = choose|i: int| version_split(peer@, i);
                let j = choose|j: int|
                    #![trigger version_split(peer@, j)]
                    version_split(peer@, j) && major as nat == digits_value(peer@.take(j))
                        && minor as nat == digits_value(peer@.skip(j + 1));
                lemma_version_split_unique(peer@, i, j);
            }
            if major != LOCAL_MAJOR {
                return None;
            }
            let m = if minor < LOCAL_MINOR {
                minor
            } else {
                LOCAL_MINOR
            };
            Some(NegotiatedProtocolVersion::new(major, m))
        },
        None => None,
    }
}

} // verus!
