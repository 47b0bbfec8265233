//! Fast lexical probe for a leading `"type"` key.
//!
//! Only the first 8 KiB of a payload are looked at, and only when that
//! prefix ends on a character boundary. The probe accepts `{`, then the
//! key `"type"`, then `:`, then a string value, with JSON whitespace
//! between them; strings must not contain escapes. Anything else yields
//! nothing, and the full decoder decides.

use crate::text::{copy_range, utf8_to_string};
use vstd::prelude::*;
use vstd::string::StringSliceAdditionalSpecFns;
use vstd::utf8::{decode_utf8, is_char_boundary, valid_utf8};

verus! {

/// Fast lexical probe window for top-level `"type"` extraction (8 KiB).
pub const FAST_TYPE_PROBE_SCAN_BYTES: usize = 8192;

/// JSON / ASCII whitespace: space, tab, line feed, form feed, carriage
/// return.
pub open spec fn is_ascii_ws(x: u8) -> bool {
    x == 32 || x == 9 || x == 10 || x == 12 || x == 13
}

/// The first index at or after `i`, below `n`, that is not whitespace
/// (or `n`).
pub open spec fn ws_end(b: Seq<u8>, n: int, i: int) -> int
    decreases n - i,
{
    if i < n && is_ascii_ws(b[i]) {
        ws_end(b, n, i + 1)
    } else {
        i
    }
}

/// Scanning from `j` for a closing quote below `n`: its index, or `None`
/// when a backslash comes first or no quote does.
pub open spec fn quote_scan(b: Seq<u8>, n: int, j: int) -> Option<int>
    decreases n - j,
{
    if j >= n {
        None
    } else if b[j] == 34 {
        Some(j)
    } else if b[j] == 92 {
        None
    } else {
        quote_scan(b, n, j + 1)
    }
}

/// The content bounds of an escape-free string starting at `i`.
pub open spec fn string_bounds(b: Seq<u8>, n: int, i: int) -> Option<(int, int)> {
    if 0 <= i < n && b[i] == 34 {
        match quote_scan(b, n, i + 1) {
            Some(z) => Some((i + 1, z)),
            None => None,
        }
    } else {
        None
    }
}

/// The bytes of `type`.
pub open spec fn type_key_bytes() -> Seq<u8> {
    seq![116u8, 121u8, 112u8, 101u8]
}

/// The window the probe looks at.
pub open spec fn scan_window(len: int) -> int {
    if len < FAST_TYPE_PROBE_SCAN_BYTES {
        len
    } else {
        FAST_TYPE_PROBE_SCAN_BYTES as int
    }
}

/// The bounds of the `type` value the probe finds in the UTF-8 bytes `b`.
pub open spec fn probe_spec(b: Seq<u8>) -> Option<(int, int)> {
    let n = scan_window(b.len() as int);
    if !is_char_boundary(b, n) {
        None
    } else {
        let i0 = ws_end(b, n, 0);
        if !(i0 < n && b[i0] == 123) {
            None
        } else {
            match string_bounds(b, n, ws_end(b, n, i0 + 1)) {
                None => None,
                Some((ka, kz)) => if b.subrange(ka, kz) != type_key_bytes() {
                    None
                } else {
                    let i2 = ws_end(b, n, kz + 1);
                    if !(i2 < n && b[i2] == 58) {
                        None
                    } else {
                        match string_bounds(b, n, ws_end(b, n, i2 + 1)) {
                            None => None,
                            Some((va, vz)) => if valid_utf8(b.subrange(va, vz)) {
                                Some((va, vz))
                            } else {
                                None
                            },
                        }
                    }
                },
            }
        }
    }
}

/// Skips ASCII whitespace in `bytes[i..n]`.
pub fn skip_ws(bytes: &[u8], n: usize, i: usize) -> (r: usize)
    requires
        i <= n <= bytes@.len(),
    ensures
        r == ws_end(bytes@, n as int, i as int),
        i <= r <= n,
    decreases n - i,
{
    let mut j = i;
    while j < n && (bytes[j] == 32 || bytes[j] == 9 || bytes[j] == 10 || bytes[j] == 12 || bytes[j]
        == 13)
        invariant
            i <= j <= n <= bytes@.len(),
            ws_end(bytes@, n as int, i as int) == ws_end(bytes@, n as int, j as int),
        decreases n - j,
    {
        j = j + 1;
    }
    j
}

/// Locates an escape-free JSON string starting at `i` in `bytes[..n]`:
/// the bounds of its content.
pub fn parse_simple_json_string(bytes: &[u8], n: usize, i: usize) -> (r: Option<(usize, usize)>)
    requires
        n <= bytes@.len(),
    ensures
        match string_bounds(bytes@, n as int, i as int) {
            Some((a, z)) => r == Some((a as usize, z as usize)) && a <= z < n,
            None => r is None,
        },
{
    if i >= n || bytes[i] != 34 {
        return None;
    }
    let mut idx = i + 1;
    while idx < n
        invariant
            i < idx <= n <= bytes@.len(),
            bytes@[i as int] == 34,
            quote_scan(bytes@, n as int, i + 1) == quote_scan(bytes@, n as int, idx as int),
        decreases n - idx,
    {
        if bytes[idx] == 34 {
            return Some((i + 1, idx));
        }
        if bytes[idx] == 92 {
            return None;
        }
        idx = idx + 1;
    }
    None
}

/// Extracts a top-level `"type"` value when `"type"` is the first key of
/// the object, by lexical scanning only.
pub fn probe_first_type_field(text: &str) -> (r: Option<String>)
    ensures
        match probe_spec(text.spec_bytes()) {
            Some((a, z)) => r matches Some(s) && s@ == decode_utf8(text.spec_bytes().subrange(a, z)),
            None => r is None,
        },
{
    let bytes = text.as_bytes();
    let len = bytes.len();
    let n = if len < FAST_TYPE_PROBE_SCAN_BYTES {
        len
    } else {
        FAST_TYPE_PROBE_SCAN_BYTES
    };
    if !text.is_char_boundary(n) {
        return None;
    }
    let i0 = skip_ws(bytes, n, 0);
    if i0 >= n || bytes[i0] != 123 {
        return None;
    }
    let i1 = skip_ws(bytes, n, i0 + 1);
    let (ka, kz) = match parse_simple_json_string(bytes, n, i1) {
        Some(bounds) => bounds,
        None => return None,
    };
    let is_type = kz - ka == 4 && bytes[ka] == 116 && bytes[ka + 1] == 121 && bytes[ka + 2] == 112
        && bytes[ka + 3] == 101;
    proof {
        let k = bytes@.subrange(ka as int, kz as int);
        if is_type {
            assert(k =~= type_key_bytes());
        } else if kz - ka == 4 {
            if bytes@[ka as int] != 116 {
                assert(k[0] != type_key_bytes()[0]);
            } else if bytes@[ka + 1] != 121 {
                assert(k[1] != type_key_bytes()[1]);
            } else if bytes@[ka + 2] != 112 {
                assert(k[2] != type_key_bytes()[2]);
            } else {
                assert(k[3] != type_key_bytes()[3]);
            }
        } else {
            assert(k.len() != type_key_bytes().len());
        }
    }
    if !is_type {
        return None;
    }
    let i2 = skip_ws(bytes, n, kz + 1);
    if i2 >= n || bytes[i2] != 58 {
        return None;
    }
    let i3 = skip_ws(bytes, n, i2 + 1);
    let (va, vz) = match parse_simple_json_string(bytes, n, i3) {
        Some(bounds) => bounds,
        None => return None,
    };
    utf8_to_string(copy_range(bytes, va, vz))
}

proof fn lemma_ws_end_bounds(b: Seq<u8>, n: int, i: int)
    ensures
        i <= n ==> i <= ws_end(b, n, i) <= n,
        i > n ==> ws_end(b, n, i) == i,
    decreases n - i,
{
    if i < n && is_ascii_ws(b[i]) {
        lemma_ws_end_bounds(b, n, i + 1);
    }
}

proof fn lemma_ws_end_agree(b1: Seq<u8>, b2: Seq<u8>, n: int, i: int)
    requires
        0 <= i,
        n <= b1.len(),
        n <= b2.len(),
        forall|k: int| 0 <= k < n ==> b1[k] == b2[k],
    ensures
        ws_end(b1, n, i) == ws_end(b2, n, i),
    decreases n - i,
{
    if i < n {
        lemma_ws_end_agree(b1, b2, n, i + 1);
    }
}

proof fn lemma_quote_scan_found(b: Seq<u8>, n: int, j: int)
    requires
        quote_scan(b, n, j) is Some,
    ensures
        ({
            let z = quote_scan(b, n, j)->0;
            &&& j <= z < n
            &&& b[z] == 34
            &&& forall|k: int| j <= k < z ==> b[k] != 34 && b[k] != 92
        }),
    decreases n - j,
{
    if j < n && b[j] != 34 && b[j] != 92 {
        lemma_quote_scan_found(b, n, j + 1);
    }
}

proof fn lemma_quote_scan_agree(b1: Seq<u8>, b2: Seq<u8>, n: int, j: int)
    requires
        0 <= j,
        n <= b1.len(),
        n <= b2.len(),
        forall|k: int| 0 <= k < n ==> b1[k] == b2[k],
    ensures
        quote_scan(b1, n, j) == quote_scan(b2, n, j),
    decreases n - j,
{
    if j < n {
        lemma_quote_scan_agree(b1, b2, n, j + 1);
    }
}

proof fn lemma_string_bounds_found(b: Seq<u8>, n: int, i: int)
    requires
        string_bounds(b, n, i) is Some,
    ensures
        ({
            let (a, z) = string_bounds(b, n, i)->0;
            &&& a == i + 1
            &&& 0 <= i < a <= z < n
            &&& b[i] == 34
            &&& b[z] == 34
            &&& forall|k: int| a <= k < z ==> b[k] != 34 && b[k] != 92
        }),
{
    lemma_quote_scan_found(b, n, i + 1);
}

/// The probe looks at nothing past its window: two payloads with the same
/// window length, the same bytes in the window, and the same answer to
/// whether the window ends on a character boundary, probe alike. So a
/// payload longer than [`FAST_TYPE_PROBE_SCAN_BYTES`] is probed on its
/// first [`FAST_TYPE_PROBE_SCAN_BYTES`] bytes alone.
pub proof fn lemma_probe_reads_only_window(b1: Seq<u8>, b2: Seq<u8>)
    requires
        scan_window(b1.len() as int) == scan_window(b2.len() as int),
        b1.subrange(0, scan_window(b1.len() as int)) == b2.subrange(0, scan_window(b2.len() as int)),
        is_char_boundary(b1, scan_window(b1.len() as int)) == is_char_boundary(
            b2,
            scan_window(b2.len() as int),
        ),
    ensures
        probe_spec(b1) == probe_spec(b2),
{
    let n = scan_window(b1.len() as int);
    assert forall|k: int| 0 <= k < n implies b1[k] == b2[k] by {
        assert(b1.subrange(0, n)[k] == b2.subrange(0, n)[k]);
    }
    if is_char_boundary(b1, n) {
        lemma_ws_end_agree(b1, b2, n, 0);
        lemma_ws_end_bounds(b1, n, 0);
        let i0 = ws_end(b1, n, 0);
        if i0 < n && b1[i0] == 123 {
            lemma_ws_end_agree(b1, b2, n, i0 + 1);
            lemma_ws_end_bounds(b1, n, i0 + 1);
            let i1 = ws_end(b1, n, i0 + 1);
            lemma_quote_scan_agree(b1, b2, n, i1 + 1);
            if string_bounds(b1, n, i1) is Some {
                lemma_string_bounds_found(b1, n, i1);
                let (ka, kz) = string_bounds(b1, n, i1)->0;
                assert(b1.subrange(ka, kz) =~= b2.subrange(ka, kz));
                lemma_ws_end_agree(b1, b2, n, kz + 1);
                lemma_ws_end_bounds(b1, n, kz + 1);
                let i2 = ws_end(b1, n, kz + 1);
                if i2 < n && b1[i2] == 58 {
                    lemma_ws_end_agree(b1, b2, n, i2 + 1);
                    lemma_ws_end_bounds(b1, n, i2 + 1);
                    let i3 = ws_end(b1, n, i2 + 1);
                    lemma_quote_scan_agree(b1, b2, n, i3 + 1);
                    if string_bounds(b1, n, i3) is Some {
                        lemma_string_bounds_found(b1, n, i3);
                        let (va, vz) = string_bounds(b1, n, i3)->0;
                        assert(b1.subrange(va, vz) =~= b2.subrange(va, vz));
                    }
                }
            }
        }
    }
}

/// What the probe returns is the content of an escape-free string literal
/// inside the window: it sits between two quotes, holds neither a quote
/// nor a backslash, and ends before [`FAST_TYPE_PROBE_SCAN_BYTES`].
pub proof fn lemma_probe_value_escape_free(b: Seq<u8>)
    requires
        probe_spec(b) is Some,
    ensures
        ({
            let (a, z) = probe_spec(b)->0;
            &&& 0 < a <= z < scan_window(b.len() as int)
            &&& z < FAST_TYPE_PROBE_SCAN_BYTES
            &&& b[a - 1] == 34
            &&& b[z] == 34
            &&& forall|k: int| a <= k < z ==> b[k] != 34 && b[k] != 92
        }),
{
    let n = scan_window(b.len() as int);
    let i0 = ws_end(b, n, 0);
    let i1 = ws_end(b, n, i0 + 1);
    lemma_ws_end_bounds(b, n, 0);
    lemma_ws_end_bounds(b, n, i0 + 1);
    lemma_string_bounds_found(b, n, i1);
    let (ka, kz) = string_bounds(b, n, i1)->0;
    lemma_ws_end_bounds(b, n, kz + 1);
    let i2 = ws_end(b, n, kz + 1);
    lemma_ws_end_bounds(b, n, i2 + 1);
    lemma_string_bounds_found(b, n, ws_end(b, n, i2 + 1));
}

/// `b[i..j]` is all whitespace.
pub open spec fn ws_between(b: Seq<u8>, i: int, j: int) -> bool {
    0 <= i <= j && forall|k: int| i <= k < j ==> is_ascii_ws(#[trigger] b[k])
}

/// Within the first `n` bytes, `b` opens with optional whitespace, `{`,
/// optional whitespace, the key `"type"`, optional whitespace, `:`,
/// optional whitespace, and a string literal whose content is `b[a..z]`
/// and holds neither a quote nor a backslash.
pub open spec fn leading_type_member(b: Seq<u8>, n: int, a: int, z: int) -> bool {
    exists|i0: int, i1: int, i2: int, i3: int|
        {
            &&& ws_between(b, 0, i0) && i0 < n && #[trigger] b[i0] == 123
            &&& ws_between(b, i0 + 1, i1) && i1 + 6 <= n && #[trigger] b[i1] == 34
            &&& b.subrange(i1 + 1, i1 + 5) == type_key_bytes() && b[i1 + 5] == 34
            &&& ws_between(b, i1 + 6, i2) && i2 < n && #[trigger] b[i2] == 58
            &&& ws_between(b, i2 + 1, i3) && i3 < n && #[trigger] b[i3] == 34
            &&& a == i3 + 1 && a <= z < n && b[z] == 34
            &&& forall|k: int| a <= k < z ==> b[k] != 34 && b[k] != 92
        }
}

proof fn lemma_ws_end_props(b: Seq<u8>, n: int, i: int)
    requires
        0 <= i <= n,
    ensures
        ws_between(b, i, ws_end(b, n, i)),
        ws_end(b, n, i) <= n,
        ws_end(b, n, i) < n ==> !is_ascii_ws(b[ws_end(b, n, i)]),
    decreases n - i,
{
    if i < n && is_ascii_ws(b[i]) {
        lemma_ws_end_props(b, n, i + 1);
    }
}

proof fn lemma_ws_end_is(b: Seq<u8>, n: int, i: int, j: int)
    requires
        j < n,
        ws_between(b, i, j),
        !is_ascii_ws(b[j]),
    ensures
        ws_end(b, n, i) == j,
    decreases j - i,
{
    if i < j {
        lemma_ws_end_is(b, n, i + 1, j);
    }
}

proof fn lemma_quote_scan_is(b: Seq<u8>, n: int, j: int, z: int)
    requires
        j <= z < n,
        b[z] == 34,
        forall|k: int| j <= k < z ==> b[k] != 34 && b[k] != 92,
    ensures
        quote_scan(b, n, j) == Some(z),
    decreases z - j,
{
    if j < z {
        lemma_quote_scan_is(b, n, j + 1, z);
    }
}

proof fn lemma_probe_layout_forward(b: Seq<u8>, a: int, z: int)
    requires
        probe_spec(b) == Some((a, z)),
    ensures
        is_char_boundary(b, scan_window(b.len() as int)),
        leading_type_member(b, scan_window(b.len() as int), a, z),
        valid_utf8(b.subrange(a, z)),
{
    let n = scan_window(b.len() as int);
    lemma_ws_end_props(b, n, 0);
    let i0 = ws_end(b, n, 0);
    lemma_ws_end_props(b, n, i0 + 1);
    let i1 = ws_end(b, n, i0 + 1);
    lemma_string_bounds_found(b, n, i1);
    let (ka, kz) = string_bounds(b, n, i1)->0;
    assert(b.subrange(ka, kz) == type_key_bytes());
    assert(type_key_bytes().len() == 4);
    assert(b.subrange(ka, kz).len() == kz - ka);
    assert(kz == i1 + 5);
    lemma_ws_end_props(b, n, kz + 1);
    let i2 = ws_end(b, n, kz + 1);
    lemma_ws_end_props(b, n, i2 + 1);
    let i3 = ws_end(b, n, i2 + 1);
    lemma_string_bounds_found(b, n, i3);
    assert(b[i0] == 123 && b[i1] == 34 && b[i2] == 58 && b[i3] == 34);
}

proof fn lemma_probe_layout_backward(b: Seq<u8>, a: int, z: int, i0: int, i1: int, i2: int, i3: int)
    requires
        is_char_boundary(b, scan_window(b.len() as int)),
        valid_utf8(b.subrange(a, z)),
        ({
            let n = scan_window(b.len() as int);
            &&& ws_between(b, 0, i0) && i0 < n && b[i0] == 123
            &&& ws_between(b, i0 + 1, i1) && i1 + 6 <= n && b[i1] == 34
            &&& b.subrange(i1 + 1, i1 + 5) == type_key_bytes() && b[i1 + 5] == 34
            &&& ws_between(b, i1 + 6, i2) && i2 < n && b[i2] == 58
            &&& ws_between(b, i2 + 1, i3) && i3 < n && b[i3] == 34
            &&& a == i3 + 1 && a <= z < n && b[z] == 34
            &&& forall|k: int| a <= k < z ==> b[k] != 34 && b[k] != 92
        }),
    ensures
        probe_spec(b) == Some((a, z)),
{
    let n = scan_window(b.len() as int);
    lemma_ws_end_is(b, n, 0, i0);
    lemma_ws_end_is(b, n, i0 + 1, i1);
    assert forall|k: int| i1 + 1 <= k < i1 + 5 implies b[k] != 34 && b[k] != 92 by {
        assert(b.subrange(i1 + 1, i1 + 5)[k - i1 - 1] == type_key_bytes()[k - i1 - 1]);
    }
    lemma_quote_scan_is(b, n, i1 + 1, i1 + 5);
    lemma_ws_end_is(b, n, i1 + 6, i2);
    lemma_ws_end_is(b, n, i2 + 1, i3);
    lemma_quote_scan_is(b, n, i3 + 1, z);
}

/// The probe finds exactly a leading `type` member: it answers the bounds
/// `(a, z)` if and only if the window ends on a character boundary, its
/// first member is the key `type` with an escape-free string value whose
/// content is `b[a..z]`, and that content is valid UTF-8. So a payload
/// whose first key is another one, or whose key or value holds an escape,
/// is not probed.
pub proof fn lemma_probe_finds_leading_type_member(b: Seq<u8>, a: int, z: int)
    ensures
        probe_spec(b) == Some((a, z)) <==> ({
            let n = scan_window(b.len() as int);
            &&& is_char_boundary(b, n)
            &&& leading_type_member(b, n, a, z)
            &&& valid_utf8(b.subrange(a, z))
        }),
{
    let n = scan_window(b.len() as int);
    if probe_spec(b) == Some((a, z)) {
        lemma_probe_layout_forward(b, a, z);
    }
    if is_char_boundary(b, n) && leading_type_member(b, n, a, z) && valid_utf8(b.subrange(a, z)) {
        let (i0, i1, i2, i3) = choose|i0: int, i1: int, i2: int, i3: int|
            {
                &&& ws_between(b, 0, i0) && i0 < n && #[trigger] b[i0] == 123
                &&& ws_between(b, i0 + 1, i1) && i1 + 6 <= n && #[trigger] b[i1] == 34
                &&& b.subrange(i1 + 1, i1 + 5) == type_key_bytes() && b[i1 + 5] == 34
                &&& ws_between(b, i1 + 6, i2) && i2 < n && #[trigger] b[i2] == 58
                &&& ws_between(b, i2 + 1, i3) && i3 < n && #[trigger] b[i3] == 34
                &&& a == i3 + 1 && a <= z < n && b[z] == 34
                &&& forall|k: int| a <= k < z ==> b[k] != 34 && b[k] != 92
            };
        lemma_probe_layout_backward(b, a, z, i0, i1, i2, i3);
    }
}

} // verus!
