//! Layered configuration documents: the deep merge of one layer over
//! another and the placement of environment overrides at nested paths.
//!
//! A document is a tree of tables whose leaves are TOML values; the tree
//! structure is what the layering logic reads, so it is held here as plain
//! data, while the leaves are carried through untouched.

use crate::config::{env_override_path, env_override_spec};
use crate::text::{owned, str_eq};
use vstd::prelude::*;

verus! {

/// toml's value, carried opaquely at the leaves of a configuration tree.
#[verifier::external_type_specification]
#[verifier::external_body]
pub struct ExTomlValue(toml::Value);

/// A configuration document: a table of keyed entries, or a leaf value.
#[derive(Debug)]
pub enum ConfigValue {
    /// A table; its keys are unique.
    Table(Vec<ConfigEntry>),
    /// Any non-table value (string, number, boolean, datetime, array).
    Leaf(toml::Value),
}

/// One keyed entry of a table.
#[derive(Debug)]
pub struct ConfigEntry {
    /// The key.
    pub key: String,
    /// The value under the key.
    pub value: ConfigValue,
}

/// The entries of a table (none for a leaf).
pub open spec fn entries(v: ConfigValue) -> Seq<ConfigEntry> {
    match v {
        ConfigValue::Table(es) => es@,
        ConfigValue::Leaf(_) => Seq::empty(),
    }
}

/// Some entry of `es` has key `k`.
pub open spec fn has_key(es: Seq<ConfigEntry>, k: Seq<char>) -> bool {
    exists|i: int| 0 <= i < es.len() && #[trigger] es[i].key@ == k
}

/// The position of key `k` in `es` (meaningful when `has_key(es, k)`).
pub open spec fn key_index(es: Seq<ConfigEntry>, k: Seq<char>) -> int {
    choose|i: int| 0 <= i < es.len() && #[trigger] es[i].key@ == k
}

/// The value under key `k` in `es` (meaningful when `has_key(es, k)`).
pub open spec fn value_of(es: Seq<ConfigEntry>, k: Seq<char>) -> ConfigValue {
    es[key_index(es, k)].value
}

/// No two entries of `es` share a key.
pub open spec fn unique_keys(es: Seq<ConfigEntry>) -> bool {
    forall|i: int, j: int|
        0 <= i < es.len() && 0 <= j < es.len() && i != j ==> #[trigger] es[i].key@
            != #[trigger] es[j].key@
}

/// Every table in the tree has unique keys, as a TOML document does.
pub open spec fn well_formed(v: ConfigValue) -> bool
    decreases v,
{
    match v {
        ConfigValue::Leaf(_) => true,
        ConfigValue::Table(es) => unique_keys(es@) && forall|i: int|
            0 <= i < es@.len() ==> well_formed(#[trigger] es@[i].value),
    }
}

/// `r` is `overlay` laid over `base`: two tables merge key by key (a key
/// in both merges recursively, a key in one keeps its value); any other
/// pair gives `overlay`.
pub open spec fn is_merge(base: ConfigValue, overlay: ConfigValue, r: ConfigValue) -> bool
    decreases overlay,
{
    match (base, overlay) {
        (ConfigValue::Table(bs), ConfigValue::Table(os)) => {
            &&& r is Table
            &&& forall|k: Seq<char>|
                #[trigger] has_key(entries(r), k) <==> (has_key(bs@, k) || has_key(os@, k))
            &&& forall|k: Seq<char>|
                has_key(bs@, k) && !has_key(os@, k) ==> #[trigger] value_of(entries(r), k)
                    == value_of(bs@, k)
            &&& forall|i: int|
                0 <= i < os@.len() ==> if has_key(bs@, #[trigger] os@[i].key@) {
                    is_merge(value_of(bs@, os@[i].key@), os@[i].value, value_of(entries(r), os@[i].key@))
                } else {
                    value_of(entries(r), os@[i].key@) == os@[i].value
                }
        },
        _ => r == overlay,
    }
}

/// With unique keys, the entry at `j` is the one its key finds.
pub proof fn lemma_value_at(es: Seq<ConfigEntry>, j: int)
    requires
        unique_keys(es),
        0 <= j < es.len(),
    ensures
        has_key(es, es[j].key@),
        key_index(es, es[j].key@) == j,
        value_of(es, es[j].key@) == es[j].value,
{
    let k = es[j].key@;
    assert(has_key(es, k));
    let i = key_index(es, k);
    assert(es[i].key@ == k);
}

/// The position of key `k` in `es`, if any.
fn find_key(es: &Vec<ConfigEntry>, k: &str) -> (r: Option<usize>)
    ensures
        r matches Some(i) ==> i < es.len() && es@[i as int].key@ == k@,
        r is None ==> !has_key(es@, k@),
{
    let mut i: usize = 0;
    while i < es.len()
        invariant
            i <= es.len(),
            forall|j: int| 0 <= j < i ==> es@[j].key@ != k@,
        decreases es.len() - i,
    {
        if str_eq(es[i].key.as_str(), k) {
            return Some(i);
        }
        i = i + 1;
    }
    None
}

/// Replacing the entry at `j` by one with the same key keeps the keys and
/// every other key's value.
pub proof fn lemma_update_keeps_others(es: Seq<ConfigEntry>, j: int, e: ConfigEntry)
    requires
        unique_keys(es),
        0 <= j < es.len(),
        e.key@ == es[j].key@,
    ensures
        unique_keys(es.update(j, e)),
        forall|k: Seq<char>| #[trigger] has_key(es.update(j, e), k) == has_key(es, k),
        forall|k: Seq<char>|
            has_key(es, k) && k != e.key@ ==> #[trigger] value_of(es.update(j, e), k) == value_of(es, k),
{
    let t = es.update(j, e);
    assert forall|k: Seq<char>| #[trigger] has_key(t, k) == has_key(es, k) by {
        if has_key(t, k) {
            let i = key_index(t, k);
            assert(es[i].key@ == k);
        }
        if has_key(es, k) {
            let i = key_index(es, k);
            assert(t[i].key@ == k);
        }
    }
    assert forall|k: Seq<char>| has_key(es, k) && k != e.key@ implies #[trigger] value_of(t, k) == value_of(es, k) by {
        let i = key_index(es, k);
        lemma_value_at(es, i);
        assert(t[i] == es[i]);
        lemma_value_at(t, i);
    }
}

/// Appending an entry with a new key adds that key and keeps every other
/// key's value.
pub proof fn lemma_push_new_key(es: Seq<ConfigEntry>, e: ConfigEntry)
    requires
        unique_keys(es),
        !has_key(es, e.key@),
    ensures
        unique_keys(es.push(e)),
        forall|k: Seq<char>| #[trigger] has_key(es.push(e), k) == (has_key(es, k) || k == e.key@),
        forall|k: Seq<char>| has_key(es, k) ==> #[trigger] value_of(es.push(e), k) == value_of(es, k),
{
    let t = es.push(e);
    assert forall|i: int, j: int|
        0 <= i < t.len() && 0 <= j < t.len() && i != j implies #[trigger] t[i].key@
            != #[trigger] t[j].key@ by {
        if i == es.len() {
            assert(es[j].key@ == t[j].key@);
        } else if j == es.len() {
            assert(es[i].key@ == t[i].key@);
        } else {
            assert(es[i] == t[i] && es[j] == t[j]);
        }
    }
    assert forall|k: Seq<char>| #[trigger] has_key(t, k) == (has_key(es, k) || k == e.key@) by {
        if has_key(t, k) {
            let i = key_index(t, k);
            if i < es.len() {
                assert(es[i].key@ == k);
            }
        }
        if has_key(es, k) {
            let i = key_index(es, k);
            assert(t[i].key@ == k);
        }
        if k == e.key@ {
            assert(t[es.len() as int].key@ == k);
        }
    }
    assert forall|k: Seq<char>| has_key(es, k) implies #[trigger] value_of(t, k) == value_of(es, k) by {
        let i = key_index(es, k);
        lemma_value_at(es, i);
        assert(t[i] == es[i]);
        lemma_value_at(t, i);
    }
}

/// Lays `overlay` over `base`: two tables merge key by key, keys of
/// `overlay` taking precedence and nested tables merging recursively; any
/// other pair of values gives `overlay`.
pub fn deep_merge(base: ConfigValue, overlay: ConfigValue) -> (r: ConfigValue)
    requires
        well_formed(base),
        well_formed(overlay),
    ensures
        well_formed(r),
        is_merge(base, overlay, r),
    decreases overlay,
{
    match overlay {
        ConfigValue::Table(os) => match base {
            ConfigValue::Table(bs) => {
                let ghost b0 = bs@;
                let ghost o0 = os@;
                let ghost len = os@.len();
                proof {
                    assert forall|i: int| 0 <= i < len implies decreases_to!(overlay => o0[i].value) by {
                        assert(decreases_to!(overlay => os));
                        assert(decreases_to!(os => os@));
                        assert(decreases_to!(os@ => os@[i]));
                        assert(decreases_to!(os@[i] => os@[i].value));
                    }
                }
                let mut acc = bs;
                let mut rest = os;
                while rest.len() > 0
                    invariant
                        rest@.len() <= len,
                        o0.len() == len,
                        rest@ == o0.take(rest@.len() as int),
                        unique_keys(b0),
                        unique_keys(o0),
                        forall|i: int| 0 <= i < b0.len() ==> well_formed(#[trigger] b0[i].value),
                        forall|i: int| 0 <= i < len ==> well_formed(#[trigger] o0[i].value),
                        forall|i: int| 0 <= i < len ==> decreases_to!(overlay => #[trigger] o0[i].value),
                        unique_keys(acc@),
                        forall|i: int| 0 <= i < acc@.len() ==> well_formed(#[trigger] acc@[i].value),
                        forall|k: Seq<char>|
                            #[trigger] has_key(acc@, k) <==> (has_key(b0, k) || has_key(
                                o0.skip(rest@.len() as int),
                                k,
                            )),
                        forall|k: Seq<char>|
                            has_key(b0, k) && !has_key(o0.skip(rest@.len() as int), k)
                                ==> #[trigger] value_of(acc@, k) == value_of(b0, k),
                        forall|i: int|
                            rest@.len() <= i < len ==> if has_key(b0, #[trigger] o0[i].key@) {
                                is_merge(value_of(b0, o0[i].key@), o0[i].value, value_of(acc@, o0[i].key@))
                            } else {
                                value_of(acc@, o0[i].key@) == o0[i].value
                            },
                    decreases rest@.len(),
                {
                    let ghost n = (rest@.len() - 1) as int;
                    let ghost acc0 = acc@;
                    let e = rest.pop().unwrap();
                    assert(e == o0[n]);
                    let ConfigEntry { key, value } = e;
                    let ghost kk = key@;
                    // The key is new to the processed suffix: overlay keys are unique.
                    assert(!has_key(o0.skip(n + 1), kk)) by {
                        if has_key(o0.skip(n + 1), kk) {
                            let j = key_index(o0.skip(n + 1), kk);
                            assert(o0[n + 1 + j].key@ == kk);
                        }
                    }
                    assert forall|k: Seq<char>| has_key(o0.skip(n), k) <==> (has_key(o0.skip(n + 1), k) || k == kk) by {
                        if has_key(o0.skip(n), k) {
                            let j = key_index(o0.skip(n), k);
                            if j > 0 {
                                assert(o0.skip(n + 1)[j - 1].key@ == k);
                            }
                        }
                        if has_key(o0.skip(n + 1), k) {
                            let j = key_index(o0.skip(n + 1), k);
                            assert(o0.skip(n)[j + 1].key@ == k);
                        }
                        if k == kk {
                            assert(o0.skip(n)[0].key@ == k);
                        }
                    }
                    match find_key(&acc, key.as_str()) {
                        Some(idx) => {
                            proof {
                                lemma_value_at(acc0, idx as int);
                            }
                            let old_entry = acc.remove(idx);
                            proof {
                                assert(decreases_to!(overlay => value));
                            }
                            let merged = deep_merge(old_entry.value, value);
                            acc.insert(idx, ConfigEntry { key: old_entry.key, value: merged });
                            proof {
                                assert(acc@ =~= acc0.update(idx as int, acc@[idx as int]));
                                lemma_update_keeps_others(acc0, idx as int, acc@[idx as int]);
                                lemma_value_at(acc@, idx as int);
                            }
                        },
                        None => {
                            acc.push(ConfigEntry { key, value });
                            proof {
                                lemma_push_new_key(acc0, acc@[acc0.len() as int]);
                                lemma_value_at(acc@, acc0.len() as int);
                            }
                        },
                    }
                    proof {
                        assert forall|i: int| n <= i < len implies (if has_key(b0, #[trigger] o0[i].key@) {
                            is_merge(value_of(b0, o0[i].key@), o0[i].value, value_of(acc@, o0[i].key@))
                        } else {
                            value_of(acc@, o0[i].key@) == o0[i].value
                        }) by {
                            if i > n {
                                assert(o0[i].key@ != kk);
                                assert(o0.skip(n + 1)[i - n - 1].key@ == o0[i].key@);
                                assert(has_key(o0.skip(n + 1), o0[i].key@));
                                assert(has_key(acc0, o0[i].key@));
                            }
                        }
                    }
                }
                proof {
                    assert(o0.skip(0) =~= o0);
                }
                ConfigValue::Table(acc)
            },
            ConfigValue::Leaf(_) => ConfigValue::Table(os),
        },
        ConfigValue::Leaf(v) => ConfigValue::Leaf(v),
    }
}

/// The keys of a path, as text.
pub open spec fn path_view(p: Seq<String>) -> Seq<Seq<char>> {
    p.map_values(|s: String| s@)
}

/// `t` is what setting `path` to `value` in an empty table gives: one
/// table per remaining key, down to `value`.
pub open spec fn is_fresh_path(path: Seq<Seq<char>>, value: ConfigValue, t: ConfigValue) -> bool
    decreases path.len(),
{
    &&& t is Table
    &&& if path.len() == 0 {
        entries(t).len() == 0
    } else {
        &&& forall|x: Seq<char>| #[trigger] has_key(entries(t), x) <==> x == path[0]
        &&& if path.len() == 1 {
            value_of(entries(t), path[0]) == value
        } else {
            is_fresh_path(path.drop_first(), value, value_of(entries(t), path[0]))
        }
    }
}

/// `new` is `old` with `value` set at `path`: each key of the path is
/// looked up in turn, a missing table on the way is created, and the last
/// key is set to `value`. An empty path, or a leaf where a table is
/// needed, leaves the document as it was; every other key keeps its value.
pub open spec fn is_set(old: ConfigValue, path: Seq<Seq<char>>, value: ConfigValue, new: ConfigValue) -> bool
    decreases path.len(),
{
    if path.len() == 0 || old is Leaf {
        new == old
    } else {
        let k = path[0];
        let os = entries(old);
        let ns = entries(new);
        &&& new is Table
        &&& forall|x: Seq<char>| #[trigger] has_key(ns, x) <==> (has_key(os, x) || x == k)
        &&& forall|x: Seq<char>|
            has_key(os, x) && x != k ==> #[trigger] value_of(ns, x) == value_of(os, x)
        &&& if path.len() == 1 {
            value_of(ns, k) == value
        } else if has_key(os, k) {
            is_set(value_of(os, k), path.drop_first(), value, value_of(ns, k))
        } else {
            is_fresh_path(path.drop_first(), value, value_of(ns, k))
        }
    }
}

proof fn lemma_set_on_empty(t: ConfigValue, p: Seq<Seq<char>>, v: ConfigValue, n: ConfigValue)
    requires
        t is Table,
        entries(t).len() == 0,
        is_set(t, p, v, n),
    ensures
        is_fresh_path(p, v, n),
{
    if p.len() > 0 {
        assert forall|x: Seq<char>| #[trigger] has_key(entries(n), x) <==> x == p[0] by {
            assert(!has_key(entries(t), x));
        }
        assert(!has_key(entries(t), p[0]));
    }
}

fn set_in(node: ConfigValue, path: &Vec<String>, start: usize, value: ConfigValue) -> (r: ConfigValue)
    requires
        start <= path.len(),
        well_formed(node),
        well_formed(value),
    ensures
        well_formed(r),
        is_set(node, path_view(path@).skip(start as int), value, r),
    decreases path.len() - start,
{
    let ghost p = path_view(path@).skip(start as int);
    if start >= path.len() {
        return node;
    }
    match node {
        ConfigValue::Leaf(v) => ConfigValue::Leaf(v),
        ConfigValue::Table(es) => {
            let mut es = es;
            let ghost es0 = es@;
            let k = &path[start];
            assert(p[0] == k@);
            let idx = find_key(&es, k.as_str());
            if start + 1 == path.len() {
                match idx {
                    Some(i) => {
                        proof {
                            lemma_value_at(es0, i as int);
                        }
                        let old_entry = es.remove(i);
                        es.insert(i, ConfigEntry { key: old_entry.key, value });
                        proof {
                            assert(es@ =~= es0.update(i as int, es@[i as int]));
                            lemma_update_keeps_others(es0, i as int, es@[i as int]);
                            lemma_value_at(es@, i as int);
                        }
                    },
                    None => {
                        es.push(ConfigEntry { key: owned(k.as_str()), value });
                        proof {
                            lemma_push_new_key(es0, es@[es0.len() as int]);
                            lemma_value_at(es@, es0.len() as int);
                        }
                    },
                }
            } else {
                assert(p.drop_first() =~= path_view(path@).skip(start + 1));
                match idx {
                    Some(i) => {
                        proof {
                            lemma_value_at(es0, i as int);
                        }
                        let old_entry = es.remove(i);
                        let child = set_in(old_entry.value, path, start + 1, value);
                        es.insert(i, ConfigEntry { key: old_entry.key, value: child });
                        proof {
                            assert(es@ =~= es0.update(i as int, es@[i as int]));
                            lemma_update_keeps_others(es0, i as int, es@[i as int]);
                            lemma_value_at(es@, i as int);
                        }
                    },
                    None => {
                        let fresh = ConfigValue::Table(Vec::new());
                        let child = set_in(fresh, path, start + 1, value);
                        proof {
                            lemma_set_on_empty(fresh, p.drop_first(), value, child);
                        }
                        es.push(ConfigEntry { key: owned(k.as_str()), value: child });
                        proof {
                            lemma_push_new_key(es0, es@[es0.len() as int]);
                            lemma_value_at(es@, es0.len() as int);
                        }
                    },
                }
            }
            ConfigValue::Table(es)
        },
    }
}

/// Sets `value` at the nested `path` of `root`, creating missing tables
/// on the way. An empty path, or a non-table value where a table is
/// needed, leaves `root` unchanged.
pub fn set_nested(root: &mut ConfigValue, path: &Vec<String>, value: ConfigValue)
    requires
        well_formed(*old(root)),
        well_formed(value),
    ensures
        well_formed(*final(root)),
        is_set(*old(root), path_view(path@), value, *final(root)),
{
    let mut node = ConfigValue::Table(Vec::new());
    std::mem::swap(&mut node, root);
    let r = set_in(node, path, 0, value);
    proof {
        assert(path_view(path@).skip(0) =~= path_view(path@));
    }
    *root = r;
}

/// What `toml::from_str` makes of the document `v = <raw>`, taken at the
/// key `v`: `raw` read as one TOML value, or `None` when the document does
/// not parse.
pub uninterp spec fn toml_inline_of(raw: Seq<char>) -> Option<toml::Value>;

/// The TOML string value holding `raw`.
pub uninterp spec fn toml_string_of(raw: Seq<char>) -> toml::Value;

/// Calls `toml::from_str` on the document `v = <raw>` and clones the value
/// under `v`: `raw` read as a TOML value (integer, float, boolean, string,
/// datetime, array or inline table), or `None` when the document does not
/// parse. The result is named as a function of `raw`; which texts TOML's
/// grammar accepts, and as what, is not stated here.
#[verifier::external_body]
fn toml_inline_value(raw: &str) -> (r: Option<toml::Value>)
    ensures
        r == toml_inline_of(raw@),
{
    let probe = format!("v = {raw}");
    match toml::from_str::<toml::Value>(&probe) {
        Ok(table) => table.get("v").cloned(),
        Err(_) => None,
    }
}

/// Builds the TOML string value `toml::Value::String(raw)`.
#[verifier::external_body]
fn toml_string_value(raw: &str) -> (r: toml::Value)
    ensures
        r == toml_string_of(raw@),
{
    toml::Value::String(raw.to_owned())
}

/// The leaf an environment value `raw` stands for: `raw` read as a TOML
/// value when it is one, else the string `raw`.
pub open spec fn env_leaf(raw: Seq<char>) -> ConfigValue {
    match toml_inline_of(raw) {
        Some(v) => ConfigValue::Leaf(v),
        None => ConfigValue::Leaf(toml_string_of(raw)),
    }
}

/// Reads an environment value as a typed TOML value when it is one (so
/// `8080` stays an integer and `true` a boolean), else as a plain string.
/// The value is kept whole as a leaf, an inline table included.
pub fn parse_env_value(raw: &str) -> (r: ConfigValue)
    ensures
        r == env_leaf(raw@),
{
    match toml_inline_value(raw) {
        Some(v) => ConfigValue::Leaf(v),
        None => ConfigValue::Leaf(toml_string_value(raw)),
    }
}

/// One environment variable `(name, value)` applied to `acc` gives `next`:
/// a configuration variable sets its path to the leaf its value stands
/// for; any other variable changes nothing.
pub open spec fn env_step(acc: ConfigValue, var: (String, String), next: ConfigValue) -> bool {
    match env_override_spec(var.0@) {
        Some(path) => is_set(acc, path, env_leaf(var.1@), next),
        None => next == acc,
    }
}

/// `states` traces `vars` applied in order from `base`: it starts at
/// `base` and each variable takes one state to the next.
pub open spec fn env_trace(base: ConfigValue, vars: Seq<(String, String)>, states: Seq<ConfigValue>) -> bool {
    &&& states.len() == vars.len() + 1
    &&& states[0] == base
    &&& forall|i: int| 0 <= i < vars.len() ==> env_step(#[trigger] states[i], vars[i], states[i + 1])
}

/// `r` is `base` with the variables of `vars` applied in order.
pub open spec fn env_applied(base: ConfigValue, vars: Seq<(String, String)>, r: ConfigValue) -> bool {
    exists|states: Seq<ConfigValue>| #[trigger] env_trace(base, vars, states) && states.last() == r
}

/// Applies `FORGECLAW_*` environment overrides to `base`, in the order
/// given: each variable with a `__` path separator sets its (normalized)
/// path to its value read as TOML; flat variables are secrets and are
/// never injected.
pub fn apply_env_overrides(base: ConfigValue, vars: &Vec<(String, String)>) -> (r: ConfigValue)
    requires
        well_formed(base),
    ensures
        well_formed(r),
        env_applied(base, vars@, r),
{
    let mut acc = base;
    let mut j: usize = 0;
    let ghost mut states: Seq<ConfigValue> = seq![base];
    while j < vars.len()
        invariant
            j <= vars@.len(),
            well_formed(acc),
            env_trace(base, vars@.take(j as int), states),
            states.last() == acc,
        decreases vars@.len() - j,
    {
        let ghost prev = acc;
        let (name, value) = &vars[j];
        match env_override_path(name.as_str()) {
            Some(path) => {
                let leaf = parse_env_value(value.as_str());
                set_nested(&mut acc, &path, leaf);
                proof {
                    assert(path_view(path@) == path@.map_values(|p: String| p@));
                }
            },
            None => {},
        }
        proof {
            assert(env_step(prev, vars@[j as int], acc));
            let old_states = states;
            states = states.push(acc);
            assert forall|i: int| 0 <= i < j + 1 implies env_step(#[trigger] states[i], vars@.take(j + 1)[i], states[i + 1]) by {
                if i < j {
                    assert(states[i] == old_states[i] && states[i + 1] == old_states[i + 1]);
                    assert(vars@.take(j + 1)[i] == vars@.take(j as int)[i]);
                }
            }
        }
        j = j + 1;
    }
    assert(vars@.take(vars@.len() as int) =~= vars@);
    acc
}

/// The value reached by following `p` key by key from `t`, if every key
/// is found in a table on the way.
pub open spec fn lookup_path(t: ConfigValue, p: Seq<Seq<char>>) -> Option<ConfigValue>
    decreases p.len(),
{
    if p.len() == 0 {
        Some(t)
    } else if t is Table && has_key(entries(t), p[0]) {
        lookup_path(value_of(entries(t), p[0]), p.drop_first())
    } else {
        None
    }
}

/// Following `p` from `t` never meets a leaf where a table is needed: each
/// key but the last is found in a table or is absent there.
pub open spec fn path_open(t: ConfigValue, p: Seq<Seq<char>>) -> bool
    decreases p.len(),
{
    p.len() == 0 || (t is Table && (has_key(entries(t), p[0]) ==> path_open(
        value_of(entries(t), p[0]),
        p.drop_first(),
    )))
}

proof fn lemma_fresh_path_reads_back(p: Seq<Seq<char>>, v: ConfigValue, t: ConfigValue)
    requires
        p.len() > 0,
        is_fresh_path(p, v, t),
    ensures
        lookup_path(t, p) == Some(v),
    decreases p.len(),
{
    assert(has_key(entries(t), p[0]));
    let child = value_of(entries(t), p[0]);
    if p.len() > 1 {
        lemma_fresh_path_reads_back(p.drop_first(), v, child);
    } else {
        assert(lookup_path(child, p.drop_first()) == Some(child));
    }
    assert(lookup_path(t, p) == lookup_path(child, p.drop_first()));
}

/// Reading a path back after setting it gives the value set, wherever no
/// leaf stood in the way.
pub proof fn lemma_set_then_lookup(old: ConfigValue, p: Seq<Seq<char>>, v: ConfigValue, new: ConfigValue)
    requires
        p.len() > 0,
        path_open(old, p),
        is_set(old, p, v, new),
    ensures
        lookup_path(new, p) == Some(v),
    decreases p.len(),
{
    assert(has_key(entries(new), p[0]));
    let child = value_of(entries(new), p[0]);
    if p.len() == 1 {
        assert(lookup_path(child, p.drop_first()) == Some(child));
    } else {
        if has_key(entries(old), p[0]) {
            lemma_set_then_lookup(
                value_of(entries(old), p[0]),
                p.drop_first(),
                v,
                value_of(entries(new), p[0]),
            );
        } else {
            lemma_fresh_path_reads_back(p.drop_first(), v, value_of(entries(new), p[0]));
        }
    }
    assert(lookup_path(new, p) == lookup_path(child, p.drop_first()));
}

/// Merging over an empty table changes nothing, up to the order of
/// entries: a leaf comes back as it is, and a table comes back with the
/// same keys, each holding the same value.
pub proof fn lemma_merge_over_empty_table(base: ConfigValue, overlay: ConfigValue, r: ConfigValue)
    requires
        base is Table,
        entries(base).len() == 0,
        well_formed(overlay),
        is_merge(base, overlay, r),
    ensures
        overlay is Leaf ==> r == overlay,
        overlay is Table ==> {
            &&& r is Table
            &&& forall|k: Seq<char>| #[trigger] has_key(entries(r), k) <==> has_key(entries(overlay), k)
            &&& forall|k: Seq<char>|
                has_key(entries(overlay), k) ==> #[trigger] value_of(entries(r), k) == value_of(
                    entries(overlay),
                    k,
                )
        },
{
    if let ConfigValue::Table(os) = overlay {
        assert forall|k: Seq<char>| has_key(entries(overlay), k) implies #[trigger] value_of(
            entries(r),
            k,
        ) == value_of(entries(overlay), k) by {
            let i = key_index(os@, k);
            assert(0 <= i < os@.len() && os@[i].key@ == k);
            lemma_value_at(os@, i);
            assert(!has_key(entries(base), os@[i].key@));
        }
        assert forall|k: Seq<char>| #[trigger] has_key(entries(r), k) <==> has_key(
            entries(overlay),
            k,
        ) by {
            assert(!has_key(entries(base), k));
        }
    }
}

/// The overlay takes precedence: any leaf the overlay holds at a path is
/// what the merge holds there.
pub proof fn lemma_overlay_leaf_wins(base: ConfigValue, overlay: ConfigValue, r: ConfigValue, p: Seq<Seq<char>>)
    requires
        is_merge(base, overlay, r),
        lookup_path(overlay, p) matches Some(x) && x is Leaf,
    ensures
        lookup_path(r, p) == lookup_path(overlay, p),
    decreases p.len(),
{
    if p.len() > 0 && base is Table && overlay is Table {
        let bs = entries(base);
        let os = entries(overlay);
        let k = p[0];
        let i = key_index(os, k);
        assert(os[i].key@ == k);
        assert(has_key(entries(r), k));
        if has_key(bs, k) {
            lemma_overlay_leaf_wins(value_of(bs, k), os[i].value, value_of(entries(r), k), p.drop_first());
        }
    }
}

/// The base shows through: a leaf the base holds at a path whose keys the
/// overlay's tables never name is what the merge holds there.
pub proof fn lemma_base_leaf_kept(base: ConfigValue, overlay: ConfigValue, r: ConfigValue, p: Seq<Seq<char>>)
    requires
        is_merge(base, overlay, r),
        overlay is Table,
        p.len() > 0,
        !has_key(entries(overlay), p[0]),
        lookup_path(base, p) matches Some(x) && x is Leaf,
    ensures
        lookup_path(r, p) == lookup_path(base, p),
{
    assert(has_key(entries(r), p[0]));
}

/// `next` is `acc` with the optional `layer` merged over it.
pub open spec fn merged_layer(acc: ConfigValue, layer: Option<ConfigValue>, next: ConfigValue) -> bool {
    match layer {
        Some(l) => is_merge(acc, l, next),
        None => next == acc,
    }
}

/// The states of a layered load: an empty document, then the user layer
/// merged over it, then the project layer, then the environment applied
/// to give `r`.
pub open spec fn layers_trace(
    user: Option<ConfigValue>,
    project: Option<ConfigValue>,
    vars: Seq<(String, String)>,
    states: (ConfigValue, ConfigValue, ConfigValue),
    r: ConfigValue,
) -> bool {
    &&& states.0 is Table
    &&& entries(states.0).len() == 0
    &&& merged_layer(states.0, user, states.1)
    &&& merged_layer(states.1, project, states.2)
    &&& env_applied(states.2, vars, r)
}

/// Builds the layered configuration document, lowest precedence first:
/// the user-level document (if any), the project document (if any), then
/// the `FORGECLAW_*` environment overrides.
pub fn layer_documents(
    user: Option<ConfigValue>,
    project: Option<ConfigValue>,
    vars: &Vec<(String, String)>,
) -> (r: ConfigValue)
    requires
        user matches Some(u) ==> well_formed(u),
        project matches Some(p) ==> well_formed(p),
    ensures
        well_formed(r),
        exists|states: (ConfigValue, ConfigValue, ConfigValue)|
            #[trigger] layers_trace(user, project, vars@, states, r),
{
    let start = ConfigValue::Table(Vec::new());
    let ghost s0 = start;
    let after_user = match user {
        Some(u) => deep_merge(start, u),
        None => start,
    };
    let ghost s1 = after_user;
    let after_project = match project {
        Some(p) => deep_merge(after_user, p),
        None => after_user,
    };
    let ghost s2 = after_project;
    let r = apply_env_overrides(after_project, vars);
    assert(layers_trace(user, project, vars@, (s0, s1, s2), r));
    r
}

} // verus!
