//! Configuration model and its rules.
//!
//! Configuration is layered (environment over project file over user file)
//! and deserialized from TOML by the runtime. This module holds the plain
//! parts of the model, the cross-reference rules a loaded configuration
//! must satisfy, how `FORGECLAW_*` environment variables map to
//! configuration paths, and the size guard on config files.

use crate::text::{
    chars_of, decimal_seq, owned, push_decimal, push_str, str_eq,
};
use vstd::prelude::*;

verus! {

/// Largest config file accepted, in bytes (1 MiB).
pub const MAX_CONFIG_SIZE: u64 = 1048576;

/// The project config file looked for in the working directory.
pub const DEFAULT_PROJECT_CONFIG: &'static str = "forgeclaw.toml";

/// The default event-bus capacity.
pub fn default_event_bus_capacity() -> (n: usize)
    ensures
        n == 256,
{
    256
}

/// The default log level.
pub fn default_log_level() -> (s: String)
    ensures
        s@ == "info"@,
{
    owned("info")
}

/// Process-wide runtime settings.
#[derive(Debug, Clone)]
pub struct RuntimeConfig {
    /// Where state lives.
    pub data_dir: String,
    /// Log level (`info` by default).
    pub log_level: String,
    /// Upper bound on running containers.
    pub max_concurrent_containers: usize,
    /// Containers kept warm.
    pub warm_pool_size: usize,
    /// Event-bus capacity (256 by default).
    pub event_bus_capacity: usize,
}

/// Persistence settings.
#[derive(Debug, Clone)]
pub struct StoreConfig {
    /// Storage engine.
    pub backend: StoreBackend,
    /// Connection URL.
    pub url: String,
}

/// Storage engines.
#[derive(Debug, Clone, Copy, PartialEq, Eq)]
pub enum StoreBackend {
    /// SQLite.
    Sqlite,
    /// PostgreSQL.
    Postgres,
}

/// A model provider.
#[derive(Debug, Clone)]
pub struct ProviderConfig {
    /// Provider API flavour.
    pub kind: ProviderKind,
    /// Optional API base URL.
    pub base_url: Option<String>,
}

/// Provider API flavours.
#[derive(Debug, Clone, Copy, PartialEq, Eq)]
pub enum ProviderKind {
    /// Anthropic's API.
    Anthropic,
    /// An OpenAI-compatible API.
    OpenaiCompat,
}

/// What happens when a budget pool is exhausted.
#[derive(Debug, Clone, Copy, PartialEq, Eq)]
pub enum ExhaustAction {
    /// Switch to fallback providers.
    Fallback,
    /// Pause the group.
    Pause,
    /// Only notify.
    Notify,
}

/// A group's configuration.
#[derive(Debug, Clone)]
pub struct GroupConfig {
    /// Provider name.
    pub provider: String,
    /// Model name.
    pub model: String,
    /// Fallback provider/model pairs, in order.
    pub fallback: Vec<FallbackEntry>,
    /// Channel name.
    pub channel: String,
    /// Whether this is the main group.
    pub is_main: bool,
    /// Optional token budget.
    pub token_budget: Option<TokenBudget>,
    /// Optional budget pool name.
    pub budget_pool: Option<String>,
    /// Compose services the group may use.
    pub allowed_compose_services: Vec<String>,
}

/// A fallback provider/model pair.
#[derive(Debug, Clone)]
pub struct FallbackEntry {
    /// Provider name.
    pub provider: String,
    /// Model name.
    pub model: String,
}

/// Token limits.
#[derive(Debug, Clone, Copy)]
pub struct TokenBudget {
    /// Daily tokens.
    pub daily: u64,
    /// Monthly tokens.
    pub monthly: u64,
}

/// Defaults for spawned containers.
#[derive(Debug, Clone)]
pub struct ContainerDefaults {
    /// Image.
    pub image: String,
    /// Job timeout (duration text).
    pub timeout: String,
    /// Idle time to live (duration text).
    pub idle_ttl: String,
    /// Memory limit text.
    pub memory_limit: String,
    /// CPU limit.
    pub cpu_limit: u32,
}

/// Tanren integration.
#[derive(Debug, Clone)]
pub struct TanrenConfig {
    /// API URL.
    pub api_url: String,
    /// Optional poll interval (duration text).
    pub poll_interval: Option<String>,
    /// Optional cap on concurrent dispatches.
    pub max_concurrent_dispatches: Option<usize>,
}

/// Chat channel flavours.
#[derive(Debug, Clone, Copy, PartialEq, Eq)]
pub enum ChannelKind {
    /// Discord.
    Discord,
    /// Telegram.
    Telegram,
    /// Slack.
    Slack,
    /// Generic webhook.
    Webhook,
}

/// What the reference rules read of a group.
#[derive(Debug, Clone)]
pub struct GroupReferences {
    /// The group's name.
    pub name: String,
    /// Its provider.
    pub provider: String,
    /// Its channel.
    pub channel: String,
    /// Its budget pool, if any.
    pub budget_pool: Option<String>,
    /// The providers of its fallbacks, in order.
    pub fallback_providers: Vec<String>,
}

/// What the reference rules read of a configuration: the names defined
/// in each section, and each group's references, groups in name order.
#[derive(Debug, Clone)]
pub struct ConfigReferences {
    /// Defined provider names.
    pub providers: Vec<String>,
    /// Defined channel names.
    pub channels: Vec<String>,
    /// Defined budget pool names.
    pub budget_pools: Vec<String>,
    /// Groups in name order.
    pub groups: Vec<GroupReferences>,
}

/// `names` holds `n`.
pub open spec fn defines(names: Seq<String>, n: Seq<char>) -> bool {
    exists|i: int| 0 <= i < names.len() && #[trigger] names[i]@ == n
}

fn contains_name(names: &Vec<String>, n: &String) -> (r: bool)
    ensures
        r == defines(names@, n@),
{
    let mut i: usize = 0;
    while i < names.len()
        invariant
            i <= names@.len(),
            forall|k: int| 0 <= k < i ==> #[trigger] names@[k]@ != n@,
        decreases names@.len() - i,
    {
        if str_eq(names[i].as_str(), n.as_str()) {
            return true;
        }
        i = i + 1;
    }
    false
}

/// The violations of one fallback list, from index `i`: each fallback
/// naming an unknown provider.
pub open spec fn fallback_errors(
    group: Seq<char>,
    fallbacks: Seq<String>,
    providers: Seq<String>,
    i: int,
) -> Seq<Seq<char>>
    decreases fallbacks.len() - i,
{
    if i < 0 || i >= fallbacks.len() {
        Seq::empty()
    } else {
        (if defines(providers, fallbacks[i]@) {
            Seq::<Seq<char>>::empty()
        } else {
            seq![
                "group '"@ + group + "' fallback["@ + decimal_seq(i as nat)
                    + "] references unknown provider '"@ + fallbacks[i]@ + "'"@,
            ]
        }) + fallback_errors(group, fallbacks, providers, i + 1)
    }
}

/// The violations of one group, in order: unknown provider, unknown
/// channel, unknown budget pool, then each unknown fallback provider.
pub open spec fn group_errors(c: ConfigReferences, g: GroupReferences) -> Seq<Seq<char>> {
    (if defines(c.providers@, g.provider@) {
        Seq::<Seq<char>>::empty()
    } else {
        seq!["group '"@ + g.name@ + "' references unknown provider '"@ + g.provider@ + "'"@]
    }) + (if defines(c.channels@, g.channel@) {
        Seq::<Seq<char>>::empty()
    } else {
        seq!["group '"@ + g.name@ + "' references unknown channel '"@ + g.channel@ + "'"@]
    }) + match g.budget_pool {
        Some(p) => if defines(c.budget_pools@, p@) {
            Seq::<Seq<char>>::empty()
        } else {
            seq!["group '"@ + g.name@ + "' references unknown budget_pool '"@ + p@ + "'"@]
        },
        None => Seq::empty(),
    } + fallback_errors(g.name@, g.fallback_providers@, c.providers@, 0)
}

/// The violations of groups `i..`, in order.
pub open spec fn groups_errors(c: ConfigReferences, i: int) -> Seq<Seq<char>>
    decreases c.groups@.len() - i,
{
    if i < 0 || i >= c.groups@.len() {
        Seq::empty()
    } else {
        group_errors(c, c.groups@[i]) + groups_errors(c, i + 1)
    }
}

/// Every violation of the reference rules, in the order they are
/// reported: groups without any channel first, then each group's.
pub open spec fn config_errors(c: ConfigReferences) -> Seq<Seq<char>> {
    (if c.channels@.len() == 0 && c.groups@.len() > 0 {
        seq!["at least one channel must be defined when groups are present"@]
    } else {
        Seq::<Seq<char>>::empty()
    }) + groups_errors(c, 0)
}

/// A group's references all resolve: its provider, channel, budget pool
/// (when it has one) and every fallback provider are defined.
pub open spec fn group_references_valid(c: ConfigReferences, g: GroupReferences) -> bool {
    &&& defines(c.providers@, g.provider@)
    &&& defines(c.channels@, g.channel@)
    &&& (g.budget_pool matches Some(p) ==> defines(c.budget_pools@, p@))
    &&& forall|k: int|
        0 <= k < g.fallback_providers@.len() ==> #[trigger] defines(
            c.providers@,
            g.fallback_providers@[k]@,
        )
}

/// The reference rules hold: some channel is defined when groups exist,
/// and every group's references resolve.
pub open spec fn references_valid(c: ConfigReferences) -> bool {
    &&& (c.channels@.len() > 0 || c.groups@.len() == 0)
    &&& forall|i: int| 0 <= i < c.groups@.len() ==> #[trigger] group_references_valid(c, c.groups@[i])
}

proof fn lemma_fallback_errors_empty(
    group: Seq<char>,
    fallbacks: Seq<String>,
    providers: Seq<String>,
    i: int,
)
    requires
        0 <= i <= fallbacks.len(),
    ensures
        fallback_errors(group, fallbacks, providers, i).len() == 0 <==> forall|k: int|
            i <= k < fallbacks.len() ==> #[trigger] defines(providers, fallbacks[k]@),
    decreases fallbacks.len() - i,
{
    if i < fallbacks.len() {
        lemma_fallback_errors_empty(group, fallbacks, providers, i + 1);
        if fallback_errors(group, fallbacks, providers, i).len() == 0 {
            assert forall|k: int| i <= k < fallbacks.len() implies #[trigger] defines(
                providers,
                fallbacks[k]@,
            ) by {
                if k > i {
                    assert(fallback_errors(group, fallbacks, providers, i + 1).len() == 0);
                }
            }
        }
    }
}

proof fn lemma_group_errors_empty(c: ConfigReferences, g: GroupReferences)
    ensures
        group_errors(c, g).len() == 0 <==> group_references_valid(c, g),
{
    lemma_fallback_errors_empty(g.name@, g.fallback_providers@, c.providers@, 0);
}

proof fn lemma_groups_errors_empty(c: ConfigReferences, i: int)
    requires
        0 <= i <= c.groups@.len(),
    ensures
        groups_errors(c, i).len() == 0 <==> forall|j: int|
            i <= j < c.groups@.len() ==> #[trigger] group_references_valid(c, c.groups@[j]),
    decreases c.groups@.len() - i,
{
    if i < c.groups@.len() {
        lemma_groups_errors_empty(c, i + 1);
        lemma_group_errors_empty(c, c.groups@[i]);
        if groups_errors(c, i).len() == 0 {
            assert forall|j: int| i <= j < c.groups@.len() implies #[trigger] group_references_valid(
                c,
                c.groups@[j],
            ) by {
                if j > i {
                    assert(groups_errors(c, i + 1).len() == 0);
                }
            }
        }
    }
}

/// The reference rules report no violation exactly when they hold: a
/// configuration is accepted if and only if some channel is defined when
/// groups exist and every group's provider, channel, budget pool and
/// fallback providers are defined.
pub proof fn lemma_config_errors_empty_iff_valid(c: ConfigReferences)
    ensures
        config_errors(c).len() == 0 <==> references_valid(c),
{
    lemma_groups_errors_empty(c, 0);
}

fn push_error(errors: &mut Vec<String>, e: String)
    ensures
        final(errors)@.map_values(|x: String| x@) == old(errors)@.map_values(|x: String| x@).push(
            e@,
        ),
{
    errors.push(e);
    assert(final(errors)@.map_values(|x: String| x@) =~= old(errors)@.map_values(|x: String| x@).push(e@));
}

fn check_group(c: &ConfigReferences, g: &GroupReferences, errors: &mut Vec<String>)
    ensures
        final(errors)@.map_values(|x: String| x@) == old(errors)@.map_values(|x: String| x@)
            + group_errors(*c, *g),
{
    let ghost start = errors@.map_values(|x: String| x@);
    if !contains_name(&c.providers, &g.provider) {
        let mut s = String::new();
        push_str(&mut s, "group '");
        push_str(&mut s, g.name.as_str());
        push_str(&mut s, "' references unknown provider '");
        push_str(&mut s, g.provider.as_str());
        push_str(&mut s, "'");
        push_error(errors, s);
    }
    let ghost a = errors@.map_values(|x: String| x@);
    if !contains_name(&c.channels, &g.channel) {
        let mut s = String::new();
        push_str(&mut s, "group '");
        push_str(&mut s, g.name.as_str());
        push_str(&mut s, "' references unknown channel '");
        push_str(&mut s, g.channel.as_str());
        push_str(&mut s, "'");
        push_error(errors, s);
    }
    let ghost b = errors@.map_values(|x: String| x@);
    match &g.budget_pool {
        Some(pool) => {
            if !contains_name(&c.budget_pools, pool) {
                let mut s = String::new();
                push_str(&mut s, "group '");
                push_str(&mut s, g.name.as_str());
                push_str(&mut s, "' references unknown budget_pool '");
                push_str(&mut s, pool.as_str());
                push_str(&mut s, "'");
                push_error(errors, s);
            }
        },
        None => {},
    }
    let ghost d = errors@.map_values(|x: String| x@);
    let mut i: usize = 0;
    while i < g.fallback_providers.len()
        invariant
            i <= g.fallback_providers@.len(),
            errors@.map_values(|x: String| x@) + fallback_errors(
                g.name@,
                g.fallback_providers@,
                c.providers@,
                i as int,
            ) == d + fallback_errors(g.name@, g.fallback_providers@, c.providers@, 0),
        decreases g.fallback_providers@.len() - i,
    {
        let ghost before = errors@.map_values(|x: String| x@);
        let fb = &g.fallback_providers[i];
        if !contains_name(&c.providers, fb) {
            let mut s = String::new();
            push_str(&mut s, "group '");
            push_str(&mut s, g.name.as_str());
            push_str(&mut s, "' fallback[");
            push_decimal(&mut s, i as u64);
            push_str(&mut s, "] references unknown provider '");
            push_str(&mut s, fb.as_str());
            push_str(&mut s, "'");
            push_error(errors, s);
        }
        proof {
            let rest = fallback_errors(g.name@, g.fallback_providers@, c.providers@, i + 1);
            assert(before + fallback_errors(g.name@, g.fallback_providers@, c.providers@, i as int)
                =~= errors@.map_values(|x: String| x@) + rest);
        }
        i = i + 1;
    }
    proof {
        assert(fallback_errors(g.name@, g.fallback_providers@, c.providers@, i as int) =~= Seq::<Seq<char>>::empty());
        assert(errors@.map_values(|x: String| x@) =~= start + group_errors(*c, *g));
    }
}

/// Checks the reference rules: when groups exist some channel must, and
/// every group must name a defined provider, channel, budget pool (when it
/// has one) and fallback providers. Returns every violation, in order.
pub fn validate_references(c: &ConfigReferences) -> (r: Result<(), Vec<String>>)
    ensures
        r is Ok <==> config_errors(*c).len() == 0,
        r is Ok <==> references_valid(*c),
        r matches Err(errors) ==> errors@.map_values(|x: String| x@) == config_errors(*c),
{
    proof {
        lemma_config_errors_empty_iff_valid(*c);
    }
    let mut errors: Vec<String> = Vec::new();
    assert(errors@.map_values(|x: String| x@) =~= Seq::<Seq<char>>::empty());
    if c.channels.len() == 0 && c.groups.len() > 0 {
        push_error(
            &mut errors,
            owned("at least one channel must be defined when groups are present"),
        );
    }
    let ghost head = errors@.map_values(|x: String| x@);
    let mut i: usize = 0;
    while i < c.groups.len()
        invariant
            i <= c.groups@.len(),
            errors@.map_values(|x: String| x@) + groups_errors(*c, i as int) == head
                + groups_errors(*c, 0),
            head == (if c.channels@.len() == 0 && c.groups@.len() > 0 {
                seq!["at least one channel must be defined when groups are present"@]
            } else {
                Seq::<Seq<char>>::empty()
            }),
        decreases c.groups@.len() - i,
    {
        let ghost before = errors@.map_values(|x: String| x@);
        check_group(c, &c.groups[i], &mut errors);
        proof {
            assert(before + groups_errors(*c, i as int) =~= errors@.map_values(|x: String| x@)
                + groups_errors(*c, i + 1));
        }
        i = i + 1;
    }
    proof {
        assert(groups_errors(*c, i as int) =~= Seq::<Seq<char>>::empty());
        assert(errors@.map_values(|x: String| x@) =~= config_errors(*c));
    }
    if errors.len() == 0 {
        Ok(())
    } else {
        Err(errors)
    }
}

/// The size guard on config files: the error text for a file of `len`
/// bytes at `path` above [`MAX_CONFIG_SIZE`].
pub fn config_size_problem(path: &str, len: u64) -> (r: Option<String>)
    ensures
        len <= MAX_CONFIG_SIZE ==> r is None,
        len > MAX_CONFIG_SIZE ==> (r matches Some(s) && s@ == "config file "@ + path@
            + " exceeds maximum size of "@ + decimal_seq(MAX_CONFIG_SIZE as nat) + " bytes"@),
{
    if len <= MAX_CONFIG_SIZE {
        return None;
    }
    let mut s = String::new();
    push_str(&mut s, "config file ");
    push_str(&mut s, path);
    push_str(&mut s, " exceeds maximum size of ");
    push_decimal(&mut s, MAX_CONFIG_SIZE);
    push_str(&mut s, " bytes");
    Some(s)
}

/// std's Unicode lower-casing (`str::to_lowercase`) of a text.
pub uninterp spec fn unicode_lowercase(s: Seq<char>) -> Seq<char>;

/// Lower-cases with std's `str::to_lowercase`; the contract names the
/// result as a function of the text.
#[verifier::external_body]
fn to_lowercase(s: &str) -> (r: String)
    ensures
        r@ == unicode_lowercase(s@),
{
    s.to_lowercase()
}

/// Config sections whose second path segment is a user-chosen map key.
pub open spec fn is_map_section(s: Seq<char>) -> bool {
    s == "providers"@ || s == "groups"@ || s == "channels"@ || s == "budget_pools"@
}

/// The normalized form of segment `i` of an environment path: the map key
/// under a map section keeps its case, everything else is lower-cased.
pub open spec fn normalized_segment(parts: Seq<Seq<char>>, i: int) -> Seq<char> {
    if i == 1 && is_map_section(unicode_lowercase(parts[0])) {
        parts[i]
    } else {
        unicode_lowercase(parts[i])
    }
}

/// Overrides reach map entries by their own names: under each of the map
/// sections `providers`, `groups`, `channels` and `budget_pools`, whatever
/// the case it is written in, the second segment (the map key) keeps its
/// case; under any other section it is lower-cased, and so is every other
/// segment.
pub proof fn lemma_map_keys_keep_case(parts: Seq<Seq<char>>, i: int)
    requires
        0 <= i < parts.len(),
    ensures
        ({
            let section = unicode_lowercase(parts[0]);
            let map_section = section == "providers"@ || section == "groups"@ || section
                == "channels"@ || section == "budget_pools"@;
            &&& i == 1 && map_section ==> normalized_segment(parts, i) == parts[i]
            &&& !(i == 1 && map_section) ==> normalized_segment(parts, i) == unicode_lowercase(
                parts[i],
            )
        }),
{
}

/// Lower-cases static section and field names of an environment path but
/// keeps the case of map keys (the second segment under `providers`,
/// `groups`, `channels` or `budget_pools`).
pub fn normalize_env_path(parts: &Vec<String>) -> (r: Vec<String>)
    ensures
        r@.len() == parts@.len(),
        forall|i: int| 0 <= i < r@.len() ==> #[trigger] r@[i]@ == normalized_segment(
            parts@.map_values(|p: String| p@),
            i,
        ),
{
    let ghost views = parts@.map_values(|p: String| p@);
    let map_section = if parts.len() > 0 {
        let first = to_lowercase(parts[0].as_str());
        str_eq(first.as_str(), "providers") || str_eq(first.as_str(), "groups") || str_eq(
            first.as_str(),
            "channels",
        ) || str_eq(first.as_str(), "budget_pools")
    } else {
        false
    };
    let mut out: Vec<String> = Vec::new();
    let mut i: usize = 0;
    while i < parts.len()
        invariant
            i <= parts@.len(),
            out@.len() == i,
            views == parts@.map_values(|p: String| p@),
            parts@.len() > 0 ==> map_section == is_map_section(unicode_lowercase(views[0])),
            forall|k: int| 0 <= k < i ==> #[trigger] out@[k]@ == normalized_segment(views, k),
        decreases parts@.len() - i,
    {
        if i == 1 && map_section {
            out.push(parts[i].clone());
        } else {
            out.push(to_lowercase(parts[i].as_str()));
        }
        i = i + 1;
    }
    out
}

/// `s` has the separator `__` starting at `i`.
pub open spec fn sep_at(s: Seq<char>, i: int) -> bool {
    0 <= i && i + 1 < s.len() && s[i] == '_' && s[i + 1] == '_'
}

/// The first index at or after `i` where `__` starts, or `-1`.
pub open spec fn first_sep(s: Seq<char>, i: int) -> int
    decreases s.len() - i,
{
    if i < 0 || i + 1 >= s.len() {
        -1
    } else if sep_at(s, i) {
        i
    } else {
        first_sep(s, i + 1)
    }
}

pub proof fn lemma_first_sep_range(s: Seq<char>, i: int)
    requires
        0 <= i,
    ensures
        first_sep(s, i) == -1 || (i <= first_sep(s, i) && first_sep(s, i) + 1 < s.len() && sep_at(
            s,
            first_sep(s, i),
        )),
        first_sep(s, i) == -1 ==> forall|k: int| i <= k ==> !#[trigger] sep_at(s, k),
        first_sep(s, i) >= 0 ==> forall|k: int| i <= k < first_sep(s, i) ==> !#[trigger] sep_at(s, k),
    decreases s.len() - i,
{
    if i + 1 < s.len() && !sep_at(s, i) {
        lemma_first_sep_range(s, i + 1);
    }
}

proof fn lemma_first_sep_is_first(s: Seq<char>, i: int, k: int)
    requires
        0 <= i <= k,
        sep_at(s, k),
        forall|m: int| i <= m < k ==> !#[trigger] sep_at(s, m),
    ensures
        first_sep(s, i) == k,
    decreases k - i,
{
    if i < k {
        lemma_first_sep_is_first(s, i + 1, k);
    }
}

/// The `__`-separated pieces of a text, left to right (`str::split("__")`).
pub open spec fn split_double_underscore(s: Seq<char>) -> Seq<Seq<char>>
    decreases s.len(),
{
    let i = first_sep(s, 0);
    if i < 0 {
        seq![s]
    } else {
        proof {
            lemma_first_sep_range(s, 0);
        }
        seq![s.take(i)] + split_double_underscore(s.skip(i + 2))
    }
}

/// The prefix of configuration environment variables.
pub open spec fn env_prefix() -> Seq<char> {
    "FORGECLAW_"@
}

/// The configuration path an environment variable named `key` overrides:
/// only `FORGECLAW_` variables with a `__` path separator count (the flat
/// ones are secrets); the rest of the name is split at `__` and
/// normalized.
pub open spec fn env_override_spec(key: Seq<char>) -> Option<Seq<Seq<char>>> {
    let p = env_prefix();
    if key.len() >= p.len() && key.take(p.len() as int) == p && first_sep(key.skip(p.len() as int), 0)
        >= 0 {
        let parts = split_double_underscore(key.skip(p.len() as int));
        Some(Seq::new(parts.len(), |i: int| normalized_segment(parts, i)))
    } else {
        None
    }
}

fn split_pieces(cs: &Vec<char>, from: usize) -> (r: Vec<String>)
    requires
        from <= cs@.len(),
    ensures
        r@.map_values(|p: String| p@) == split_double_underscore(cs@.skip(from as int)),
{
    let ghost s = cs@.skip(from as int);
    let n = cs.len();
    let mut out: Vec<String> = Vec::new();
    let mut current = String::new();
    let mut start: usize = from;
    let mut i: usize = from;
    assert(out@.map_values(|p: String| p@) =~= Seq::<Seq<char>>::empty());
    assert(cs@.skip(start as int) =~= s);
    while i < n
        invariant
            n == cs@.len(),
            from <= start <= i <= n,
            s == cs@.skip(from as int),
            current@ == cs@.subrange(start as int, i as int),
            forall|m: int| start <= m < i ==> !#[trigger] sep_at(cs@, m),
            split_double_underscore(s) == out@.map_values(|p: String| p@)
                + split_double_underscore(cs@.skip(start as int)),
        decreases n - i,
    {
        if i + 1 < n && cs[i] == '_' && cs[i + 1] == '_' {
            let ghost t = cs@.skip(start as int);
            proof {
                assert forall|m: int| 0 <= m < i - start implies !#[trigger] sep_at(t, m) by {
                    assert(!sep_at(cs@, m + start));
                }
                assert(sep_at(t, i - start));
                lemma_first_sep_is_first(t, 0, i - start);
                assert(t.take(i - start) =~= cs@.subrange(start as int, i as int));
                assert(t.skip(i - start + 2) =~= cs@.skip(i + 2));
            }
            let ghost before = out@.map_values(|p: String| p@);
            out.push(current);
            assert(out@.map_values(|p: String| p@) =~= before.push(cs@.subrange(start as int, i as int)));
            current = String::new();
            start = i + 2;
            i = i + 2;
        } else {
            proof {
                assert(!sep_at(cs@, i as int));
            }
            crate::text::push_char(&mut current, cs[i]);
            assert(cs@.subrange(start as int, i + 1) == cs@.subrange(start as int, i as int).push(cs@[i as int]));
            i = i + 1;
        }
    }
    let ghost t = cs@.skip(start as int);
    proof {
        assert forall|m: int| 0 <= m implies !#[trigger] sep_at(t, m) by {
            if m + 1 < t.len() {
                assert(!sep_at(cs@, m + start));
            }
        }
        lemma_first_sep_range(t, 0);
        assert(t =~= cs@.subrange(start as int, n as int));
    }
    let ghost before = out@.map_values(|p: String| p@);
    out.push(current);
    assert(out@.map_values(|p: String| p@) =~= before.push(t));
    out
}

/// The configuration path the environment variable `key` overrides, if it
/// is a configuration variable (see [`env_override_spec`]).
pub fn env_override_path(key: &str) -> (r: Option<Vec<String>>)
    ensures
        match env_override_spec(key@) {
            Some(path) => r matches Some(v) && v@.map_values(|p: String| p@) == path,
            None => r is None,
        },
{
    let cs = chars_of(key);
    let prefix = chars_of("FORGECLAW_");
    proof {
        reveal_strlit("FORGECLAW_");
    }
    if cs.len() < prefix.len() {
        return None;
    }
    let mut k: usize = 0;
    while k < prefix.len()
        invariant
            prefix@ == env_prefix(),
            cs@ == key@,
            prefix@.len() <= cs@.len(),
            k <= prefix@.len(),
            forall|m: int| 0 <= m < k ==> cs@[m] == prefix@[m],
        decreases prefix@.len() - k,
    {
        if cs[k] != prefix[k] {
            assert(key@.take(prefix@.len() as int)[k as int] != env_prefix()[k as int]);
            return None;
        }
        k = k + 1;
    }
    assert(key@.take(prefix@.len() as int) =~= env_prefix());
    let from = prefix.len();
    let mut j: usize = from;
    let mut found = false;
    while cs.len() - j > 1 && !found
        invariant
            cs@ == key@,
            from <= j <= cs@.len(),
            from == env_prefix().len(),
            found ==> j + 1 < cs@.len() && sep_at(cs@, j as int),
            forall|m: int| from <= m < j ==> !#[trigger] sep_at(cs@, m),
        decreases cs@.len() - j + (if found { 0int } else { 1int }),
    {
        if cs[j] == '_' && cs[j + 1] == '_' {
            found = true;
        } else {
            j = j + 1;
        }
    }
    let ghost t = key@.skip(from as int);
    proof {
        if found {
            assert forall|m: int| 0 <= m < j - from implies !#[trigger] sep_at(t, m) by {
                assert(!sep_at(cs@, m + from));
            }
            assert(sep_at(t, j - from));
            lemma_first_sep_is_first(t, 0, j - from);
        } else {
            assert forall|m: int| 0 <= m implies !#[trigger] sep_at(t, m) by {
                if m + 1 < t.len() {
                    assert(!sep_at(cs@, m + from));
                }
            }
            lemma_first_sep_range(t, 0);
        }
    }
    if !found {
        return None;
    }
    let raw = split_pieces(&cs, from);
    let parts = normalize_env_path(&raw);
    proof {
        let want = Seq::new(
            raw@.map_values(|p: String| p@).len(),
            |i: int| normalized_segment(raw@.map_values(|p: String| p@), i),
        );
        assert(parts@.map_values(|p: String| p@) =~= want);
    }
    Some(parts)
}

} // verus!
