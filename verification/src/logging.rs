//! The decisions behind the node's log output: which level, which timestamp
//! format, and how a log target is shortened.
use vstd::prelude::*;

verus! {

/// The name of the log file inside the data directory.
pub const LOG_FILE: &'static str = "debug.log";

/// Timestamp format of log lines.
pub const CHRONO_FORMATTER: &'static str = "%Y-%m-%d %H:%M:%S";

/// Timestamp format of log lines when debugging (with milliseconds).
pub const CHRONO_FORMATTER_DEBUG: &'static str = "%Y-%m-%d %H:%M:%S%.3f";

/// A verbosity level of log events, least to most verbose.
#[derive(Clone, Copy, Debug, PartialEq, Eq, Structural)]
pub enum LogLevel {
    /// Errors only.
    Error,
    /// Warnings and errors.
    Warn,
    /// Informational messages.
    Info,
    /// Debugging messages.
    Debug,
    /// Everything.
    Trace,
}

/// How verbose a level is: a more verbose level ranks higher.
pub open spec fn verbosity(level: LogLevel) -> int {
    match level {
        LogLevel::Error => 0,
        LogLevel::Warn => 1,
        LogLevel::Info => 2,
        LogLevel::Debug => 3,
        LogLevel::Trace => 4,
    }
}

/// The level a node logs at: `Debug` when debug logging is enabled, `Info` otherwise.
pub open spec fn log_level_of(debug: bool) -> LogLevel {
    if debug {
        LogLevel::Debug
    } else {
        LogLevel::Info
    }
}

/// `level` is at least as verbose as `Debug`.
pub open spec fn is_debug(level: LogLevel) -> bool {
    verbosity(level) >= verbosity(LogLevel::Debug)
}

/// A node logs at `Debug` when debug logging is enabled and at `Info`
/// otherwise, never at another level.
pub proof fn lemma_level_follows_debug_flag(debug: bool)
    ensures
        debug ==> log_level_of(debug) == LogLevel::Debug,
        !debug ==> log_level_of(debug) == LogLevel::Info,
{
}

/// Exactly the `Debug` and `Trace` levels count as debugging.
pub proof fn lemma_debug_levels(level: LogLevel)
    ensures
        is_debug(level) <==> (level is Debug || level is Trace),
{
}

/// Enabling debug logging makes a node log at a level that counts as
/// debugging, and leaving it off makes it log at one that does not.
pub proof fn lemma_debug_flag_selects_debug_level(debug: bool)
    ensures
        is_debug(log_level_of(debug)) == debug,
{
}

/// The level a node logs at, given whether debug logging is enabled.
pub fn log_level_for(debug: bool) -> (r: LogLevel)
    ensures
        r == log_level_of(debug),
{
    if debug {
        LogLevel::Debug
    } else {
        LogLevel::Info
    }
}

/// Whether `level` is at least as verbose as `Debug`.
pub fn is_debug_level(level: LogLevel) -> (r: bool)
    ensures
        r == is_debug(level),
{
    match level {
        LogLevel::Debug | LogLevel::Trace => true,
        _ => false,
    }
}

/// The timestamp format of log lines: with milliseconds when debugging.
pub fn timestamp_format(debug: bool) -> (r: &'static str)
    ensures
        r@ == (if debug { CHRONO_FORMATTER_DEBUG@ } else { CHRONO_FORMATTER@ }),
{
    if debug {
        CHRONO_FORMATTER_DEBUG
    } else {
        CHRONO_FORMATTER
    }
}

/// `p` is a prefix of `s`.
pub open spec fn has_prefix(s: Seq<char>, p: Seq<char>) -> bool {
    p.len() <= s.len() && s.subrange(0, p.len() as int) == p
}

/// Whether `s` starts with `prefix`.
fn starts_with(s: &str, prefix: &str) -> (r: bool)
    ensures
        r == has_prefix(s@, prefix@),
{
    let n: usize = prefix.unicode_len();
    let m: usize = s.unicode_len();
    if n > m {
        return false;
    }
    let mut i: usize = 0;
    while i < n
        invariant
            n == prefix@.len(),
            m == s@.len(),
            n <= m,
            i <= n,
            forall|j: int| 0 <= j < i ==> s@[j] == prefix@[j],
        decreases n - i,
    {
        if s.get_char(i) != prefix.get_char(i) {
            assert(s@.subrange(0, n as int)[i as int] != prefix@[i as int]);
            return false;
        }
        i = i + 1;
    }
    assert(s@.subrange(0, n as int) =~= prefix@);
    true
}

/// The short name a log line shows for `target`: the crates of the node are
/// named by their component, any other target is shown as it is.
pub open spec fn short_target_of(target: Seq<char>) -> Seq<char> {
    if has_prefix(target, "floresta_chain"@) {
        "chain"@
    } else if has_prefix(target, "floresta_electrum"@) {
        "electrum"@
    } else if has_prefix(target, "floresta_compact_filters"@) {
        "filters"@
    } else if has_prefix(target, "floresta_mempool"@) {
        "mempool"@
    } else if has_prefix(target, "floresta_node"@) {
        "node"@
    } else if has_prefix(target, "floresta_wire"@) {
        "wire"@
    } else if has_prefix(target, "floresta_watch_only"@) {
        "watch_only"@
    } else if has_prefix(target, "florestad"@) {
        "florestad"@
    } else {
        target
    }
}

/// Two prefixes that differ at some position cannot both start `t`.
proof fn lemma_prefixes_exclusive(t: Seq<char>, p: Seq<char>, q: Seq<char>, d: int)
    requires
        0 <= d < p.len(),
        d < q.len(),
        p[d] != q[d],
        p.len() <= t.len(),
        t.subrange(0, p.len() as int) == p,
    ensures
        !has_prefix(t, q),
{
    assert(t.subrange(0, p.len() as int)[d] == t[d]);
    if q.len() <= t.len() {
        assert(t.subrange(0, q.len() as int)[d] == t[d]);
    }
}

/// Every target that starts with one of the node's crate names, module paths
/// included, shortens to that crate's component; a target that starts with
/// none of them is shown unchanged.
pub proof fn lemma_short_target_by_prefix(t: Seq<char>)
    ensures
        ("floresta_chain"@.len() <= t.len() && t.subrange(0, "floresta_chain"@.len() as int) == "floresta_chain"@) ==> short_target_of(t) == "chain"@,
        ("floresta_electrum"@.len() <= t.len() && t.subrange(0, "floresta_electrum"@.len() as int) == "floresta_electrum"@) ==> short_target_of(t) == "electrum"@,
        ("floresta_compact_filters"@.len() <= t.len() && t.subrange(0, "floresta_compact_filters"@.len() as int) == "floresta_compact_filters"@) ==> short_target_of(t) == "filters"@,
        ("floresta_mempool"@.len() <= t.len() && t.subrange(0, "floresta_mempool"@.len() as int) == "floresta_mempool"@) ==> short_target_of(t) == "mempool"@,
        ("floresta_node"@.len() <= t.len() && t.subrange(0, "floresta_node"@.len() as int) == "floresta_node"@) ==> short_target_of(t) == "node"@,
        ("floresta_wire"@.len() <= t.len() && t.subrange(0, "floresta_wire"@.len() as int) == "floresta_wire"@) ==> short_target_of(t) == "wire"@,
        ("floresta_watch_only"@.len() <= t.len() && t.subrange(0, "floresta_watch_only"@.len() as int) == "floresta_watch_only"@) ==> short_target_of(t) == "watch_only"@,
        ("florestad"@.len() <= t.len() && t.subrange(0, "florestad"@.len() as int) == "florestad"@) ==> short_target_of(t) == "florestad"@,
        (!("floresta_chain"@.len() <= t.len() && t.subrange(0, "floresta_chain"@.len() as int) == "floresta_chain"@) && !("floresta_electrum"@.len() <= t.len() && t.subrange(0, "floresta_electrum"@.len() as int) == "floresta_electrum"@) && !("floresta_compact_filters"@.len() <= t.len() && t.subrange(0, "floresta_compact_filters"@.len() as int) == "floresta_compact_filters"@) && !("floresta_mempool"@.len() <= t.len() && t.subrange(0, "floresta_mempool"@.len() as int) == "floresta_mempool"@) && !("floresta_node"@.len() <= t.len() && t.subrange(0, "floresta_node"@.len() as int) == "floresta_node"@) && !("floresta_wire"@.len() <= t.len() && t.subrange(0, "floresta_wire"@.len() as int) == "floresta_wire"@) && !("floresta_watch_only"@.len() <= t.len() && t.subrange(0, "floresta_watch_only"@.len() as int) == "floresta_watch_only"@) && !("florestad"@.len() <= t.len() && t.subrange(0, "florestad"@.len() as int) == "florestad"@)) ==> short_target_of(t) == t,
{
    reveal_strlit("floresta_chain");
    reveal_strlit("floresta_electrum");
    reveal_strlit("floresta_compact_filters");
    reveal_strlit("floresta_mempool");
    reveal_strlit("floresta_node");
    reveal_strlit("floresta_wire");
    reveal_strlit("floresta_watch_only");
    reveal_strlit("florestad");
    reveal_strlit("chain");
    reveal_strlit("electrum");
    reveal_strlit("filters");
    reveal_strlit("mempool");
    reveal_strlit("node");
    reveal_strlit("wire");
    reveal_strlit("watch_only");
    if ("floresta_electrum"@.len() <= t.len() && t.subrange(0, "floresta_electrum"@.len() as int) == "floresta_electrum"@) {
        lemma_prefixes_exclusive(t, "floresta_electrum"@, "floresta_chain"@, 9);
    }
    if ("floresta_compact_filters"@.len() <= t.len() && t.subrange(0, "floresta_compact_filters"@.len() as int) == "floresta_compact_filters"@) {
        lemma_prefixes_exclusive(t, "floresta_compact_filters"@, "floresta_chain"@, 10);
        lemma_prefixes_exclusive(t, "floresta_compact_filters"@, "floresta_electrum"@, 9);
    }
    if ("floresta_mempool"@.len() <= t.len() && t.subrange(0, "floresta_mempool"@.len() as int) == "floresta_mempool"@) {
        lemma_prefixes_exclusive(t, "floresta_mempool"@, "floresta_chain"@, 9);
        lemma_prefixes_exclusive(t, "floresta_mempool"@, "floresta_electrum"@, 9);
        lemma_prefixes_exclusive(t, "floresta_mempool"@, "floresta_compact_filters"@, 9);
    }
    if ("floresta_node"@.len() <= t.len() && t.subrange(0, "floresta_node"@.len() as int) == "floresta_node"@) {
        lemma_prefixes_exclusive(t, "floresta_node"@, "floresta_chain"@, 9);
        lemma_prefixes_exclusive(t, "floresta_node"@, "floresta_electrum"@, 9);
        lemma_prefixes_exclusive(t, "floresta_node"@, "floresta_compact_filters"@, 9);
        lemma_prefixes_exclusive(t, "floresta_node"@, "floresta_mempool"@, 9);
    }
    if ("floresta_wire"@.len() <= t.len() && t.subrange(0, "floresta_wire"@.len() as int) == "floresta_wire"@) {
        lemma_prefixes_exclusive(t, "floresta_wire"@, "floresta_chain"@, 9);
        lemma_prefixes_exclusive(t, "floresta_wire"@, "floresta_electrum"@, 9);
        lemma_prefixes_exclusive(t, "floresta_wire"@, "floresta_compact_filters"@, 9);
        lemma_prefixes_exclusive(t, "floresta_wire"@, "floresta_mempool"@, 9);
        assert("floresta_wire"@[9] != "floresta_node"@[9]);
        lemma_prefixes_exclusive(t, "floresta_wire"@, "floresta_node"@, 9);
    }
    if ("floresta_watch_only"@.len() <= t.len() && t.subrange(0, "floresta_watch_only"@.len() as int) == "floresta_watch_only"@) {
        lemma_prefixes_exclusive(t, "floresta_watch_only"@, "floresta_chain"@, 9);
        lemma_prefixes_exclusive(t, "floresta_watch_only"@, "floresta_electrum"@, 9);
        lemma_prefixes_exclusive(t, "floresta_watch_only"@, "floresta_compact_filters"@, 9);
        lemma_prefixes_exclusive(t, "floresta_watch_only"@, "floresta_mempool"@, 9);
        lemma_prefixes_exclusive(t, "floresta_watch_only"@, "floresta_node"@, 9);
        lemma_prefixes_exclusive(t, "floresta_watch_only"@, "floresta_wire"@, 10);
    }
    if ("florestad"@.len() <= t.len() && t.subrange(0, "florestad"@.len() as int) == "florestad"@) {
        lemma_prefixes_exclusive(t, "florestad"@, "floresta_chain"@, 8);
        lemma_prefixes_exclusive(t, "florestad"@, "floresta_electrum"@, 8);
        lemma_prefixes_exclusive(t, "florestad"@, "floresta_compact_filters"@, 8);
        lemma_prefixes_exclusive(t, "florestad"@, "floresta_mempool"@, 8);
        lemma_prefixes_exclusive(t, "florestad"@, "floresta_node"@, 8);
        lemma_prefixes_exclusive(t, "florestad"@, "floresta_wire"@, 8);
        lemma_prefixes_exclusive(t, "florestad"@, "floresta_watch_only"@, 8);
    }
}

/// Shortens a `floresta_*` crate path to the component it names.
pub fn short_target(target: &str) -> (r: &str)
    ensures
        r@ == short_target_of(target@),
        r@.len() <= target@.len(),
{
    proof {
        reveal_strlit("floresta_chain");
        reveal_strlit("chain");
        reveal_strlit("floresta_electrum");
        reveal_strlit("electrum");
        reveal_strlit("floresta_compact_filters");
        reveal_strlit("filters");
        reveal_strlit("floresta_mempool");
        reveal_strlit("mempool");
        reveal_strlit("floresta_node");
        reveal_strlit("node");
        reveal_strlit("floresta_wire");
        reveal_strlit("wire");
        reveal_strlit("floresta_watch_only");
        reveal_strlit("watch_only");
        reveal_strlit("florestad");
    }
    if starts_with(target, "floresta_chain") {
        "chain"
    } else if starts_with(target, "floresta_electrum") {
        "electrum"
    } else if starts_with(target, "floresta_compact_filters") {
        "filters"
    } else if starts_with(target, "floresta_mempool") {
        "mempool"
    } else if starts_with(target, "floresta_node") {
        "node"
    } else if starts_with(target, "floresta_wire") {
        "wire"
    } else if starts_with(target, "floresta_watch_only") {
        "watch_only"
    } else if starts_with(target, "florestad") {
        "florestad"
    } else {
        target
    }
}

/// The target a log line shows: in full while debug events are enabled,
/// shortened otherwise.
pub fn event_target(target: &str, debug_enabled: bool) -> (r: &str)
    ensures
        r@ == (if debug_enabled { target@ } else { short_target_of(target@) }),
{
    if debug_enabled {
        target
    } else {
        short_target(target)
    }
}

} // verus!
