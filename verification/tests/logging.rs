use floresta_ffi::logging::{
    event_target, is_debug_level, log_level_for, short_target, timestamp_format, LogLevel,
    CHRONO_FORMATTER, CHRONO_FORMATTER_DEBUG, LOG_FILE,
};

#[test]
fn node_crates_are_shortened() {
    assert_eq!(short_target("floresta_chain::pruned_utreexo"), "chain");
    assert_eq!(short_target("floresta_electrum::electrum_protocol"), "electrum");
    assert_eq!(short_target("floresta_compact_filters"), "filters");
    assert_eq!(short_target("floresta_mempool::mempool"), "mempool");
    assert_eq!(short_target("floresta_node::florestad"), "node");
    assert_eq!(short_target("floresta_wire::p2p_wire::node"), "wire");
    assert_eq!(short_target("floresta_watch_only::kv_database"), "watch_only");
    assert_eq!(short_target("florestad::cli"), "florestad");
}

#[test]
fn other_targets_are_kept() {
    assert_eq!(short_target("tokio::runtime"), "tokio::runtime");
    assert_eq!(short_target(""), "");
    assert_eq!(short_target("floresta"), "floresta");
    assert_eq!(short_target("floresta_common"), "floresta_common");
}

#[test]
fn prefix_match_is_on_the_start_only() {
    assert_eq!(short_target("floresta_chainstate"), "chain");
    assert_eq!(short_target("my_floresta_chain"), "my_floresta_chain");
}

#[test]
fn short_target_never_lengthens() {
    for t in ["florestad", "floresta_node", "floresta_wire", "x", "floresta_watch_only::a"] {
        assert!(short_target(t).len() <= t.len());
    }
}

#[test]
fn event_target_is_full_when_debugging() {
    assert_eq!(event_target("floresta_wire::node", true), "floresta_wire::node");
    assert_eq!(event_target("floresta_wire::node", false), "wire");
}

#[test]
fn timestamp_formats() {
    assert_eq!(timestamp_format(true), "%Y-%m-%d %H:%M:%S%.3f");
    assert_eq!(timestamp_format(false), "%Y-%m-%d %H:%M:%S");
    assert_eq!(CHRONO_FORMATTER, "%Y-%m-%d %H:%M:%S");
    assert_eq!(CHRONO_FORMATTER_DEBUG, "%Y-%m-%d %H:%M:%S%.3f");
    assert_eq!(LOG_FILE, "debug.log");
}

#[test]
fn levels() {
    assert_eq!(log_level_for(true), LogLevel::Debug);
    assert_eq!(log_level_for(false), LogLevel::Info);
    assert!(is_debug_level(LogLevel::Trace));
    assert!(is_debug_level(LogLevel::Debug));
    assert!(!is_debug_level(LogLevel::Info));
    assert!(!is_debug_level(LogLevel::Warn));
    assert!(!is_debug_level(LogLevel::Error));
}

#[test]
fn debug_flag_selects_debug_logging() {
    for debug in [true, false] {
        assert_eq!(is_debug_level(log_level_for(debug)), debug);
    }
}
