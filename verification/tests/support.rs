use hc_zwave::config::{
    default_broker_host, default_broker_port, default_plugin_id, default_schema_version,
    default_server_url, ServerConfig,
};
use hc_zwave::logging::{
    active_path, default_compress, default_level, default_max_size_mb, log_dir, max_bytes,
    period_str, rotated_file_name, stderr_directive, LoggingConfig, RotationState,
    RotationStrategy,
};
use hc_zwave::paths::{parent_path, path_join, published_ids_cache_path};
use hc_zwave::text::{i64_text, parse_u32, split_once, str_eq, strip_prefix, u64_text};

#[test]
fn config_defaults() {
    assert_eq!(default_broker_host(), "127.0.0.1");
    assert_eq!(default_broker_port(), 1883);
    assert_eq!(default_plugin_id(), "plugin.zwave");
    assert_eq!(default_server_url(), "ws://localhost:3000");
    assert_eq!(default_schema_version(), 32);
    let s = ServerConfig::default();
    assert_eq!((s.url.as_str(), s.schema_version), ("ws://localhost:3000", 32));
}

#[test]
fn logging_defaults() {
    assert_eq!(default_level(), "info");
    assert_eq!(default_max_size_mb(), 100);
    assert!(default_compress());
    let c = LoggingConfig::default();
    assert_eq!(c.level, "info");
    assert_eq!(c.rotation, RotationStrategy::Daily);
    assert_eq!(c.max_size_mb, 100);
    assert!(c.compress);
    assert_eq!(RotationStrategy::default(), RotationStrategy::Daily);
}

#[test]
fn rotation_on_period_change() {
    let mut s = RotationState::new(RotationStrategy::Daily, 0, 5000, "2024-01-01".to_string());
    assert!(!s.needs_rotation("2024-01-01"));
    assert!(!s.needs_rotation(""));
    assert!(s.needs_rotation("2024-01-02"));
    s.period_counter = 3;
    s.enter_period("2024-01-02".to_string());
    assert_eq!(s.current_period, "2024-01-02");
    assert_eq!(s.period_counter, 0);
    s.finish_rotation();
    assert_eq!(s.bytes_written, 0);
    assert_eq!(s.period_counter, 1);
}

#[test]
fn rotation_on_size() {
    let mut s = RotationState::new(RotationStrategy::Never, 100, 99, String::new());
    assert!(!s.needs_rotation(""));
    s.record_write(1);
    assert_eq!(s.bytes_written, 100);
    assert!(!s.needs_rotation(""));
    s.record_write(1);
    assert_eq!(s.bytes_written, 101);
    assert!(s.needs_rotation(""));
    s.enter_period(String::new());
    assert_eq!(s.current_period, "");
    s.finish_rotation();
    assert!(!s.needs_rotation(""));
    assert_eq!(s.period_counter, 1);
    assert_eq!(s.first_numbered_index(), 1);
    s.finish_rotation();
    assert_eq!(s.first_numbered_index(), 2);
    // Same period, size not reached: nothing to do.
    let same = RotationState::new(RotationStrategy::Hourly, 100, 10, "2024-01-01_10".to_string());
    assert!(!same.needs_rotation("2024-01-01_10"));
    assert_eq!(same.rotation_period(), "2024-01-01_10");
}

#[test]
fn rotation_period_without_period_is_a_timestamp() {
    let s = RotationState::new(RotationStrategy::Never, 1, 1, String::new());
    let p = s.rotation_period();
    assert_eq!(p.len(), "2024-01-01T101010".len());
    assert_eq!(&p[10..11], "T");
    assert_eq!(period_str(RotationStrategy::Never), "");
    assert_eq!(period_str(RotationStrategy::Daily).len(), 10);
    assert_eq!(period_str(RotationStrategy::Hourly).len(), 13);
}

#[test]
fn period_text_shapes() {
    let daily = period_str(RotationStrategy::Daily);
    let d: Vec<char> = daily.chars().collect();
    assert_eq!((d[4], d[7]), ('-', '-'));
    assert!(d.iter().enumerate().all(|(i, c)| i == 4 || i == 7 || c.is_ascii_digit()));
    let hourly = period_str(RotationStrategy::Hourly);
    assert_eq!(&hourly[10..11], "_");
    let weekly = period_str(RotationStrategy::Weekly);
    assert_eq!(weekly.len(), 8);
    assert_eq!(&weekly[4..6], "-W");
    assert!(weekly[6..].chars().all(|c| c.is_ascii_digit()));
}

#[test]
fn log_file_names() {
    assert_eq!(rotated_file_name("hc-zwave", "2024-01-02", None), "hc-zwave.2024-01-02.log");
    assert_eq!(rotated_file_name("hc-zwave", "2024-01-02", Some(3)), "hc-zwave.2024-01-02.3.log");
    assert_eq!(active_path("logs", "hc-zwave"), "logs/hc-zwave.log");
    assert_eq!(active_path("/var/log/", "x"), "/var/log/x.log");
    assert_eq!(active_path("", "x"), "x.log");
}

#[test]
fn size_limits() {
    assert_eq!(max_bytes(0), 0);
    assert_eq!(max_bytes(100), 100 * 1024 * 1024);
    assert_eq!(max_bytes(u64::MAX), u64::MAX);
}

#[test]
fn stderr_filter_choice() {
    let d = stderr_directive("info", "hc_zwave=info");
    assert_eq!((d.directive.as_str(), d.is_default), ("hc_zwave=info", true));
    let d = stderr_directive("debug", "hc_zwave=info");
    assert_eq!((d.directive.as_str(), d.is_default), ("debug", false));
}

#[test]
fn path_arithmetic() {
    assert_eq!(path_join("config", "logs"), "config/logs");
    assert_eq!(path_join("config/", "logs"), "config/logs");
    assert_eq!(path_join("config", "/abs"), "/abs");
    assert_eq!(parent_path("config/config.toml"), Some("config".to_string()));
    assert_eq!(parent_path("config.toml"), Some(String::new()));
    assert_eq!(parent_path("/"), None);
    assert_eq!(parent_path(""), None);
    assert_eq!(log_dir("/etc/hc/config/config.toml"), "/etc/hc/logs");
    assert_eq!(log_dir("config/config.toml"), "logs");
    assert_eq!(log_dir("config.toml"), "logs");
    assert_eq!(published_ids_cache_path("config/config.toml"), "config/.published-device-ids.json");
    assert_eq!(published_ids_cache_path("config.toml"), ".published-device-ids.json");
    assert_eq!(published_ids_cache_path("/"), "./.published-device-ids.json");
}

#[test]
fn decimal_text_and_parsing() {
    assert_eq!(u64_text(0), "0");
    assert_eq!(u64_text(1234567890123), "1234567890123");
    assert_eq!(u64_text(u64::MAX), u64::MAX.to_string());
    assert_eq!(i64_text(-1), "-1");
    assert_eq!(i64_text(i64::MIN), i64::MIN.to_string());
    assert_eq!(i64_text(77), "77");
    for s in ["0", "42", "+42", "4294967295", "4294967296", "", "+", "-1", "1a", "007", " 1"] {
        assert_eq!(parse_u32(s), s.parse::<u32>().ok(), "parsing {s:?}");
    }
}

#[test]
fn string_helpers() {
    assert_eq!(split_once("a/b/c", '/'), Some(("a", "b/c")));
    assert_eq!(split_once("abc", '/'), None);
    assert_eq!(split_once("/", '/'), Some(("", "")));
    assert_eq!(strip_prefix("zwave_12", "zwave_"), Some("12"));
    assert_eq!(strip_prefix("zwav", "zwave_"), None);
    assert!(str_eq("Door état", "Door état"));
    assert!(!str_eq("a", "b"));
}
