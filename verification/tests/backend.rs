use overlay_window::backend::{
    backend_autostart, backend_host, configured_port, exhausted_notice, fallback_notice,
    flag_enabled, is_truthy, parse_port, port_text, sidecar_names, PortScan,
    BACKEND_PORT_ATTEMPTS,
    DEFAULT_BACKEND_HOST, DEFAULT_BACKEND_PORT, SIDECAR_NAME,
};
use overlay_window::debug_tools::should_open_devtools;

#[test]
fn port_text_is_plain_decimal() {
    assert_eq!(port_text(0), "0");
    assert_eq!(port_text(7), "7");
    assert_eq!(port_text(10), "10");
    assert_eq!(port_text(8090), "8090");
    assert_eq!(port_text(12345), "12345");
    assert_eq!(port_text(60708), "60708");
    assert_eq!(port_text(u16::MAX), "65535");
    for port in [1u16, 9, 99, 100, 101, 999, 1000, 9999, 10000, 54321] {
        assert_eq!(port_text(port), port.to_string());
    }
}

#[test]
fn truthy_settings_are_one_true_and_yes() {
    assert!(is_truthy("1"));
    assert!(is_truthy("true"));
    assert!(is_truthy("yes"));
    assert!(!is_truthy(""));
    assert!(!is_truthy("0"));
    assert!(!is_truthy("TRUE"));
    assert!(!is_truthy("on"));
    assert!(!is_truthy("true "));
    assert!(!is_truthy("yes1"));
}

#[test]
fn flag_is_read_without_regard_to_case() {
    assert!(flag_enabled(Some("TRUE"), false));
    assert!(flag_enabled(Some("Yes"), false));
    assert!(flag_enabled(Some("yEs"), false));
    assert!(flag_enabled(Some("1"), false));
    assert!(!flag_enabled(Some("no"), true));
    assert!(!flag_enabled(Some(""), true));
    assert!(!flag_enabled(Some(" true"), true));
}

#[test]
fn absent_flag_takes_the_default() {
    assert!(flag_enabled(None, true));
    assert!(!flag_enabled(None, false));
}

#[test]
fn autostart_defaults_to_release_builds() {
    assert!(backend_autostart(None, false));
    assert!(!backend_autostart(None, true));
    assert!(backend_autostart(Some("TRUE"), true));
    assert!(!backend_autostart(Some("0"), false));
}

#[test]
fn devtools_open_only_when_asked_for() {
    assert!(!should_open_devtools(None));
    assert!(should_open_devtools(Some("1")));
    assert!(should_open_devtools(Some("True")));
    assert!(should_open_devtools(Some("YES")));
    assert!(!should_open_devtools(Some("false")));
}

#[test]
fn backend_host_defaults_to_loopback() {
    assert_eq!(DEFAULT_BACKEND_HOST, "127.0.0.1");
    assert_eq!(backend_host(None), "127.0.0.1");
    assert_eq!(backend_host(Some("0.0.0.0".to_string())), "0.0.0.0");
    assert_eq!(backend_host(Some(String::new())), "");
}

#[test]
fn configured_port_is_the_number_the_setting_spells() {
    assert_eq!(configured_port(Some("8090")), Some(8090));
    assert_eq!(configured_port(Some("0")), Some(0));
    assert_eq!(configured_port(Some("65535")), Some(65535));
    assert_eq!(configured_port(Some("65536")), None);
    assert_eq!(configured_port(Some("-1")), None);
    assert_eq!(configured_port(Some("")), None);
    assert_eq!(configured_port(Some("80a")), None);
    assert_eq!(configured_port(Some(" 80")), None);
    assert_eq!(configured_port(None), None);
}

#[test]
fn parse_port_reads_plain_decimal() {
    assert_eq!(parse_port("0"), Some(0));
    assert_eq!(parse_port("8090"), Some(8090));
    assert_eq!(parse_port("65535"), Some(65535));
    assert_eq!(parse_port("+443"), Some(443));
    assert_eq!(parse_port("00080"), Some(80));
    assert_eq!(parse_port("+0000000000000000000065535"), Some(65535));
}

#[test]
fn parse_port_refuses_everything_else() {
    for text in [
        "", "+", "-", "-0", "-1", "++1", "+-1", "1+", "65536", "70000", "99999999999999999999",
        " 80", "80 ", "8 0", "80a", "a80", "0x50", "8_0", "8.0", "1e3", "\u{0661}", "\u{ff11}",
    ] {
        assert_eq!(parse_port(text), None);
    }
}

#[test]
fn parse_port_agrees_with_the_standard_parser() {
    let mut texts: Vec<String> = Vec::new();
    for n in (0u32..70000).step_by(7) {
        texts.push(n.to_string());
        texts.push(format!("+{n}"));
        texts.push(format!("0{n}"));
        texts.push(format!("-{n}"));
        texts.push(format!("{n} "));
    }
    for n in [65534u32, 65535, 65536, 65537, 655350, 4294967295] {
        texts.push(n.to_string());
    }
    for text in texts {
        assert_eq!(parse_port(&text), text.parse::<u16>().ok());
    }
}

#[test]
fn port_text_and_parse_port_round_trip() {
    for port in (0..=u16::MAX).step_by(13) {
        assert_eq!(parse_port(&port_text(port)), Some(port));
    }
    assert_eq!(parse_port(&port_text(u16::MAX)), Some(u16::MAX));
}

#[test]
fn port_scan_hands_out_consecutive_ports() {
    assert_eq!(DEFAULT_BACKEND_PORT, 8090);
    assert_eq!(BACKEND_PORT_ATTEMPTS, 3);
    let mut scan = PortScan::new(DEFAULT_BACKEND_PORT, BACKEND_PORT_ATTEMPTS);
    assert_eq!(scan, PortScan { base_port: 8090, attempts: 3, tried: 0 });
    assert!(!scan.is_fallback());
    assert_eq!(scan.next_port(), Some(8090));
    assert!(!scan.is_fallback());
    assert_eq!(scan.next_port(), Some(8091));
    assert!(scan.is_fallback());
    assert_eq!(scan.next_port(), Some(8092));
    assert!(scan.is_fallback());
    assert_eq!(scan.next_port(), None);
    assert_eq!(scan.next_port(), None);
    assert_eq!(scan, PortScan { base_port: 8090, attempts: 3, tried: 3 });
    assert_eq!(scan.last_port(), 8092);
}

#[test]
fn port_scan_stops_at_the_highest_port() {
    let mut scan = PortScan::new(65534, 4);
    assert_eq!(scan.next_port(), Some(65534));
    assert_eq!(scan.next_port(), Some(65535));
    assert_eq!(scan.next_port(), Some(65535));
    assert_eq!(scan.next_port(), Some(65535));
    assert_eq!(scan.next_port(), None);
    assert_eq!(scan.last_port(), 65535);
}

#[test]
fn port_scan_without_attempts_hands_out_nothing() {
    let mut scan = PortScan::new(8090, 0);
    assert_eq!(scan.next_port(), None);
    assert_eq!(scan.last_port(), 8090);
    assert_eq!(PortScan::new(100, 1).last_port(), 100);
    assert_eq!(PortScan::new(u16::MAX, u16::MAX).last_port(), u16::MAX);
}

#[test]
fn port_notices_name_the_ports() {
    assert_eq!(fallback_notice(8090, 8091), "backend port 8090 in use; fallback to 8091");
    let scan = PortScan::new(8090, 3);
    assert_eq!(exhausted_notice(&scan), "no available backend port in 8090-8092");
    assert_eq!(exhausted_notice(&PortScan::new(65535, 9)), "no available backend port in 65535-65535");
}

#[test]
fn sidecar_names_list_each_triple_once() {
    assert_eq!(SIDECAR_NAME, "whalewhisper-backend");
    assert_eq!(sidecar_names(None, None), vec!["whalewhisper-backend".to_string()]);
    assert_eq!(
        sidecar_names(Some("x86_64-unknown-linux-gnu"), None),
        vec![
            "whalewhisper-backend-x86_64-unknown-linux-gnu".to_string(),
            "whalewhisper-backend".to_string()
        ]
    );
    assert_eq!(
        sidecar_names(None, Some("aarch64-apple-darwin")),
        vec!["whalewhisper-backend-aarch64-apple-darwin".to_string(), "whalewhisper-backend".to_string()]
    );
    assert_eq!(
        sidecar_names(Some("a"), Some("a")),
        vec!["whalewhisper-backend-a".to_string(), "whalewhisper-backend".to_string()]
    );
    assert_eq!(
        sidecar_names(Some("a"), Some("b")),
        vec![
            "whalewhisper-backend-a".to_string(),
            "whalewhisper-backend-b".to_string(),
            "whalewhisper-backend".to_string()
        ]
    );
}
