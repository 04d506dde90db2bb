use devcomp::hostip::{host_ip, HostIpError};
use devcomp::landing::WebLandingServer;
use devcomp::strutil::{str_contains, str_eq, truncate, u16_to_string};

#[test]
fn string_equality_is_exact() {
    assert!(str_eq("TERM_PROGRAM", "TERM_PROGRAM"));
    assert!(!str_eq("TERM_PROGRAM", "TERM_PROGRA"));
    assert!(!str_eq("term_program", "TERM_PROGRAM"));
    assert!(str_eq("", ""));
}

#[test]
fn substring_search() {
    assert!(str_contains("xterm-256color", "xterm"));
    assert!(str_contains("xterm", "xterm"));
    assert!(!str_contains("screen", "xterm"));
    assert!(str_contains("anything", ""));
    assert!(!str_contains("", "x"));
}

#[test]
fn truncate_keeps_short_strings() {
    assert_eq!(truncate("short", 40), "short");
    assert_eq!(truncate("exactly", 7), "exactly");
    assert_eq!(truncate("", 3), "");
}

#[test]
fn truncate_cuts_at_the_byte_budget() {
    assert_eq!(truncate("a longer subtitle line", 10), "a longer s...");
    assert_eq!(truncate("abcdef", 0), "...");
    // Multi-byte characters are never split: the seal is three bytes
    // wide, so a two-byte budget drops it whole.
    assert_eq!(truncate("a\u{99ac}bc", 2), "a...");
    assert_eq!(truncate("a\u{99ac}bc", 4), "a\u{99ac}...");
}

#[test]
fn decimal_rendering() {
    assert_eq!(u16_to_string(0), "0");
    assert_eq!(u16_to_string(7), "7");
    assert_eq!(u16_to_string(105), "105");
    assert_eq!(u16_to_string(65535), "65535");
}

#[test]
fn landing_routes() {
    assert_eq!(WebLandingServer::index_path(), "index.html");
    assert_eq!(WebLandingServer::static_status(true), 200);
    assert_eq!(WebLandingServer::static_status(false), 404);
    assert_eq!(WebLandingServer::not_found_body(), "404 Not Found");
}

#[test]
fn host_ip_parses_dotted_quads() {
    assert_eq!(host_ip("127.0.0.1"), Ok([127, 0, 0, 1]));
    assert_eq!(host_ip("0.0.0.0"), Ok([0, 0, 0, 0]));
    assert_eq!(host_ip("255.255.255.255"), Ok([255, 255, 255, 255]));
    // Leading zeros and an explicit plus sign are tolerated.
    assert_eq!(host_ip("007.8.9.10"), Ok([7, 8, 9, 10]));
    assert_eq!(host_ip("+1.2.3.4"), Ok([1, 2, 3, 4]));
}

#[test]
fn host_ip_rejects_malformed_addresses() {
    // An octet out of range, or not a number at all.
    assert_eq!(host_ip("256.0.0.1"), Err(HostIpError::OctetOutOfRange));
    assert_eq!(host_ip("a.b.c.d"), Err(HostIpError::OctetOutOfRange));
    assert_eq!(host_ip(""), Err(HostIpError::OctetOutOfRange));
    // Five octets leave a dot inside the fourth piece.
    assert_eq!(host_ip("1.2.3.4.5"), Err(HostIpError::OctetOutOfRange));
    // Too few pieces.
    assert_eq!(host_ip("1.2.3"), Err(HostIpError::InvalidHostIp));
    assert_eq!(
        HostIpError::InvalidHostIp.message(),
        "Invalid host IP provided"
    );
    assert_eq!(
        HostIpError::OctetOutOfRange.message(),
        "Octet component out of range (expected u8)"
    );
}
