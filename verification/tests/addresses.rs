use autotrade::endpoint::{
    account_summary_url, api_base, orders_url, parse_failed, performance_url, positions_url,
    request_failed, HTTP_TIMEOUT_SECS,
};
use autotrade::text::{decimal_string, digit_text, prefixed};

#[test]
fn fixed_configuration() {
    assert_eq!(api_base(), "http://localhost:8001");
    assert_eq!(HTTP_TIMEOUT_SECS, 60);
}

#[test]
fn endpoint_addresses() {
    assert_eq!(positions_url(), "http://localhost:8001/api/v1/positions");
    assert_eq!(account_summary_url(), "http://localhost:8001/api/v1/portfolio");
    assert_eq!(orders_url(), "http://localhost:8001/api/v1/orders");
}

#[test]
fn performance_address_with_and_without_period() {
    assert_eq!(performance_url(None), "http://localhost:8001/api/v1/portfolio/performance");
    assert_eq!(
        performance_url(Some("30d")),
        "http://localhost:8001/api/v1/portfolio/performance?period=30d"
    );
    for p in ["1d", "7d", "ytd", "1y", "all"] {
        assert_eq!(
            performance_url(Some(p)),
            format!("http://localhost:8001/api/v1/portfolio/performance?period={}", p)
        );
    }
    assert_eq!(
        performance_url(Some("")),
        "http://localhost:8001/api/v1/portfolio/performance?period="
    );
}

#[test]
fn transport_failures_are_described() {
    assert_eq!(request_failed("operation timed out"), "Request failed: operation timed out");
    assert_eq!(
        parse_failed("expected value at line 1 column 1"),
        "Failed to parse response: expected value at line 1 column 1"
    );
    assert_eq!(request_failed(""), "Request failed: ");
}

#[test]
fn decimal_rendering() {
    assert_eq!(decimal_string(0), "0");
    assert_eq!(decimal_string(9), "9");
    assert_eq!(decimal_string(10), "10");
    assert_eq!(decimal_string(99), "99");
    assert_eq!(decimal_string(100), "100");
    assert_eq!(decimal_string(404), "404");
    assert_eq!(decimal_string(1000), "1000");
    assert_eq!(decimal_string(65535), "65535");
}

#[test]
fn decimal_rendering_agrees_with_std_everywhere() {
    for n in 0..=u16::MAX {
        assert_eq!(decimal_string(n), n.to_string());
    }
}

#[test]
fn digits_and_joining() {
    let all: Vec<&str> = (0..10).map(digit_text).collect();
    assert_eq!(all, vec!["0", "1", "2", "3", "4", "5", "6", "7", "8", "9"]);
    assert_eq!(digit_text(10), "0");
    assert_eq!(digit_text(404), "4");
    assert_eq!(digit_text(65535), "5");
    assert_eq!(prefixed("ab", "cd"), "abcd");
    assert_eq!(prefixed("", "cd"), "cd");
    assert_eq!(prefixed("ab", ""), "ab");
}
