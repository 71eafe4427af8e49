use cs2love::config::Config;
use cs2love::intiface_session_controller::{is_valid_url, normalize_url_field, normalized_url};

#[test]
fn is_valid_url_accepts_ws_and_wss_schemes() {
    assert!(is_valid_url("ws://127.0.0.1:12345"));
    assert!(is_valid_url("wss://intiface.example.com:443"));
}

#[test]
fn is_valid_url_rejects_other_schemes_and_empty_strings() {
    assert!(!is_valid_url(""));
    assert!(!is_valid_url("   "));
    assert!(!is_valid_url("http://127.0.0.1:12345"));
    assert!(!is_valid_url("not-a-url"));
}

#[test]
fn normalize_url_field_trims_in_place() {
    let mut config = Config::default();
    config.intiface_websocket_url = "  ws://example/  ".into();

    normalize_url_field(&mut config);

    assert_eq!(config.intiface_websocket_url, "ws://example/");
}

#[test]
fn normalized_url_returns_trimmed_value() {
    let mut config = Config::default();
    config.intiface_websocket_url = "  ws://example/  ".into();

    assert_eq!(normalized_url(&config), "ws://example/");
}
