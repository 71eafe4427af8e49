use cs2love::config::Config;
use cs2love::intiface_session_controller::normalized_url;
use cs2love::text::push_decimal;

#[test]
fn push_decimal_writes_digits() {
    let mut out = String::from("n=");
    push_decimal(&mut out, 0);
    out.push(',');
    push_decimal(&mut out, 42);
    out.push(',');
    push_decimal(&mut out, u64::MAX);
    assert_eq!(out, "n=0,42,18446744073709551615");
}

#[test]
fn trimming_removes_unicode_whitespace_only_at_the_ends() {
    let mut config = Config::default();
    config.intiface_websocket_url = "\u{3000}\t ws://a b\u{a0}\n".into();
    assert_eq!(normalized_url(&config), "ws://a b");
    config.intiface_websocket_url = normalized_url(&config);
    assert_eq!(normalized_url(&config), "ws://a b");
}
