use llm_gateway_auth::settings::{
    current_unix_time, development_mode, validity_days, TokenSettings, MAX_VALIDITY_DAYS,
};

#[test]
fn validity_defaults_to_fifteen_days() {
    assert_eq!(validity_days(None), 15);
    assert_eq!(validity_days(Some("abc")), 15);
    assert_eq!(validity_days(Some("")), 15);
    assert_eq!(validity_days(Some("0")), 15);
    assert_eq!(validity_days(Some("-3")), 15);
}

#[test]
fn configured_validity_is_used() {
    assert_eq!(validity_days(Some("7")), 7);
    assert_eq!(validity_days(Some("30")), 30);
    assert_eq!(validity_days(Some("+7")), 7);
    assert_eq!(validity_days(Some("-")), 15);
    assert_eq!(validity_days(Some(" 7")), 15);
    assert_eq!(validity_days(Some("1")), 1);
    assert_eq!(validity_days(Some("106751991")), MAX_VALIDITY_DAYS);
    assert_eq!(validity_days(Some("106751992")), 15);
}

#[test]
fn settings_hold_secret_and_period() {
    let s = TokenSettings::new(b"k".to_vec(), Some("30"));
    assert_eq!(s.secret, b"k".to_vec());
    assert_eq!(s.validity_days, 30);
}

#[test]
fn clock_reads_after_2020() {
    assert!(current_unix_time() > 1_577_836_800);
}

#[test]
fn development_mode_follows_log_filter() {
    assert!(!development_mode(None));
    assert!(!development_mode(Some("")));
    assert!(!development_mode(Some("info")));
    assert!(!development_mode(Some("debu")));
    assert!(development_mode(Some("debug")));
    assert!(development_mode(Some("info,tower_http=debug")));
    assert!(!development_mode(Some("DEBUG")));
}
