use andon::gate::Gate;
use andon::table::SignalTable;
use andon::text::{decimal_string, hex_string, signed_decimal_string};
use andon::{Logic, Signal};

#[test]
fn decimal_notation() {
    assert_eq!(decimal_string(0), "0");
    assert_eq!(decimal_string(1030), "1030");
    assert_eq!(decimal_string(u128::MAX), u128::MAX.to_string());
    assert_eq!(signed_decimal_string(-1), "-1");
    assert_eq!(signed_decimal_string(i64::MIN), i64::MIN.to_string());
    assert_eq!(signed_decimal_string(42), "42");
}

#[test]
fn hex_notation() {
    assert_eq!(hex_string(&[]), "");
    assert_eq!(hex_string(&[0x00, 0x0f, 0xbe, 0xef]), "000fbeef");
}

#[test]
fn table_counts_follow_records() {
    let mut t = SignalTable::new();
    assert!(t.all(Signal::On) && t.all(Signal::Off));
    assert_eq!(t.record("a".to_string(), Signal::On), None);
    assert_eq!(t.record("b".to_string(), Signal::Off), None);
    assert_eq!(t.count_on(), 1);
    assert_eq!(t.record("a".to_string(), Signal::Off), Some(Signal::On));
    assert_eq!(t.count_on(), 0);
    assert!(t.all(Signal::Off));
    assert!(!t.any(Signal::On));
    assert!(t.any(Signal::Off));
}

#[test]
fn meross_plug_follows_an_or_of_its_inputs() {
    let mut plug = Gate::new(Logic::Or);
    assert_eq!(plug.observe("api".to_string(), Signal::On), Some(Signal::On));
    assert_eq!(plug.observe("cron".to_string(), Signal::On), None);
    assert_eq!(plug.observe("api".to_string(), Signal::Off), None);
    assert_eq!(plug.observe("cron".to_string(), Signal::Off), Some(Signal::Off));
}
