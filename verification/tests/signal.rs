use andon::{Message, Signal};

#[test]
fn as_str_names_both_states() {
    assert_eq!(Signal::On.as_str(), "on");
    assert_eq!(Signal::Off.as_str(), "off");
}

#[test]
fn message_clone_keeps_source_and_signal() {
    let m = Message { source: "src".to_string(), signal: Signal::On };
    let c = m.clone();
    assert_eq!(c.source, "src");
    assert_eq!(c.signal, Signal::On);
}
