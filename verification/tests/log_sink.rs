use andon::{Change, LogSink, Signal, StateTracker};

#[test]
fn first_signal_is_initial() {
    let mut t = StateTracker::default();
    assert_eq!(t.observe("a", Signal::Off), Change::Initial);
}

#[test]
fn repeat_is_unchanged() {
    let mut t = StateTracker::default();
    t.observe("a", Signal::Off);
    assert_eq!(t.observe("a", Signal::Off), Change::Unchanged);
}

#[test]
fn transition_reports_previous() {
    let mut t = StateTracker::default();
    t.observe("a", Signal::Off);
    assert_eq!(
        t.observe("a", Signal::On),
        Change::Changed { previous: Signal::Off }
    );
}

#[test]
fn sources_tracked_independently() {
    let mut t = StateTracker::default();
    t.observe("a", Signal::On);
    assert_eq!(t.observe("b", Signal::On), Change::Initial);
    assert_eq!(t.observe("a", Signal::On), Change::Unchanged);
}

#[test]
fn log_sink_keeps_its_name() {
    let s = LogSink::new("logger".to_string());
    assert_eq!(s.name(), "logger");
}
