use andon::{And, Delay, DelayGate, DelayStep, Gate, Logic, NodeKind, Not, Or, Signal, Span, Xor};

fn s(x: &str) -> String {
    x.to_string()
}

#[test]
fn not_emits_on_at_startup_and_inverts() {
    let (sink, source) = Not::new(s("not1"), vec![s("out")]).split();
    assert_eq!(sink.name, "not1");
    assert!(matches!(sink.kind, NodeKind::Logic(Logic::Not)));
    assert_eq!(source.name, "not1");
    assert_eq!(source.sinks, vec![s("out")]);
    let mut g = Gate::new(Logic::Not);
    assert_eq!(g.startup(), Some(Signal::On));
    // Already On: an Off input changes nothing.
    assert_eq!(g.observe(s("a"), Signal::Off), None);
    assert_eq!(g.observe(s("a"), Signal::On), Some(Signal::Off));
    assert_eq!(g.observe(s("b"), Signal::Off), None);
    assert_eq!(g.observe(s("a"), Signal::Off), Some(Signal::On));
}

#[test]
fn or_follows_any_input() {
    let mut g = Gate::new(Logic::Or);
    assert_eq!(g.startup(), None);
    assert_eq!(g.observe(s("a"), Signal::Off), None);
    assert_eq!(g.observe(s("b"), Signal::On), Some(Signal::On));
    assert_eq!(g.observe(s("a"), Signal::On), None);
    assert_eq!(g.observe(s("b"), Signal::Off), None);
    assert_eq!(g.observe(s("a"), Signal::Off), Some(Signal::Off));
}

#[test]
fn and_needs_every_input() {
    let (sink, _) = And::new(s("all-ok"), vec![]).split();
    assert!(matches!(sink.kind, NodeKind::Logic(Logic::And)));
    let mut g = Gate::new(Logic::And);
    assert_eq!(g.startup(), None);
    assert_eq!(g.observe(s("a"), Signal::On), Some(Signal::On));
    assert_eq!(g.observe(s("b"), Signal::Off), Some(Signal::Off));
    assert_eq!(g.observe(s("b"), Signal::On), Some(Signal::On));
    assert_eq!(g.observe(s("a"), Signal::Off), Some(Signal::Off));
}

#[test]
fn and_first_off_is_silent() {
    let mut g = Gate::new(Logic::And);
    assert_eq!(g.observe(s("a"), Signal::Off), None);
}

#[test]
fn xor_follows_parity() {
    let (sink, _) = Xor::new(s("parity"), vec![]).split();
    assert!(matches!(sink.kind, NodeKind::Logic(Logic::Xor)));
    let mut g = Gate::new(Logic::Xor);
    assert_eq!(g.observe(s("a"), Signal::On), Some(Signal::On));
    assert_eq!(g.observe(s("b"), Signal::On), Some(Signal::Off));
    assert_eq!(g.observe(s("c"), Signal::On), Some(Signal::On));
    assert_eq!(g.observe(s("c"), Signal::Off), Some(Signal::Off));
    assert_eq!(g.observe(s("c"), Signal::Off), None);
}

#[test]
fn node_parts_keep_name_and_sinks() {
    let (sink, source) = Or::new(s("o"), vec![s("x"), s("y")]).split();
    assert_eq!(sink.name, "o");
    assert!(matches!(sink.kind, NodeKind::Logic(Logic::Or)));
    assert_eq!(source.name, "o");
    assert_eq!(source.sinks, vec![s("x"), s("y")]);
}

#[test]
fn delay_arms_then_emits_on_when_timer_elapses() {
    let mut g = DelayGate::new();
    assert!(!g.armed());
    assert_eq!(
        g.on_message(s("a"), Signal::On),
        DelayStep { emit: None, start_timer: true }
    );
    assert!(g.armed());
    // A repeat does not restart the countdown.
    assert_eq!(
        g.on_message(s("a"), Signal::On),
        DelayStep { emit: None, start_timer: false }
    );
    assert_eq!(g.on_timer(), Some(Signal::On));
    assert!(!g.armed());
    assert_eq!(g.on_timer(), None);
    assert_eq!(
        g.on_message(s("a"), Signal::Off),
        DelayStep { emit: Some(Signal::Off), start_timer: false }
    );
}

#[test]
fn delay_cancelled_when_all_inputs_go_off() {
    let mut g = DelayGate::new();
    g.on_message(s("a"), Signal::On);
    assert_eq!(
        g.on_message(s("a"), Signal::Off),
        DelayStep { emit: None, start_timer: false }
    );
    assert!(!g.armed());
    assert_eq!(g.on_timer(), None);
}

#[test]
fn delay_cancelled_when_an_input_goes_off_before_it_elapses() {
    // a and b On at t=0, a Off at t=10 (delay 30 s): the countdown stops.
    let mut g = DelayGate::new();
    assert!(g.on_message(s("a"), Signal::On).start_timer);
    assert!(!g.on_message(s("b"), Signal::On).start_timer);
    assert_eq!(
        g.on_message(s("a"), Signal::Off),
        DelayStep { emit: None, start_timer: false }
    );
    assert!(!g.armed());
    assert_eq!(g.on_timer(), None);
    // A later message while b is still On starts a new countdown.
    assert!(g.on_message(s("b"), Signal::On).start_timer);
    // A repeated Off from an input already off cancels nothing.
    assert!(!g.on_message(s("a"), Signal::Off).start_timer);
    assert!(g.armed());
    assert_eq!(g.on_timer(), Some(Signal::On));
}

#[test]
fn delay_never_emits_on_from_a_message() {
    let mut g = DelayGate::new();
    for (src, sig) in [("a", Signal::On), ("b", Signal::On), ("a", Signal::Off), ("b", Signal::Off)] {
        assert_ne!(g.on_message(s(src), sig).emit, Some(Signal::On));
    }
}

#[test]
fn delay_parts_keep_length() {
    let (sink, source) = Delay::new(s("d"), Span::from_secs(30), vec![s("x")]).split();
    assert_eq!(sink.name, "d");
    match sink.kind {
        NodeKind::Delay(delay) => {
            assert_eq!(delay.secs(), 30);
            assert_eq!(delay.subsec_nanos(), 0);
        }
        NodeKind::Logic(_) => panic!("expected a delay"),
    }
    assert_eq!(source.name, "d");
    assert_eq!(source.sinks, vec![s("x")]);
}
