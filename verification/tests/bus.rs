use andon::{
    fan_out, Bus, LogSink, Logic, MerossSink, NodeKind, NodeSink, NodeSource, Region, Signal,
    SinkSpec, SourceSpec, Step, StepKind,
};

fn s(x: &str) -> String {
    x.to_string()
}

fn node_source(name: &str, sinks: &[&str]) -> SourceSpec {
    SourceSpec::Node(NodeSource {
        name: s(name),
        sinks: sinks.iter().map(|n| s(n)).collect(),
    })
}

#[test]
fn unknown_sink_names_are_reported() {
    let mut bus = Bus::new();
    bus.add_source(node_source("s", &["nope"]));
    let missing = bus.run().err().expect("run should fail");
    assert_eq!(missing, vec!["nope".to_owned()]);
}

#[test]
fn messages_are_tagged_and_fanned_out() {
    let mut bus = Bus::new();
    bus.add_sink(SinkSpec::Log(LogSink::new(s("a"))));
    bus.add_sink(SinkSpec::Log(LogSink::new(s("b"))));
    bus.add_source(node_source("src", &["a", "b"]));
    let w = bus.run().ok().expect("run should succeed");
    assert_eq!(w.routes, vec![vec![0, 1]]);
    assert_eq!(w.sinks[w.routes[0][0]].name(), "a");
    assert_eq!(w.sinks[w.routes[0][1]].name(), "b");
    for signal in [Signal::On, Signal::Off] {
        let out = fan_out(w.sources[0].name(), &w.routes[0], signal);
        assert_eq!(out.len(), 2);
        for (j, (k, msg)) in out.iter().enumerate() {
            assert_eq!(*k, j);
            assert_eq!(w.sinks[*k].name(), ["a", "b"][j]);
            assert_eq!(msg.source, "src");
            assert_eq!(msg.signal, signal);
        }
    }
}

#[test]
fn startup_clears_alarms_then_connects_sinks_then_starts_sources() {
    let mut bus = Bus::new();
    bus.add_alarm(MerossSink::new(s("plug"), s("Light"), s("e"), s("p"), Region::Eu));
    bus.add_sink(SinkSpec::Log(LogSink::new(s("a"))));
    bus.add_sink(SinkSpec::Log(LogSink::new(s("b"))));
    bus.add_source(node_source("src", &["a"]));
    let w = bus.run().ok().expect("run should succeed");
    let step = |kind, index| Step { kind, index };
    assert_eq!(
        w.startup_plan(),
        vec![
            step(StepKind::ClearAlarm, 0),
            step(StepKind::InitSink, 0),
            step(StepKind::InitSink, 1),
            step(StepKind::StartSink, 0),
            step(StepKind::StartSink, 1),
            step(StepKind::StartSource, 0),
        ]
    );
    assert_eq!(w.shutdown.shutdown_plan(), vec![step(StepKind::ClearAlarm, 0)]);
    assert!(Bus::new().run().ok().expect("empty bus").startup_plan().is_empty());
}

#[test]
fn missing_names_keep_source_order_and_repeats() {
    let mut bus = Bus::new();
    bus.add_sink(SinkSpec::Log(LogSink::new(s("known"))));
    bus.add_source(node_source("one", &["x", "known", "y"]));
    bus.add_source(node_source("two", &["x"]));
    assert_eq!(bus.missing(), vec![s("x"), s("y"), s("x")]);
    let missing = bus.run().err().expect("wiring should fail");
    assert_eq!(missing, vec![s("x"), s("y"), s("x")]);
}

#[test]
fn sink_of_same_name_replaces_earlier_one() {
    let mut bus = Bus::new();
    bus.add_sink(SinkSpec::Log(LogSink::new(s("a"))));
    bus.add_sink(SinkSpec::Node(NodeSink { name: s("a"), kind: NodeKind::Logic(Logic::Or) }));
    bus.add_sink(SinkSpec::Log(LogSink::new(s("b"))));
    bus.add_source(node_source("src", &["b", "a"]));
    let w = bus.run().ok().expect("wiring should succeed");
    assert_eq!(w.sinks.len(), 2);
    assert!(matches!(w.sinks[0], SinkSpec::Node(_)));
    assert_eq!(w.routes, vec![vec![1, 0]]);
    assert!(w.shutdown.alarms().is_empty());
}

#[test]
fn default_bus_is_empty() {
    let bus = Bus::default();
    assert!(bus.missing().is_empty());
    let w = bus.run().ok().expect("an empty bus wires");
    assert!(w.sources.is_empty() && w.sinks.is_empty() && w.routes.is_empty());
}
