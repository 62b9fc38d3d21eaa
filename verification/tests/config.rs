use andon::{
    count_span_units, parse_span, Config, NodeConfig, NodeKind, SinkConfig, SinkSpec, SourceConfig,
    SourceSpec,
};

fn s(x: &str) -> String {
    x.to_string()
}

fn url(name: &str, interval: &str, sinks: &[&str]) -> SourceConfig {
    SourceConfig::Url {
        name: s(name),
        url: s("https://api.example.com/health"),
        interval: s(interval),
        timeout: Some(s("5s")),
        stddev: Some(s("1m30s")),
        pattern: Some(s("\"status\":\"ok\"")),
        sinks: sinks.iter().map(|n| s(n)).collect(),
    }
}

fn full_example() -> Config {
    Config::new(
        vec![
            url("api", "30s", &["alarm-gate"]),
            SourceConfig::Cron {
                name: s("on-call"),
                cron: s("0 0 8 * * Mon-Fri"),
                duration: s("10h"),
                sinks: vec![s("alarm-gate")],
            },
        ],
        vec![
            NodeConfig::And { name: s("alarm-gate"), sinks: vec![s("debounce")] },
            NodeConfig::Delay { name: s("debounce"), delay: s("30s"), sinks: vec![s("alarm")] },
        ],
        vec![SinkConfig::Meross {
            name: s("alarm"),
            device: s("Alarm Light"),
            email: s("user@example.com"),
            password: s("s3cr3t"),
            region: s("eu"),
            channel: None,
        }],
    )
}

#[test]
fn full_example_builds_and_wires() {
    let bus = full_example().build().ok().expect("config builds");
    let w = bus.run().ok().expect("all sinks known");
    assert_eq!(w.sources.len(), 4);
    let names: Vec<&str> = w.sources.iter().map(|x| x.name()).collect();
    assert_eq!(names, vec!["api", "on-call", "alarm-gate", "debounce"]);
    let sinks: Vec<&str> = w.sinks.iter().map(|x| x.name()).collect();
    assert_eq!(sinks, vec!["alarm-gate", "debounce", "alarm"]);
    assert_eq!(w.routes, vec![vec![0], vec![0], vec![1], vec![2]]);
    assert_eq!(w.shutdown.alarms().len(), 1);
    assert_eq!(w.shutdown.alarms()[0].name(), "alarm");
    assert_eq!(w.shutdown.alarms()[0].channel(), 0);
    assert_eq!(w.shutdown.alarms()[0].region().api_base(), "https://iotx-eu.meross.com");
    match &w.sources[0] {
        SourceSpec::Url(u) => {
            assert_eq!(u.timeout().secs(), 5);
            assert_eq!(u.schedule().interval().secs(), 30);
            assert_eq!(u.pattern().expect("pattern").as_str(), "\"status\":\"ok\"");
        }
        _ => panic!("expected a URL source"),
    }
    match &w.sinks[1] {
        SinkSpec::Node(n) => assert_eq!(n.name, "debounce"),
        _ => panic!("expected a node sink"),
    }
}

#[test]
fn humantime_parses_compound_durations() {
    let c = Config::new(vec![url("u", "1m30s", &[])], vec![], vec![]);
    let bus = c.build().ok().expect("builds");
    let w = bus.run().ok().expect("wires");
    match &w.sources[0] {
        SourceSpec::Url(u) => assert_eq!(u.schedule().interval().secs(), 90),
        _ => panic!("expected a URL source"),
    }
}

#[test]
fn bad_duration_is_reported() {
    let c = Config::new(vec![url("u", "soon", &[])], vec![], vec![]);
    let e = c.build().err().expect("bad duration");
    assert!(e.contains("expected number"), "{}", e);
}

#[test]
fn first_failing_entry_gives_the_error() {
    let c = Config::new(
        vec![SourceConfig::Cron {
            name: s("c"),
            cron: s("bad"),
            duration: s("1h"),
            sinks: vec![],
        }],
        vec![NodeConfig::Delay { name: s("d"), delay: s("x"), sinks: vec![] }],
        vec![],
    );
    let e = c.build().err().expect("bad cron");
    assert_eq!(e, "invalid cron spec \"bad\": Invalid expression: Invalid cron expression.");
}

#[test]
fn node_delay_error_after_good_sources() {
    let c = Config::new(
        vec![],
        vec![
            NodeConfig::Not { name: s("n"), sinks: vec![] },
            NodeConfig::Delay { name: s("d"), delay: s(""), sinks: vec![] },
        ],
        vec![],
    );
    let e = c.build().err().expect("bad delay");
    assert_eq!(e, "value was empty");
}

#[test]
fn bad_pattern_is_reported() {
    let mut src = url("u", "1s", &[]);
    if let SourceConfig::Url { pattern, .. } = &mut src {
        *pattern = Some(s("("));
    }
    let e = Config::new(vec![src], vec![], vec![]).build().err().expect("bad regex");
    assert!(e.contains("regex parse error"), "{}", e);
}

#[test]
fn custom_region_and_channel() {
    let c = Config::new(
        vec![],
        vec![],
        vec![
            SinkConfig::Log { name: s("logger") },
            SinkConfig::Meross {
                name: s("plug"),
                device: s("Kitchen Plug"),
                email: s("e"),
                password: s("p"),
                region: s("https://example.test"),
                channel: Some(2),
            },
        ],
    );
    let w = c.build().ok().expect("builds").run().ok().expect("wires");
    assert_eq!(w.sinks.len(), 2);
    let alarm = &w.shutdown.alarms()[0];
    assert_eq!(alarm.channel(), 2);
    assert_eq!(alarm.region().api_base(), "https://example.test");
    assert_eq!(alarm.device_name(), "Kitchen Plug");
}

#[test]
fn unknown_sink_in_config_fails_wiring() {
    let c = Config::new(vec![url("u", "1s", &["nope"])], vec![], vec![]);
    let missing = c.build().ok().expect("builds").run().err().expect("missing sink");
    assert_eq!(missing, vec![s("nope")]);
}

#[test]
fn documented_duration_examples() {
    for (text, secs) in [("30s", 30), ("1m", 60), ("1m30s", 90), ("2h", 7200)] {
        let c = Config::new(
            vec![],
            vec![NodeConfig::Delay { name: s("d"), delay: s(text), sinks: vec![] }],
            vec![],
        );
        let w = c.build().ok().expect("builds").run().ok().expect("wires");
        match &w.sinks[0] {
            SinkSpec::Node(n) => match n.kind {
                NodeKind::Delay(d) => {
                    assert_eq!(d.secs(), secs, "{}", text);
                    assert_eq!(d.subsec_nanos(), 0);
                }
                NodeKind::Logic(_) => panic!("expected a delay"),
            },
            _ => panic!("expected a node sink"),
        }
    }
}

#[test]
fn duration_weight_sums_runs_of_digits() {
    assert_eq!(count_span_units("1m30s"), Some(35));
    assert_eq!(count_span_units("1.5h 20µs"), Some(32));
    assert_eq!(count_span_units("soon"), Some(0));
    assert_eq!(count_span_units("584542046088s"), Some(584_542_046_090));
    assert_eq!(count_span_units("584542046089s"), None);
}

#[test]
fn durations_parse_with_fractions() {
    let d = parse_span("4.2s").ok().expect("parses");
    assert_eq!((d.secs(), d.subsec_nanos()), (4, 200_000_000));
    let d = parse_span("2h 37min").ok().expect("parses");
    assert_eq!((d.secs(), d.subsec_nanos()), (9420, 0));
    assert_eq!(parse_span("").err(), Some(s("value was empty")));
}

#[test]
fn long_durations_are_accepted() {
    let d = parse_span("100000000000s").ok().expect("parses");
    assert_eq!(d.secs(), 100_000_000_000);
    let d = parse_span("99999999999y").ok().expect("parses");
    assert_eq!(d.secs(), 3_155_759_999_968_442_400);
    let d = parse_span("584542046088s").ok().expect("parses");
    assert_eq!(d.secs(), 584_542_046_088);
    let c = Config::new(
        vec![],
        vec![NodeConfig::Delay { name: s("d"), delay: s("100000000000s"), sinks: vec![] }],
        vec![],
    );
    assert!(c.build().is_ok());
}

#[test]
fn overweight_durations_are_refused() {
    for text in ["18446744073709551615s 500ms 500ms", "584542046089s"] {
        assert_eq!(parse_span(text).err(), Some(format!("duration is too large: {}", text)));
    }
    let c = Config::new(
        vec![],
        vec![NodeConfig::Delay { name: s("d"), delay: s("1000000000000y"), sinks: vec![] }],
        vec![],
    );
    let e = c.build().err().expect("too large");
    assert_eq!(e, "duration is too large: 1000000000000y");
}
