use andon::{Pattern, ProbeSchedule, Signal, SleepPlan, Span, UrlSource};

fn source(pattern: Option<&str>) -> UrlSource {
    let src = UrlSource::new(
        "t".to_string(),
        "http://127.0.0.1/".to_string(),
        Span::from_secs(60),
        vec!["sink".to_string()],
    );
    match pattern {
        Some(p) => src.with_pattern(Pattern::new(p).expect("valid regex")),
        None => src,
    }
}

/// The signal for a response: status (None: request failed) and body.
fn run_check(src: &UrlSource, status: Option<u16>, body: Option<&str>) -> Signal {
    match src.check_status(status) {
        Some(sig) => sig,
        None => src.check_body(status.unwrap(), body),
    }
}

#[test]
fn success_yields_off() {
    assert_eq!(run_check(&source(None), Some(200), Some("hello")), Signal::Off);
}

#[test]
fn error_status_yields_on() {
    assert_eq!(run_check(&source(None), Some(500), Some("")), Signal::On);
}

#[test]
fn connection_failure_yields_on() {
    assert_eq!(run_check(&source(None), None, None), Signal::On);
}

#[test]
fn matching_pattern_yields_off() {
    let src = source(Some("healthy"));
    assert_eq!(src.check_status(Some(200)), None);
    assert_eq!(run_check(&src, Some(200), Some("status: healthy")), Signal::Off);
}

#[test]
fn non_matching_pattern_yields_on() {
    let src = source(Some("healthy"));
    assert_eq!(run_check(&src, Some(200), Some("status: degraded")), Signal::On);
}

#[test]
fn unreadable_body_yields_on() {
    let src = source(Some("healthy"));
    assert_eq!(run_check(&src, Some(204), None), Signal::On);
}

#[test]
fn status_range_edges() {
    let src = source(None);
    assert_eq!(src.check_status(Some(199)), Some(Signal::On));
    assert_eq!(src.check_status(Some(299)), Some(Signal::Off));
    assert_eq!(src.check_status(Some(300)), Some(Signal::On));
    let with = source(Some("x"));
    assert_eq!(with.check_status(Some(404)), Some(Signal::On));
}

#[test]
fn pattern_matches_anywhere_not_whole() {
    let p = Pattern::new("\"status\":\"ok\"").expect("valid regex");
    assert!(p.is_match("{\"status\":\"ok\",\"v\":1}"));
    assert!(!p.is_match("{\"status\":\"down\"}"));
    assert_eq!(p.as_str(), "\"status\":\"ok\"");
}

#[test]
fn invalid_pattern_is_refused_with_regex_message() {
    let e = Pattern::new("(unclosed").err().expect("invalid regex");
    assert!(e.contains("unclosed"));
}

#[test]
fn defaults_and_builders() {
    let src = source(None);
    assert_eq!(src.name(), "t");
    assert_eq!(src.url(), "http://127.0.0.1/");
    assert_eq!(src.sink_names(), &vec!["sink".to_string()]);
    assert_eq!(src.timeout().secs(), 10);
    assert!(src.pattern().is_none());
    let src = src
        .with_timeout(Span::from_secs(5))
        .with_stddev(Span::from_secs(2));
    assert_eq!(src.timeout().secs(), 5);
    match src.schedule().next_sleep_plan() {
        SleepPlan::Jittered { mean, stddev } => {
            assert_eq!(mean.secs(), 60);
            assert_eq!(stddev.secs(), 2);
        }
        SleepPlan::Fixed(_) => panic!("expected jitter"),
    }
}

#[test]
fn schedule_without_jitter_is_fixed() {
    let sch = ProbeSchedule::new(Span::from_secs(30));
    assert_eq!(sch.next_sleep_plan(), SleepPlan::Fixed(Span::from_secs(30)));
    assert_eq!(sch.interval(), Span::from_secs(30));
    let j = sch.with_stddev(Span::from_secs(5));
    assert_eq!(
        j.next_sleep_plan(),
        SleepPlan::Jittered { mean: Span::from_secs(30), stddev: Span::from_secs(5) }
    );
}

#[test]
fn span_new_rejects_whole_second_fraction() {
    assert!(Span::new(1, 1_000_000_000).is_none());
    let s = Span::new(1, 500).expect("valid span");
    assert_eq!((s.secs(), s.subsec_nanos()), (1, 500));
}
