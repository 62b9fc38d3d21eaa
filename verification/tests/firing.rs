use andon::{CronAction, CronEvent, CronFiring, CronPhase, Moment, Signal, Span};

fn at(secs: i64, nanos: u32) -> Moment {
    Moment { secs, nanos }
}

#[test]
fn cron_period_runs_on_then_off_before_the_next_firing() {
    let (mut f, a) = CronFiring::new(Span::from_secs(30));
    assert_eq!(a, CronAction::FetchNext);
    let a = f.step(CronEvent::Next { next: Some(at(100, 500_000_000)), now: at(90, 0) });
    assert_eq!(a, CronAction::Sleep(Span::new(10, 500_000_000).unwrap()));
    assert_eq!(f.step(CronEvent::Woke), CronAction::Send(Signal::On));
    assert_eq!(f.step(CronEvent::Sent(true)), CronAction::Sleep(Span::from_secs(30)));
    assert_eq!(f.phase(), CronPhase::Holding);
    assert_eq!(f.step(CronEvent::Woke), CronAction::Send(Signal::Off));
    assert_eq!(f.step(CronEvent::Sent(true)), CronAction::FetchNext);
    assert_eq!(f.phase(), CronPhase::Idle);
}

#[test]
fn cron_firing_time_already_passed_waits_nothing() {
    let (mut f, _) = CronFiring::new(Span::from_secs(1));
    let a = f.step(CronEvent::Next { next: Some(at(5, 0)), now: at(6, 1) });
    assert_eq!(a, CronAction::Sleep(Span::from_secs(0)));
}

#[test]
fn cron_stops_when_exhausted_or_receiver_gone() {
    let (mut f, _) = CronFiring::new(Span::from_secs(1));
    assert_eq!(f.step(CronEvent::Next { next: None, now: at(0, 0) }), CronAction::Stop);
    assert_eq!(f.phase(), CronPhase::Stopped);
    assert_eq!(f.step(CronEvent::Woke), CronAction::Stop);

    let (mut f, _) = CronFiring::new(Span::from_secs(1));
    f.step(CronEvent::Next { next: Some(at(1, 0)), now: at(0, 0) });
    f.step(CronEvent::Woke);
    assert_eq!(f.step(CronEvent::Sent(false)), CronAction::Stop);
}

#[test]
fn cron_wait_is_capped_at_the_longest_span() {
    let (mut f, _) = CronFiring::new(Span::from_secs(1));
    let a = f.step(CronEvent::Next { next: Some(at(i64::MAX, 999_999_999)), now: at(i64::MIN, 0) });
    assert_eq!(a, CronAction::Sleep(Span::new(u64::MAX, 999_999_999).unwrap()));
}
