use vstd::prelude::*;

use crate::signal::Signal;
use crate::span::{Span, NANOS_PER_SEC};

verus! {

/// A point in time: seconds from the Unix epoch (negative before it) and
/// the nanoseconds of the fraction.
#[derive(Debug, Clone, Copy, PartialEq, Eq, Structural)]
pub struct Moment {
    pub secs: i64,
    pub nanos: u32,
}

/// A moment in nanoseconds from the epoch.
pub open spec fn moment_nanos(m: Moment) -> int {
    m.secs * 1_000_000_000 + m.nanos
}

/// The longest span, in nanoseconds.
pub open spec fn max_span_nanos() -> int {
    u64::MAX * 1_000_000_000 + 999_999_999
}

/// How long to wait from `now` until `next`: nothing when `next` has
/// passed, and at most the longest span.
pub open spec fn wait_nanos(next: Moment, now: Moment) -> nat {
    let d = moment_nanos(next) - moment_nanos(now);
    if d <= 0 {
        0
    } else if d > max_span_nanos() {
        max_span_nanos() as nat
    } else {
        d as nat
    }
}

/// Where a cron source stands in its cycle.
#[derive(Debug, Clone, Copy, PartialEq, Eq, Structural)]
pub enum CronPhase {
    /// Between periods: the next firing time is wanted.
    Idle,
    /// Waiting for the next firing time.
    Waiting,
    /// `On` is being sent.
    TurningOn,
    /// `On` was sent; waiting out the period.
    Holding,
    /// `Off` is being sent.
    TurningOff,
    /// The schedule is exhausted or the receiver is gone.
    Stopped,
}

/// What the runtime reports back to a cron source.
#[derive(Debug, Clone, Copy, PartialEq, Eq, Structural)]
pub enum CronEvent {
    /// The schedule's next time (`None` when it has none) and the current
    /// time.
    Next { next: Option<Moment>, now: Moment },
    /// The requested sleep has ended.
    Woke,
    /// The requested signal was delivered (`true`) or the receiver is gone.
    Sent(bool),
}

/// What the runtime must do next for a cron source.
#[derive(Debug, Clone, Copy, PartialEq, Eq)]
pub enum CronAction {
    /// Ask the schedule for its next time after now.
    FetchNext,
    /// Sleep this long.
    Sleep(Span),
    /// Send this signal.
    Send(Signal),
    /// Stop the source.
    Stop,
}

/// The phase that follows `p` on event `e`.  An event out of turn stops
/// the source.
pub open spec fn next_phase(p: CronPhase, e: CronEvent) -> CronPhase {
    match (p, e) {
        (CronPhase::Idle, CronEvent::Next { next: None, .. }) => CronPhase::Stopped,
        (CronPhase::Idle, CronEvent::Next { next: Some(_), .. }) => CronPhase::Waiting,
        (CronPhase::Waiting, CronEvent::Woke) => CronPhase::TurningOn,
        (CronPhase::TurningOn, CronEvent::Sent(true)) => CronPhase::Holding,
        (CronPhase::Holding, CronEvent::Woke) => CronPhase::TurningOff,
        (CronPhase::TurningOff, CronEvent::Sent(true)) => CronPhase::Idle,
        _ => CronPhase::Stopped,
    }
}

/// The action that goes with entering phase `p` on event `e`, for a period
/// of `on_for` nanoseconds.
pub open spec fn action_fits(p: CronPhase, e: CronEvent, on_for: nat, a: CronAction) -> bool {
    match p {
        CronPhase::Idle => a == CronAction::FetchNext,
        CronPhase::Waiting => a matches CronAction::Sleep(d) && d.wf() && d@ == (match e {
            CronEvent::Next { next: Some(next), now } => wait_nanos(next, now),
            _ => 0,
        }),
        CronPhase::TurningOn => a == CronAction::Send(Signal::On),
        CronPhase::Holding => a matches CronAction::Sleep(d) && d.wf() && d@ == on_for,
        CronPhase::TurningOff => a == CronAction::Send(Signal::Off),
        CronPhase::Stopped => a == CronAction::Stop,
    }
}

/// The firing cycle of a cron source: at each scheduled time it sends `On`,
/// holds it for a fixed period and sends `Off`; only then does it look for
/// the next time, so a period runs to completion before the next begins.
pub struct CronFiring {
    phase: CronPhase,
    on_for: Span,
}

/// The abstract state of a firing cycle.
pub struct CronFiringView {
    pub phase: CronPhase,
    pub on_for: nat,
}

impl View for CronFiring {
    type V = CronFiringView;

    closed spec fn view(&self) -> CronFiringView {
        CronFiringView { phase: self.phase, on_for: self.on_for@ }
    }
}

/// The wait until `next`, as a span.
fn wait_span(next: Moment, now: Moment) -> (d: Span)
    ensures
        d.wf(),
        d@ == wait_nanos(next, now),
{
    let diff: i128 = (next.secs as i128 - now.secs as i128) * 1_000_000_000 + next.nanos as i128
        - now.nanos as i128;
    assert(diff == moment_nanos(next) - moment_nanos(now));
    if diff <= 0 {
        Span::from_secs(0)
    } else {
        let longest: i128 = 18_446_744_073_709_551_615 * 1_000_000_000 + 999_999_999;
        let capped: i128 = if diff > longest {
            longest
        } else {
            diff
        };
        let secs: u64 = (capped / 1_000_000_000) as u64;
        let nanos: u32 = (capped % 1_000_000_000) as u32;
        assert(secs as int * 1_000_000_000 + nanos as int == capped);
        match Span::new(secs, nanos) {
            Some(d) => d,
            None => {
                assert(false);
                Span::from_secs(0)
            },
        }
    }
}

impl CronFiring {
    pub closed spec fn wf(&self) -> bool {
        self.on_for.wf()
    }

    /// A cycle holding `On` for `on_for`; it starts by asking for the next
    /// firing time.
    pub fn new(on_for: Span) -> (r: (Self, CronAction))
        requires
            on_for.wf(),
        ensures
            r.0.wf(),
            r.0@.phase == CronPhase::Idle,
            r.0@.on_for == on_for@,
            r.1 == CronAction::FetchNext,
    {
        (CronFiring { phase: CronPhase::Idle, on_for }, CronAction::FetchNext)
    }

    /// The current phase.
    pub fn phase(&self) -> (p: CronPhase)
        ensures
            p == self@.phase,
    {
        self.phase
    }

    /// Handles `event` and says what to do next.
    pub fn step(&mut self, event: CronEvent) -> (a: CronAction)
        requires
            old(self).wf(),
        ensures
            final(self).wf(),
            final(self)@.on_for == old(self)@.on_for,
            final(self)@.phase == next_phase(old(self)@.phase, event),
            action_fits(final(self)@.phase, event, final(self)@.on_for, a),
    {
        match (self.phase, event) {
            (CronPhase::Idle, CronEvent::Next { next: None, .. }) => {
                self.phase = CronPhase::Stopped;
                CronAction::Stop
            },
            (CronPhase::Idle, CronEvent::Next { next: Some(next), now }) => {
                self.phase = CronPhase::Waiting;
                CronAction::Sleep(wait_span(next, now))
            },
            (CronPhase::Waiting, CronEvent::Woke) => {
                self.phase = CronPhase::TurningOn;
                CronAction::Send(Signal::On)
            },
            (CronPhase::TurningOn, CronEvent::Sent(true)) => {
                self.phase = CronPhase::Holding;
                CronAction::Sleep(self.on_for)
            },
            (CronPhase::Holding, CronEvent::Woke) => {
                self.phase = CronPhase::TurningOff;
                CronAction::Send(Signal::Off)
            },
            (CronPhase::TurningOff, CronEvent::Sent(true)) => {
                self.phase = CronPhase::Idle;
                CronAction::FetchNext
            },
            _ => {
                self.phase = CronPhase::Stopped;
                CronAction::Stop
            },
        }
    }
}

/// A cron period runs to completion before the next begins: the next
/// firing time is asked for only once `Off` was delivered, `Off` is sent
/// only after the period was held, and `On` only once the wait for a firing
/// time ended.  A stopped source stays stopped.
pub proof fn law_cron_cycle(p: CronPhase, e: CronEvent)
    ensures
        next_phase(p, e) == CronPhase::Idle ==> p == CronPhase::TurningOff && e == CronEvent::Sent(
            true,
        ),
        next_phase(p, e) == CronPhase::TurningOff ==> p == CronPhase::Holding,
        next_phase(p, e) == CronPhase::Holding ==> p == CronPhase::TurningOn,
        next_phase(p, e) == CronPhase::TurningOn ==> p == CronPhase::Waiting,
        p == CronPhase::Stopped ==> next_phase(p, e) == CronPhase::Stopped,
{
}

} // verus!
