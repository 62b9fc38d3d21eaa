use std::str::FromStr;

use vstd::prelude::*;

use crate::meross::join3;
use crate::signal::Signal;
use crate::span::Span;

verus! {

// ── schedule ─────────────────────────────────────────

/// How long to wait before the next probe.
#[derive(Debug, Clone, Copy, PartialEq, Eq)]
pub enum SleepPlan {
    /// Wait exactly this long.
    Fixed(Span),
    /// Wait a length drawn from Normal(mean, stddev), clamped to zero.
    Jittered { mean: Span, stddev: Span },
}

/// The abstract timing of a probe, in nanoseconds.
pub struct ScheduleView {
    pub interval: nat,
    pub stddev: Option<nat>,
}

/// Timing schedule for a probe.
///
/// With no stddev, every interval is identical.
/// With stddev, each interval is sampled from
/// Normal(interval, stddev) and clamped to zero.
#[derive(Debug, Clone, Copy)]
pub struct ProbeSchedule {
    interval: Span,
    stddev: Option<Span>,
}

impl View for ProbeSchedule {
    type V = ScheduleView;

    closed spec fn view(&self) -> ScheduleView {
        ScheduleView {
            interval: self.interval@,
            stddev: match self.stddev {
                Some(s) => Some(s@),
                None => None,
            },
        }
    }
}

impl ProbeSchedule {
    pub closed spec fn wf(&self) -> bool {
        &&& self.interval.wf()
        &&& self.stddev matches Some(s) ==> s.wf()
    }

    /// A schedule without jitter.
    pub fn new(interval: Span) -> (s: Self)
        requires
            interval.wf(),
        ensures
            s.wf(),
            s@ == (ScheduleView { interval: interval@, stddev: None }),
    {
        ProbeSchedule { interval, stddev: None }
    }

    /// The same schedule with Gaussian jitter of standard deviation `sd`.
    pub fn with_stddev(self, sd: Span) -> (s: Self)
        requires
            self.wf(),
            sd.wf(),
        ensures
            s.wf(),
            s@ == (ScheduleView { interval: self@.interval, stddev: Some(sd@) }),
    {
        ProbeSchedule { interval: self.interval, stddev: Some(sd) }
    }

    /// The wait before the next probe: the interval itself, or a draw
    /// around it when jitter is set.
    pub fn next_sleep_plan(&self) -> (p: SleepPlan)
        ensures
            self@.stddev is None ==> (p matches SleepPlan::Fixed(i) && i@ == self@.interval
                && (self.wf() ==> i.wf())),
            self@.stddev is Some ==> (p matches SleepPlan::Jittered { mean, stddev } && mean@
                == self@.interval && Some(stddev@) == self@.stddev && (self.wf() ==> mean.wf()
                && stddev.wf())),
    {
        match self.stddev {
            None => SleepPlan::Fixed(self.interval),
            Some(sd) => SleepPlan::Jittered { mean: self.interval, stddev: sd },
        }
    }

    pub fn interval(&self) -> (i: Span)
        ensures
            i@ == self@.interval,
            self.wf() ==> i.wf(),
    {
        self.interval
    }
}

// ── URL probe ────────────────────────────────────────

/// regex's compiled `Regex`, carried opaquely.
#[verifier::external_type_specification]
#[verifier::external_body]
pub struct ExRegex(regex::Regex);

/// Whether regex accepts `pattern`; `Some` carries its error message.
pub uninterp spec fn regex_error(pattern: Seq<char>) -> Option<Seq<char>>;

/// Whether the regex `pattern` matches somewhere in `text`.
pub uninterp spec fn regex_is_match(pattern: Seq<char>, text: Seq<char>) -> bool;

/// Compiles a regular expression (regex's `Regex::new`): it succeeds
/// exactly when `regex_error` is `None`, else it yields that message.
#[verifier::external_body]
fn compile_regex(pattern: &str) -> (r: Result<regex::Regex, String>)
    ensures
        (r is Ok) == (regex_error(pattern@) is None),
        r matches Err(m) ==> regex_error(pattern@) == Some(m@),
{
    match regex::Regex::new(pattern) {
        Ok(re) => Ok(re),
        Err(e) => Err(e.to_string()),
    }
}

/// A compiled regular expression together with its source text.
pub struct Pattern {
    source: String,
    compiled: regex::Regex,
}

impl View for Pattern {
    type V = Seq<char>;

    /// The source text of the expression.
    closed spec fn view(&self) -> Seq<char> {
        self.source@
    }
}

/// Whether `p` matches somewhere in `text` (regex's `Regex::is_match` on
/// the expression compiled from `p`'s source).
#[verifier::external_body]
fn pattern_is_match(p: &Pattern, text: &str) -> (b: bool)
    ensures
        b == regex_is_match(p@, text@),
{
    p.compiled.is_match(text)
}

impl Pattern {
    /// Compiles `source`; the error is regex's message.
    pub fn new(source: &str) -> (r: Result<Self, String>)
        ensures
            (r is Ok) == (regex_error(source@) is None),
            r matches Ok(p) ==> p@ == source@,
            r matches Err(m) ==> regex_error(source@) == Some(m@),
    {
        match compile_regex(source) {
            Ok(compiled) => Ok(Pattern { source: source.to_string(), compiled }),
            Err(m) => Err(m),
        }
    }

    /// The source text.
    pub fn as_str(&self) -> (s: &str)
        ensures
            s@ == self@,
    {
        self.source.as_str()
    }

    /// Whether the expression matches somewhere in `text` (presence of a
    /// match, not a full-string match).
    pub fn is_match(&self, text: &str) -> (b: bool)
        ensures
            b == regex_is_match(self@, text@),
    {
        pattern_is_match(self, text)
    }
}

/// An HTTP status in the 2xx range.
pub open spec fn is_success(status: u16) -> bool {
    200 <= status <= 299
}

/// A check fails (`On`) when the request failed or its status lies outside
/// 200..=299, whatever the pattern and body; a status counts as success
/// only inside that range.  With a 2xx status, a check without a pattern
/// passes, and one with a pattern passes exactly when the body was read
/// and the pattern matches it.
pub proof fn law_status_verdict(pattern: Option<Seq<char>>, status: u16, body: Option<Seq<char>>)
    ensures
        is_success(status) <==> (200 <= status && status <= 299),
        (status < 200 || status > 299) ==> url_verdict(pattern, Some(status), body) == Signal::On,
        url_verdict(pattern, None, body) == Signal::On,
        (200 <= status && status <= 299 && pattern is None) ==> url_verdict(
            pattern,
            Some(status),
            body,
        ) == Signal::Off,
        (200 <= status && status <= 299 && pattern is Some && body is None) ==> url_verdict(
            pattern,
            Some(status),
            body,
        ) == Signal::On,
        (200 <= status && status <= 299 && pattern is Some && body is Some) ==> (url_verdict(
            pattern,
            Some(status),
            body,
        ) == Signal::Off <==> regex_is_match(pattern->0, body->0)),
{
}

/// The outcome of one URL check: `On` when the request failed, the status
/// is not 2xx, or (with a pattern) the body could not be read or does not
/// match; `Off` otherwise.  `status` is `None` for a request that failed;
/// `body` is `None` for a body that could not be read.
pub open spec fn url_verdict(
    pattern: Option<Seq<char>>,
    status: Option<u16>,
    body: Option<Seq<char>>,
) -> Signal {
    match status {
        None => Signal::On,
        Some(code) => if !is_success(code) {
            Signal::On
        } else {
            match pattern {
                None => Signal::Off,
                Some(p) => match body {
                    None => Signal::On,
                    Some(text) => if regex_is_match(p, text) {
                        Signal::Off
                    } else {
                        Signal::On
                    },
                },
            }
        },
    }
}

/// The abstract configuration of a URL probe (lengths in nanoseconds).
pub struct UrlSourceView {
    pub name: Seq<char>,
    pub url: Seq<char>,
    pub schedule: ScheduleView,
    pub timeout: nat,
    pub pattern: Option<Seq<char>>,
    pub sinks: Seq<Seq<char>>,
}

/// Polls a URL on a schedule: `On` when the check fails, `Off` when it
/// passes.  The runtime performs the requests; this decides the signals.
pub struct UrlSource {
    name: String,
    url: String,
    schedule: ProbeSchedule,
    timeout: Span,
    pattern: Option<Pattern>,
    sinks: Vec<String>,
}

pub open spec fn view_names(names: Seq<String>) -> Seq<Seq<char>> {
    names.map_values(|n: String| n@)
}

impl View for UrlSource {
    type V = UrlSourceView;

    closed spec fn view(&self) -> UrlSourceView {
        UrlSourceView {
            name: self.name@,
            url: self.url@,
            schedule: self.schedule@,
            timeout: self.timeout@,
            pattern: match self.pattern {
                Some(p) => Some(p@),
                None => None,
            },
            sinks: view_names(self.sinks@),
        }
    }
}

impl UrlSource {
    pub closed spec fn wf(&self) -> bool {
        self.schedule.wf() && self.timeout.wf()
    }

    /// A probe of `url` every `interval`, with a 10 s request timeout and
    /// no pattern.
    pub fn new(name: String, url: String, interval: Span, sinks: Vec<String>) -> (s: Self)
        requires
            interval.wf(),
        ensures
            s.wf(),
            s@ == (UrlSourceView {
                name: name@,
                url: url@,
                schedule: ScheduleView { interval: interval@, stddev: None },
                timeout: 10 * 1_000_000_000,
                pattern: None,
                sinks: view_names(sinks@),
            }),
    {
        UrlSource {
            name,
            url,
            schedule: ProbeSchedule::new(interval),
            timeout: Span::from_secs(10),
            pattern: None,
            sinks,
        }
    }

    /// The same probe with request timeout `t`.
    pub fn with_timeout(self, t: Span) -> (s: Self)
        requires
            self.wf(),
            t.wf(),
        ensures
            s.wf(),
            s@ == (UrlSourceView { timeout: t@, ..self@ }),
    {
        UrlSource { timeout: t, ..self }
    }

    /// The same probe with Gaussian jitter `sd` on its interval.
    pub fn with_stddev(self, sd: Span) -> (s: Self)
        requires
            self.wf(),
            sd.wf(),
        ensures
            s.wf(),
            s@ == (UrlSourceView {
                schedule: ScheduleView { interval: self@.schedule.interval, stddev: Some(sd@) },
                ..self@
            }),
    {
        let schedule = self.schedule.with_stddev(sd);
        UrlSource { schedule, ..self }
    }

    /// The same probe, requiring the body to match `pat`.
    pub fn with_pattern(self, pat: Pattern) -> (s: Self)
        requires
            self.wf(),
        ensures
            s.wf(),
            s@ == (UrlSourceView { pattern: Some(pat@), ..self@ }),
    {
        UrlSource { pattern: Some(pat), ..self }
    }

    pub fn name(&self) -> (n: &str)
        ensures
            n@ == self@.name,
    {
        self.name.as_str()
    }

    pub fn url(&self) -> (u: &str)
        ensures
            u@ == self@.url,
    {
        self.url.as_str()
    }

    pub fn sink_names(&self) -> (s: &Vec<String>)
        ensures
            view_names(s@) == self@.sinks,
    {
        &self.sinks
    }

    pub fn schedule(&self) -> (s: &ProbeSchedule)
        ensures
            s@ == self@.schedule,
            self.wf() ==> s.wf(),
    {
        &self.schedule
    }

    pub fn timeout(&self) -> (t: Span)
        ensures
            t@ == self@.timeout,
            self.wf() ==> t.wf(),
    {
        self.timeout
    }

    pub fn pattern(&self) -> (p: Option<&Pattern>)
        ensures
            p matches Some(x) ==> self@.pattern == Some(x@),
            p is None ==> self@.pattern is None,
    {
        match &self.pattern {
            Some(x) => Some(x),
            None => None,
        }
    }

    /// The verdict once the response status is known (`None`: the request
    /// failed).  `None` means the body must be read and passed to
    /// [`UrlSource::check_body`].
    pub fn check_status(&self, status: Option<u16>) -> (v: Option<Signal>)
        ensures
            v matches Some(s) ==> s == url_verdict(self@.pattern, status, None),
            v is None <==> (status matches Some(code) && is_success(code)
                && self@.pattern is Some),
    {
        match status {
            None => Some(Signal::On),
            Some(code) => {
                if code < 200 || code > 299 {
                    Some(Signal::On)
                } else {
                    match &self.pattern {
                        None => Some(Signal::Off),
                        Some(_) => None,
                    }
                }
            },
        }
    }

    /// The verdict for a 2xx response whose body is `body` (`None`: the
    /// body could not be read).
    pub fn check_body(&self, status: u16, body: Option<&str>) -> (v: Signal)
        requires
            is_success(status),
        ensures
            v == url_verdict(
                self@.pattern,
                Some(status),
                match body {
                    Some(b) => Some(b@),
                    None => None,
                },
            ),
    {
        match &self.pattern {
            None => Signal::Off,
            Some(p) => match body {
                None => Signal::On,
                Some(text) => if p.is_match(text) {
                    Signal::Off
                } else {
                    Signal::On
                },
            },
        }
    }
}

// ── cron ─────────────────────────────────────────────

/// cron's parsed `Schedule`, carried opaquely.
#[verifier::external_type_specification]
#[verifier::external_body]
pub struct ExSchedule(cron::Schedule);

/// Whether the cron crate accepts `expression`.
pub uninterp spec fn cron_accepts(expression: Seq<char>) -> bool;

/// Rust's debug notation of a string (quoted, with escapes).
pub uninterp spec fn debug_str(text: Seq<char>) -> Seq<char>;

/// Parses a 6-field cron expression (cron's `Schedule::from_str`).  It
/// succeeds exactly when `cron_accepts` holds; the crate's error always
/// displays as `Invalid expression: Invalid cron expression.`.
#[verifier::external_body]
fn parse_schedule(expression: &str) -> (r: Result<cron::Schedule, String>)
    ensures
        (r is Ok) == cron_accepts(expression@),
        r matches Err(m) ==> m@ == "Invalid expression: Invalid cron expression."@,
{
    match cron::Schedule::from_str(expression) {
        Ok(s) => Ok(s),
        Err(e) => Err(e.to_string()),
    }
}

/// Debug notation of a string (std's `Debug` for `str`), as named by
/// `debug_str`.
#[verifier::external_body]
fn debug_quoted(text: &str) -> (q: String)
    ensures
        q@ == debug_str(text@),
{
    format!("{:?}", text)
}

/// The error of a rejected cron expression.
pub open spec fn cron_error(expression: Seq<char>) -> Seq<char> {
    "invalid cron spec "@ + debug_str(expression) + ": "@
        + "Invalid expression: Invalid cron expression."@
}

/// The abstract configuration of a cron source.
pub struct CronSourceView {
    pub name: Seq<char>,
    pub expression: Seq<char>,
    pub duration: nat,
    pub sinks: Seq<Seq<char>>,
}

/// Emits `On` at times matching a cron schedule and `Off` after a fixed
/// duration has elapsed.
///
/// The cron expression uses a 6-field format:
/// `sec  min  hour  day-of-month  month  day-of-week`,
/// interpreted in the local timezone.  If the `On` period has not ended
/// when the next scheduled time arrives, the current period runs to
/// completion before the next one begins.
pub struct CronSource {
    name: String,
    expression: String,
    schedule: cron::Schedule,
    duration: Span,
    sinks: Vec<String>,
}

impl View for CronSource {
    type V = CronSourceView;

    closed spec fn view(&self) -> CronSourceView {
        CronSourceView {
            name: self.name@,
            expression: self.expression@,
            duration: self.duration@,
            sinks: view_names(self.sinks@),
        }
    }
}

impl CronSource {
    pub closed spec fn wf(&self) -> bool {
        self.duration.wf()
    }

    /// A cron source firing at the times of `spec`, staying `On` for
    /// `duration` each time.
    pub fn new(name: String, spec: &str, duration: Span, sinks: Vec<String>) -> (r: Result<
        Self,
        String,
    >)
        requires
            duration.wf(),
        ensures
            (r is Ok) == cron_accepts(spec@),
            r matches Ok(c) ==> c.wf() && c@ == (CronSourceView {
                name: name@,
                expression: spec@,
                duration: duration@,
                sinks: view_names(sinks@),
            }),
            r matches Err(m) ==> m@ == cron_error(spec@),
    {
        match parse_schedule(spec) {
            Ok(schedule) => Ok(
                CronSource { name, expression: spec.to_string(), schedule, duration, sinks },
            ),
            Err(e) => {
                let quoted = debug_quoted(spec);
                let mut m = join3("invalid cron spec ", quoted.as_str(), ": ");
                m.append(e.as_str());
                Err(m)
            },
        }
    }

    pub fn name(&self) -> (n: &str)
        ensures
            n@ == self@.name,
    {
        self.name.as_str()
    }

    pub fn sink_names(&self) -> (s: &Vec<String>)
        ensures
            view_names(s@) == self@.sinks,
    {
        &self.sinks
    }

    /// How long each `On` period lasts.
    pub fn duration(&self) -> (d: Span)
        ensures
            d@ == self@.duration,
            self.wf() ==> d.wf(),
    {
        self.duration
    }

    /// The schedule this source was built with.
    pub closed spec fn spec_schedule(&self) -> cron::Schedule {
        self.schedule
    }

    /// The parsed schedule.
    pub fn schedule(&self) -> (s: &cron::Schedule)
        ensures
            *s == self.spec_schedule(),
    {
        &self.schedule
    }
}

} // verus!
