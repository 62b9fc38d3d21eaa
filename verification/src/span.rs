use vstd::prelude::*;

verus! {

/// Nanoseconds in one second.
pub const NANOS_PER_SEC: u32 = 1_000_000_000;

/// A length of time: whole seconds plus a fraction in nanoseconds.
#[derive(Debug, Clone, Copy, PartialEq, Eq)]
pub struct Span {
    secs: u64,
    nanos: u32,
}

impl View for Span {
    type V = nat;

    /// The length in nanoseconds.
    closed spec fn view(&self) -> nat {
        (self.secs as nat) * (NANOS_PER_SEC as nat) + (self.nanos as nat)
    }
}

impl Span {
    /// The fraction is below one second.
    pub closed spec fn wf(&self) -> bool {
        self.nanos < NANOS_PER_SEC
    }

    pub closed spec fn spec_secs(&self) -> u64 {
        self.secs
    }

    pub closed spec fn spec_subsec_nanos(&self) -> u32 {
        self.nanos
    }

    /// A whole number of seconds.
    pub fn from_secs(secs: u64) -> (span: Self)
        ensures
            span.wf(),
            span.spec_secs() == secs,
            span.spec_subsec_nanos() == 0,
            span@ == secs as nat * (NANOS_PER_SEC as nat),
    {
        Span { secs, nanos: 0 }
    }

    /// Seconds plus a fraction; `None` when the fraction is a second or more.
    pub fn new(secs: u64, nanos: u32) -> (span: Option<Self>)
        ensures
            span is Some <==> nanos < NANOS_PER_SEC,
            span matches Some(s) ==> s.wf() && s.spec_secs() == secs && s.spec_subsec_nanos()
                == nanos && s@ == secs as nat * (NANOS_PER_SEC as nat) + nanos as nat,
    {
        if nanos < NANOS_PER_SEC {
            Some(Span { secs, nanos })
        } else {
            None
        }
    }

    /// Whole seconds.
    pub fn secs(&self) -> (s: u64)
        ensures
            s == self.spec_secs(),
    {
        self.secs
    }

    /// The fraction of a second, in nanoseconds.
    pub fn subsec_nanos(&self) -> (n: u32)
        ensures
            n == self.spec_subsec_nanos(),
    {
        self.nanos
    }
}

/// What humantime makes of a duration string: the length in nanoseconds,
/// or the message of its error.
pub uninterp spec fn humantime_duration(text: Seq<char>) -> Result<nat, Seq<char>>;

/// Seconds in humantime's largest unit, the year of 365.25 days.
pub const YEAR_SECS: u64 = 31_557_600;

/// The most units a duration string may weigh: this many years still fall
/// short of `u64::MAX` seconds.
pub const MAX_SPAN_UNITS: u64 = 584_542_046_090;

/// An ASCII letter: it ends a number in a duration string.
pub open spec fn is_ascii_letter(c: char) -> bool {
    ('a' <= c <= 'z') || ('A' <= c <= 'Z')
}

/// The weight of a run of digits with value `v`: `v + 2`; none for no run.
pub open spec fn run_weight(open: Option<nat>) -> nat {
    match open {
        Some(v) => v + 2,
        None => 0,
    }
}

/// Reading a duration string from the left: the weight of the runs of
/// digits already closed, and the value of the run still open.  A digit
/// extends the open run; an ASCII letter or `.` closes it; any other
/// character (such as a space) leaves it open, as humantime reads a number
/// across spaces.
pub open spec fn runs_of(s: Seq<char>) -> (nat, Option<nat>)
    decreases s.len(),
{
    if s.len() == 0 {
        (0, None)
    } else {
        let (closed, open) = runs_of(s.drop_last());
        let c = s.last();
        if '0' <= c <= '9' {
            let d = (c as int - '0' as int) as nat;
            (
                closed,
                Some(
                    match open {
                        Some(v) => v * 10 + d,
                        None => d,
                    },
                ),
            )
        } else if is_ascii_letter(c) || c == '.' {
            (closed + run_weight(open), None)
        } else {
            (closed, open)
        }
    }
}

/// The weight of a duration string: the sum of `v + 2` over its runs of
/// digits of value `v`.  Each number humantime reads lies within one run,
/// and a span adds less than `(v + 2)` years of seconds (its integer part
/// times the unit, a fraction below one unit, and carried nanoseconds), so
/// the seconds humantime adds up stay below this weight in years.
pub open spec fn span_units(s: Seq<char>) -> nat {
    run_weight(runs_of(s).1) + runs_of(s).0
}

/// Reading one more character never makes the weight smaller.
proof fn lemma_span_units_grow(s: Seq<char>, i: int, j: int)
    requires
        0 <= i <= j <= s.len(),
    ensures
        span_units(s.take(i)) <= span_units(s.take(j)),
    decreases j - i,
{
    if i < j {
        lemma_span_units_grow(s, i, j - 1);
        assert(s.take(j).drop_last() =~= s.take(j - 1));
        let (closed, open) = runs_of(s.take(j - 1));
        let c = s.take(j).last();
        if '0' <= c <= '9' {
            let d = (c as int - '0' as int) as nat;
            match open {
                Some(v) => {
                    assert(v * 10 + d >= v) by (nonlinear_arith)
                        requires
                            d >= 0,
                    ;
                },
                None => {},
            }
        }
    }
}

/// The value of an open run, in `nat`.
pub open spec fn open_value(open: Option<u64>) -> Option<nat> {
    match open {
        Some(v) => Some(v as nat),
        None => None,
    }
}

/// The weight of `s`, when it is at most `MAX_SPAN_UNITS`.
pub fn count_span_units(s: &str) -> (n: Option<u64>)
    ensures
        match n {
            Some(k) => k == span_units(s@) && k <= MAX_SPAN_UNITS,
            None => span_units(s@) > MAX_SPAN_UNITS,
        },
{
    let len = s.unicode_len();
    let mut closed: u64 = 0;
    let mut open: Option<u64> = None;
    let mut i: usize = 0;
    proof {
        assert(s@.take(0) =~= Seq::<char>::empty());
    }
    while i < len
        invariant
            len == s@.len(),
            i <= len,
            runs_of(s@.take(i as int)).0 == closed as nat,
            runs_of(s@.take(i as int)).1 == open_value(open),
            span_units(s@.take(i as int)) <= MAX_SPAN_UNITS,
        decreases len - i,
    {
        let c = s.get_char(i);
        proof {
            assert(s@.take(i as int + 1).drop_last() =~= s@.take(i as int));
        }
        if '0' <= c && c <= '9' {
            let d: u64 = (c as u32 - '0' as u32) as u64;
            let v: u64 = match open {
                Some(v) => v * 10 + d,
                None => d,
            };
            if closed + v + 2 > MAX_SPAN_UNITS {
                proof {
                    lemma_span_units_grow(s@, i as int + 1, len as int);
                    assert(s@.take(len as int) =~= s@);
                }
                return None;
            }
            open = Some(v);
        } else if ('a' <= c && c <= 'z') || ('A' <= c && c <= 'Z') || c == '.' {
            closed = match open {
                Some(v) => closed + v + 2,
                None => closed,
            };
            open = None;
        }
        i = i + 1;
    }
    proof {
        assert(s@.take(len as int) =~= s@);
    }
    match open {
        Some(v) => Some(closed + v + 2),
        None => Some(closed),
    }
}

/// The error for a duration string that weighs too much.
pub open spec fn too_large(text: Seq<char>) -> Seq<char> {
    "duration is too large: "@ + text
}

/// What a duration string parses to: its length in nanoseconds, or an error
/// message.
pub open spec fn duration_result(text: Seq<char>) -> Result<nat, Seq<char>> {
    if span_units(text) > MAX_SPAN_UNITS {
        Err(too_large(text))
    } else {
        humantime_duration(text)
    }
}

/// Calls humantime's `parse_duration`: on success the parsed length, with
/// a sub-second fraction as `Duration::subsec_nanos` documents it; on failure
/// the error's message.  Both are what `humantime_duration` names.
/// humantime panics only when the seconds it adds up reach `u64::MAX` with a
/// whole second of nanoseconds left over (`Duration::new` in `add_current`);
/// a weight of at most `MAX_SPAN_UNITS` keeps the seconds below
/// `MAX_SPAN_UNITS` years, short of `u64::MAX`.
#[verifier::external_body]
fn parse_duration(text: &str) -> (r: Result<Span, String>)
    requires
        span_units(text@) <= MAX_SPAN_UNITS,
    ensures
        r matches Ok(s) ==> s.wf() && humantime_duration(text@) is Ok && humantime_duration(
            text@,
        )->Ok_0 == s@,
        r matches Err(m) ==> humantime_duration(text@) is Err && humantime_duration(text@)->Err_0
            == m@,
{
    match humantime::parse_duration(text) {
        Ok(d) => Ok(Span { secs: d.as_secs(), nanos: d.subsec_nanos() }),
        Err(e) => Err(e.to_string()),
    }
}

/// Parses a human-readable duration such as `"1m30s"`, refusing one that
/// weighs more than `MAX_SPAN_UNITS` (more than 584 billion of the largest
/// unit, where humantime could overflow).
pub fn parse_span(text: &str) -> (r: Result<Span, String>)
    ensures
        match duration_result(text@) {
            Ok(n) => r matches Ok(s) && s.wf() && s@ == n,
            Err(m) => r matches Err(e) && e@ == m,
        },
{
    match count_span_units(text) {
        Some(_) => parse_duration(text),
        None => {
            let mut m = "duration is too large: ".to_string();
            m.append(text);
            Err(m)
        },
    }
}

} // verus!
