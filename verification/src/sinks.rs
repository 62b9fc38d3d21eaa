use vstd::prelude::*;

use crate::meross::{region_base, Region, Toggle};
use crate::signal::Signal;
use crate::table::SignalTable;

verus! {

// ── log sink ─────────────────────────────────────────

/// Logs signal transitions.
///
/// Sources re-emit their current level on every check, so logging every
/// message would flood the log with identical lines.  Transitions (and the
/// first signal from each source) are worth reporting; repeats are not.
pub struct LogSink {
    name: String,
}

impl LogSink {
    pub fn new(name: String) -> (s: Self)
        ensures
            s.spec_name() == name@,
    {
        LogSink { name }
    }

    pub closed spec fn spec_name(&self) -> Seq<char> {
        self.name@
    }

    pub fn name(&self) -> (n: &str)
        ensures
            n@ == self.spec_name(),
    {
        self.name.as_str()
    }
}

/// Outcome of observing a signal from a source.
#[derive(Debug, Clone, Copy, PartialEq, Eq, Structural)]
pub enum Change {
    /// First signal ever seen from this source.
    Initial,
    /// Signal differs from the previous one.
    Changed { previous: Signal },
    /// Same signal as last time.
    Unchanged,
}

/// How a signal relates to the source's previous one.
pub open spec fn classify(previous: Option<Signal>, signal: Signal) -> Change {
    match previous {
        None => Change::Initial,
        Some(p) => if p != signal {
            Change::Changed { previous: p }
        } else {
            Change::Unchanged
        },
    }
}

/// A source's first signal is reported as initial, a repeat as unchanged,
/// and any other signal as a change from the previous one.
pub proof fn law_classify(previous: Option<Signal>, signal: Signal)
    ensures
        (classify(previous, signal) is Initial) <==> previous is None,
        (classify(previous, signal) is Unchanged) <==> previous == Some(signal),
        (classify(previous, signal) is Changed) <==> (previous is Some && previous != Some(signal)),
        classify(previous, signal) matches Change::Changed { previous: p } ==> previous == Some(p),
{
}

/// Remembers the last signal seen per source so that repeats can be told
/// apart from real transitions.
pub struct StateTracker {
    last: SignalTable,
}

impl View for StateTracker {
    type V = Map<Seq<char>, Signal>;

    closed spec fn view(&self) -> Map<Seq<char>, Signal> {
        self.last@
    }
}

impl Default for StateTracker {
    fn default() -> (t: Self)
        ensures
            t.wf(),
            t@ == Map::<Seq<char>, Signal>::empty(),
    {
        StateTracker { last: SignalTable::new() }
    }
}

impl StateTracker {
    pub closed spec fn wf(&self) -> bool {
        self.last.wf()
    }

    /// Records `signal` as the latest from `source` and says how it
    /// relates to the previous one.
    pub fn observe(&mut self, source: &str, signal: Signal) -> (change: Change)
        requires
            old(self).wf(),
        ensures
            final(self).wf(),
            final(self)@ == old(self)@.insert(source@, signal),
            change == classify(
                if old(self)@.contains_key(source@) {
                    Some(old(self)@[source@])
                } else {
                    None
                },
                signal,
            ),
    {
        match self.last.record(source.to_owned(), signal) {
            None => Change::Initial,
            Some(prev) => if prev != signal {
                Change::Changed { previous: prev }
            } else {
                Change::Unchanged
            },
        }
    }
}

// ── Meross plug ──────────────────────────────────────

/// The configuration of a Meross plug sink.
pub struct MerossView {
    pub name: Seq<char>,
    pub device_name: Seq<char>,
    pub email: Seq<char>,
    pub password: Seq<char>,
    /// The API base URL of the plug's region.
    pub api_base: Seq<char>,
    pub channel: u8,
}

/// Controls a Meross smart plug via the cloud API.
///
/// The plug follows an OR of its inputs: **on** when any connected source
/// is `On`, **off** when all are `Off`, with a cloud command only when the
/// desired state changes (a [`crate::Gate`] with [`crate::Logic::Or`]).  As
/// an alarm it can be turned off unconditionally.
pub struct MerossSink {
    name: String,
    device_name: String,
    email: String,
    password: String,
    region: Region,
    channel: u8,
}

impl View for MerossSink {
    type V = MerossView;

    closed spec fn view(&self) -> MerossView {
        MerossView {
            name: self.name@,
            device_name: self.device_name@,
            email: self.email@,
            password: self.password@,
            api_base: region_base(self.region),
            channel: self.channel,
        }
    }
}

/// A copy carries the credentials only; a live connection is never copied.
impl Clone for MerossSink {
    fn clone(&self) -> (c: Self)
        ensures
            c@ == self@,
    {
        MerossSink {
            name: self.name.clone(),
            device_name: self.device_name.clone(),
            email: self.email.clone(),
            password: self.password.clone(),
            region: self.region.clone(),
            channel: self.channel,
        }
    }
}

impl MerossSink {
    /// A plug sink on relay channel 0 (the main outlet).
    pub fn new(
        name: String,
        device_name: String,
        email: String,
        password: String,
        region: Region,
    ) -> (s: Self)
        ensures
            s@ == (MerossView {
                name: name@,
                device_name: device_name@,
                email: email@,
                password: password@,
                api_base: region_base(region),
                channel: 0,
            }),
    {
        MerossSink { name, device_name, email, password, region, channel: 0 }
    }

    /// Override the relay channel (default 0 = main).
    pub fn with_channel(self, ch: u8) -> (s: Self)
        ensures
            s@ == (MerossView { channel: ch, ..self@ }),
    {
        MerossSink { channel: ch, ..self }
    }

    pub fn name(&self) -> (n: &str)
        ensures
            n@ == self@.name,
    {
        self.name.as_str()
    }

    pub fn device_name(&self) -> (n: &str)
        ensures
            n@ == self@.device_name,
    {
        self.device_name.as_str()
    }

    pub fn email(&self) -> (e: &str)
        ensures
            e@ == self@.email,
    {
        self.email.as_str()
    }

    pub fn password(&self) -> (p: &str)
        ensures
            p@ == self@.password,
    {
        self.password.as_str()
    }

    pub fn region(&self) -> (r: &Region)
        ensures
            region_base(*r) == self@.api_base,
    {
        &self.region
    }

    pub fn channel(&self) -> (c: u8)
        ensures
            c == self@.channel,
    {
        self.channel
    }

    /// The relay command that switches this plug on or off.
    pub fn toggle(&self, on: bool) -> (t: Toggle)
        ensures
            t == (Toggle { channel: self@.channel, on }),
    {
        Toggle { channel: self.channel, on }
    }

    /// The command that clears the alarm: the plug's relay off.
    pub fn clear_command(&self) -> (t: Toggle)
        ensures
            t == (Toggle { channel: self@.channel, on: false }),
    {
        self.toggle(false)
    }
}

} // verus!
