use vstd::prelude::*;

use crate::signal::Signal;
use crate::table::{some_at, SignalTable};

verus! {

/// What the runtime must do after a delay node handled an event.
#[derive(Debug, Clone, Copy, PartialEq, Eq, Structural)]
pub struct DelayStep {
    /// The level to emit downstream, if any.
    pub emit: Option<Signal>,
    /// Start the countdown afresh: it elapses one delay from now.
    pub start_timer: bool,
}

/// The abstract state of a turn-on delay: the last signal of each input,
/// the level last emitted, and whether a countdown is running.
pub struct DelayView {
    pub inputs: Map<Seq<char>, Signal>,
    pub emitted: Signal,
    pub armed: bool,
}

/// The decision core of a turn-on delay node.
///
/// Emits `On` only when a countdown elapses, and a countdown runs only
/// while some input is `On` and `On` has not been emitted yet.  A message
/// starts a countdown when some input is `On`, none runs and `On` has not
/// been emitted.  If an input goes from `On` to `Off` before the delay
/// elapses, the countdown is cancelled and `On` is not emitted for it.
/// Emits `Off` at once when all inputs are `Off`.
pub struct DelayGate {
    inputs: SignalTable,
    emitted: Signal,
    armed: bool,
}

impl View for DelayGate {
    type V = DelayView;

    closed spec fn view(&self) -> DelayView {
        DelayView { inputs: self.inputs@, emitted: self.emitted, armed: self.armed }
    }
}

/// The invariant of a delay node: a countdown runs only while some input
/// is `On` and `On` has not been emitted, and `On` is only ever the
/// emitted level while some input is `On`.
pub open spec fn delay_consistent(v: DelayView) -> bool {
    &&& v.armed ==> (some_at(v.inputs, Signal::On) && v.emitted == Signal::Off)
    &&& v.emitted == Signal::On ==> some_at(v.inputs, Signal::On)
}

/// `source`, last reported `On`, now reports `Off`.
pub open spec fn went_off(inputs: Map<Seq<char>, Signal>, source: Seq<char>, signal: Signal) -> bool {
    inputs.contains_key(source) && inputs[source] == Signal::On && signal == Signal::Off
}

impl DelayGate {
    pub closed spec fn wf(&self) -> bool {
        &&& self.inputs.wf()
        &&& delay_consistent(self@)
    }

    /// A delay node that has seen no input: nothing emitted, no countdown.
    pub fn new() -> (gate: Self)
        ensures
            gate.wf(),
            delay_consistent(gate@),
            gate@.inputs == Map::<Seq<char>, Signal>::empty(),
            gate@.emitted == Signal::Off,
            !gate@.armed,
    {
        DelayGate { inputs: SignalTable::new(), emitted: Signal::Off, armed: false }
    }

    /// Whether a countdown is running (the runtime only waits on the
    /// timer while this holds).
    pub fn armed(&self) -> (b: bool)
        ensures
            b == self@.armed,
    {
        self.armed
    }

    /// Handles `signal` from `source`.
    pub fn on_message(&mut self, source: String, signal: Signal) -> (step: DelayStep)
        requires
            old(self).wf(),
        ensures
            final(self).wf(),
            delay_consistent(final(self)@),
            final(self)@.inputs == old(self)@.inputs.insert(source@, signal),
            // All inputs off: stop any countdown and turn off at once.
            !some_at(final(self)@.inputs, Signal::On) ==> {
                &&& final(self)@.emitted == Signal::Off
                &&& step.emit == (if old(self)@.emitted == Signal::On {
                    Some(Signal::Off)
                } else {
                    None::<Signal>
                })
                &&& !step.start_timer
            },
            // Some input on and this input went from On to Off: any running
            // countdown is cancelled and none starts.
            some_at(final(self)@.inputs, Signal::On) && went_off(old(self)@.inputs, source@, signal)
                ==> {
                &&& final(self)@.emitted == old(self)@.emitted
                &&& step.emit == None::<Signal>
                &&& !step.start_timer
                &&& !final(self)@.armed
            },
            // Some input on otherwise: the emitted level stands, and a
            // countdown starts when none runs and On has not been emitted.
            some_at(final(self)@.inputs, Signal::On) && !went_off(old(self)@.inputs, source@, signal)
                ==> {
                &&& final(self)@.emitted == old(self)@.emitted
                &&& step.emit == None::<Signal>
                &&& step.start_timer == (old(self)@.emitted == Signal::Off && !old(self)@.armed)
                &&& final(self)@.armed == (old(self)@.armed || step.start_timer)
            },
    {
        let previous = self.inputs.record(source, signal);
        let any_on = self.inputs.any(Signal::On);
        if !any_on {
            self.armed = false;
            if self.emitted == Signal::On {
                self.emitted = Signal::Off;
                DelayStep { emit: Some(Signal::Off), start_timer: false }
            } else {
                DelayStep { emit: None, start_timer: false }
            }
        } else if previous == Some(Signal::On) && signal == Signal::Off {
            self.armed = false;
            DelayStep { emit: None, start_timer: false }
        } else if self.emitted == Signal::Off && !self.armed {
            self.armed = true;
            DelayStep { emit: None, start_timer: true }
        } else {
            DelayStep { emit: None, start_timer: false }
        }
    }

    /// Handles the countdown elapsing: emits `On` if a countdown was running.
    pub fn on_timer(&mut self) -> (out: Option<Signal>)
        requires
            old(self).wf(),
        ensures
            final(self).wf(),
            delay_consistent(final(self)@),
            final(self)@.inputs == old(self)@.inputs,
            !final(self)@.armed,
            old(self)@.armed ==> final(self)@.emitted == Signal::On && out == Some(Signal::On),
            !old(self)@.armed ==> final(self)@ == old(self)@ && out == None::<Signal>,
    {
        if self.armed {
            self.armed = false;
            self.emitted = Signal::On;
            Some(Signal::On)
        } else {
            None
        }
    }
}

/// Once every input is `Off`, a delay node has nothing pending: no
/// countdown runs, so an elapsing timer emits nothing, and its output is
/// `Off`.
pub proof fn law_all_off_cancels(v: DelayView)
    requires
        delay_consistent(v),
        !some_at(v.inputs, Signal::On),
    ensures
        !v.armed,
        v.emitted == Signal::Off,
{
}

/// An elapsed countdown emits `On` only while some input is `On` and `On`
/// was not yet emitted: the node never emits `On` twice in a row.
pub proof fn law_on_needs_an_input(v: DelayView)
    requires
        delay_consistent(v),
        v.armed,
    ensures
        some_at(v.inputs, Signal::On),
        v.emitted == Signal::Off,
{
}

} // verus!
