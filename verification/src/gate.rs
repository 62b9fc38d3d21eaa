use vstd::prelude::*;

use crate::signal::Signal;
use crate::table::{
    all_at, count_at, flip, lemma_all_iff_none_other, lemma_count_after_insert, some_at, sources_at,
    SignalTable,
};

verus! {

/// The combining rule of a logic node.
#[derive(Debug, Clone, Copy, PartialEq, Eq, Structural)]
pub enum Logic {
    /// `On` when every input is `Off`.
    Not,
    /// `On` when every input is `On`.
    And,
    /// `On` when some input is `On`.
    Or,
    /// `On` when an odd number of inputs are `On`.
    Xor,
}

/// What a node of kind `logic` should output given the last known signal
/// of each of its inputs.
pub open spec fn gate_output(logic: Logic, inputs: Map<Seq<char>, Signal>) -> Signal {
    let on = match logic {
        Logic::Not => all_at(inputs, Signal::Off),
        Logic::And => all_at(inputs, Signal::On),
        Logic::Or => some_at(inputs, Signal::On),
        Logic::Xor => count_at(inputs, Signal::On) % 2 == 1,
    };
    if on {
        Signal::On
    } else {
        Signal::Off
    }
}

/// The level a node of kind `logic` is taken to have emitted before any input.
pub open spec fn initial_level(logic: Logic) -> Signal {
    if logic == Logic::Not {
        Signal::On
    } else {
        Signal::Off
    }
}

/// The abstract state of a gate: its rule, the last signal of each input,
/// and the level it last emitted.
pub struct GateView {
    pub logic: Logic,
    pub inputs: Map<Seq<char>, Signal>,
    pub emitted: Signal,
}

/// The decision core of a logic node: it remembers each input's last
/// signal and says when the node's output changes.
pub struct Gate {
    logic: Logic,
    inputs: SignalTable,
    emitted: Signal,
}

impl View for Gate {
    type V = GateView;

    closed spec fn view(&self) -> GateView {
        GateView { logic: self.logic, inputs: self.inputs@, emitted: self.emitted }
    }
}

impl Gate {
    pub closed spec fn wf(&self) -> bool {
        self.inputs.wf()
    }

    /// A gate that has seen no input yet.
    pub fn new(logic: Logic) -> (gate: Self)
        ensures
            gate.wf(),
            gate@.logic == logic,
            gate@.inputs == Map::<Seq<char>, Signal>::empty(),
            gate@.emitted == initial_level(logic),
    {
        let emitted = match logic {
            Logic::Not => Signal::On,
            _ => Signal::Off,
        };
        Gate { logic, inputs: SignalTable::new(), emitted }
    }

    /// The signal to emit as soon as the node starts, before any input:
    /// a NOT node with no inputs sees them all off and so emits `On`; the
    /// other nodes stay silent until their first input.
    pub fn startup(&self) -> (out: Option<Signal>)
        ensures
            out == (if self@.logic == Logic::Not {
                Some(Signal::On)
            } else {
                None::<Signal>
            }),
    {
        match self.logic {
            Logic::Not => Some(Signal::On),
            _ => None,
        }
    }

    /// Records `signal` from `source` and returns the level to emit, if
    /// the node's output differs from what it last emitted.
    pub fn observe(&mut self, source: String, signal: Signal) -> (out: Option<Signal>)
        requires
            old(self).wf(),
        ensures
            final(self).wf(),
            final(self)@.logic == old(self)@.logic,
            final(self)@.inputs == old(self)@.inputs.insert(source@, signal),
            final(self)@.emitted == gate_output(final(self)@.logic, final(self)@.inputs),
            out == (if gate_output(final(self)@.logic, final(self)@.inputs) != old(self)@.emitted {
                Some(gate_output(final(self)@.logic, final(self)@.inputs))
            } else {
                None::<Signal>
            }),
    {
        self.inputs.record(source, signal);
        let on = match self.logic {
            Logic::Not => self.inputs.all(Signal::Off),
            Logic::And => self.inputs.all(Signal::On),
            Logic::Or => self.inputs.any(Signal::On),
            Logic::Xor => self.inputs.count_on() % 2 == 1,
        };
        let output = if on {
            Signal::On
        } else {
            Signal::Off
        };
        if output != self.emitted {
            self.emitted = output;
            Some(output)
        } else {
            None
        }
    }
}

/// NOT is the negation of OR: a NOT node is `On` exactly when no input is
/// `On`, for every set of inputs.
pub proof fn law_not_negates_or(inputs: Map<Seq<char>, Signal>)
    ensures
        gate_output(Logic::Not, inputs) == flip(gate_output(Logic::Or, inputs)),
{
    lemma_all_iff_none_other(inputs, Signal::Off);
}

/// AND is `Off` exactly when some input is `Off`.
pub proof fn law_and_off_iff_some_off(inputs: Map<Seq<char>, Signal>)
    ensures
        (gate_output(Logic::And, inputs) == Signal::Off) <==> some_at(inputs, Signal::Off),
{
    lemma_all_iff_none_other(inputs, Signal::On);
}

/// Each input is tracked independently: signals from two different
/// sources lead to the same output whichever arrives first.
pub proof fn law_sources_independent(
    logic: Logic,
    inputs: Map<Seq<char>, Signal>,
    a: Seq<char>,
    x: Signal,
    b: Seq<char>,
    y: Signal,
)
    requires
        a != b,
    ensures
        inputs.insert(a, x).insert(b, y) == inputs.insert(b, y).insert(a, x),
        gate_output(logic, inputs.insert(a, x).insert(b, y)) == gate_output(
            logic,
            inputs.insert(b, y).insert(a, x),
        ),
{
    assert(inputs.insert(a, x).insert(b, y) =~= inputs.insert(b, y).insert(a, x));
}

/// Only the latest signal of a source counts: a later signal from the same
/// source replaces the earlier one.
pub proof fn law_latest_signal_wins(
    logic: Logic,
    inputs: Map<Seq<char>, Signal>,
    a: Seq<char>,
    x: Signal,
    y: Signal,
)
    ensures
        gate_output(logic, inputs.insert(a, x).insert(a, y)) == gate_output(
            logic,
            inputs.insert(a, y),
        ),
{
    assert(inputs.insert(a, x).insert(a, y) =~= inputs.insert(a, y));
}

/// A repeated signal changes nothing: once a gate's emitted level matches
/// its output, re-sending a source's current signal emits nothing.
pub proof fn law_repeat_is_silent(logic: Logic, inputs: Map<Seq<char>, Signal>, a: Seq<char>)
    requires
        inputs.contains_key(a),
    ensures
        gate_output(logic, inputs.insert(a, inputs[a])) == gate_output(logic, inputs),
{
    assert(inputs.insert(a, inputs[a]) =~= inputs);
}

/// With a single input, OR, AND and XOR follow it and NOT inverts it.
pub proof fn law_single_input(logic: Logic, a: Seq<char>, x: Signal)
    ensures
        gate_output(logic, map![a => x]) == (if logic == Logic::Not {
            flip(x)
        } else {
            x
        }),
{
    let m = map![a => x];
    assert(m.contains_key(a));
    assert(m.dom() =~= set![a]);
    if logic == Logic::Xor {
        if x == Signal::On {
            assert(sources_at(m, Signal::On) =~= set![a]);
        } else {
            assert(sources_at(m, Signal::On) =~= Set::empty());
        }
        assert(set![a].len() == 1) by {
            assert(Set::<Seq<char>>::empty().insert(a) =~= set![a]);
        }
    }
}

/// XOR is parity: turning one input over turns the output over, and a new
/// input flips the output exactly when it arrives `On`.
pub proof fn law_xor_is_parity(inputs: Map<Seq<char>, Signal>, a: Seq<char>, x: Signal)
    requires
        inputs.dom().finite(),
    ensures
        inputs.contains_key(a) ==> gate_output(Logic::Xor, inputs.insert(a, flip(inputs[a])))
            == flip(gate_output(Logic::Xor, inputs)),
        !inputs.contains_key(a) ==> gate_output(Logic::Xor, inputs.insert(a, x)) == (if x
            == Signal::On {
            flip(gate_output(Logic::Xor, inputs))
        } else {
            gate_output(Logic::Xor, inputs)
        }),
{
    if inputs.contains_key(a) {
        lemma_count_after_insert(inputs, a, flip(inputs[a]), Signal::On);
    }
    lemma_count_after_insert(inputs, a, x, Signal::On);
}

/// What each node outputs, for every finite table of its inputs' last
/// signals, whatever the number of inputs: OR is `On` exactly when some
/// input is `On`, NOT exactly when none is, AND exactly when every input
/// is, and XOR exactly when an odd number of inputs are.
pub proof fn law_gate_outputs(inputs: Map<Seq<char>, Signal>)
    requires
        inputs.dom().finite(),
    ensures
        (gate_output(Logic::Or, inputs) == Signal::On) <==> (exists|k: Seq<char>|
            #[trigger] inputs.contains_key(k) && inputs[k] == Signal::On),
        (gate_output(Logic::Not, inputs) == Signal::On) <==> !(exists|k: Seq<char>|
            #[trigger] inputs.contains_key(k) && inputs[k] == Signal::On),
        (gate_output(Logic::And, inputs) == Signal::On) <==> (forall|k: Seq<char>|
            #[trigger] inputs.contains_key(k) ==> inputs[k] == Signal::On),
        (gate_output(Logic::Xor, inputs) == Signal::On) <==> inputs.dom().filter(
            |k: Seq<char>| inputs[k] == Signal::On,
        ).len() % 2 == 1,
{
    lemma_all_iff_none_other(inputs, Signal::Off);
    assert(sources_at(inputs, Signal::On) =~= inputs.dom().filter(
        |k: Seq<char>| inputs[k] == Signal::On,
    ));
}

} // verus!
