use vstd::hash_map::StringHashMap;
use vstd::prelude::*;

use crate::signal::Signal;

verus! {

broadcast use vstd::hash_map::group_hash_map_axioms;

/// The sources whose last known signal is `level`.
pub open spec fn sources_at(inputs: Map<Seq<char>, Signal>, level: Signal) -> Set<Seq<char>> {
    inputs.dom().filter(reports(inputs, level))
}

/// The predicate "this source last reported `level`".
pub open spec fn reports(inputs: Map<Seq<char>, Signal>, level: Signal) -> spec_fn(Seq<char>) -> bool {
    |k: Seq<char>| inputs[k] == level
}

/// How many sources last reported `level`.
pub open spec fn count_at(inputs: Map<Seq<char>, Signal>, level: Signal) -> nat {
    sources_at(inputs, level).len()
}

/// Some source last reported `level`.
pub open spec fn some_at(inputs: Map<Seq<char>, Signal>, level: Signal) -> bool {
    exists|k: Seq<char>| #[trigger] inputs.contains_key(k) && inputs[k] == level
}

/// Every source last reported `level` (vacuously true with no sources).
pub open spec fn all_at(inputs: Map<Seq<char>, Signal>, level: Signal) -> bool {
    forall|k: Seq<char>| #[trigger] inputs.contains_key(k) ==> inputs[k] == level
}

/// The other level.
pub open spec fn flip(s: Signal) -> Signal {
    if s == Signal::On {
        Signal::Off
    } else {
        Signal::On
    }
}

/// Replacing the signal of one source moves it between the two counts.
pub proof fn lemma_count_after_insert(
    inputs: Map<Seq<char>, Signal>,
    k: Seq<char>,
    v: Signal,
    level: Signal,
)
    requires
        inputs.dom().finite(),
    ensures
        sources_at(inputs, level).finite(),
        count_at(inputs.insert(k, v), level) + (if inputs.contains_key(k) && inputs[k] == level {
            1int
        } else {
            0int
        }) == count_at(inputs, level) + (if v == level {
            1int
        } else {
            0int
        }),
{
    let before = sources_at(inputs, level);
    let after = sources_at(inputs.insert(k, v), level);
    inputs.dom().lemma_len_filter(reports(inputs, level));
    assert(before.finite());
    if v == level {
        assert(after =~= before.insert(k));
    } else {
        assert(after =~= before.remove(k));
    }
}

/// A finite table has a source at `level` exactly when the count at `level` is nonzero.
pub proof fn lemma_some_iff_count(inputs: Map<Seq<char>, Signal>, level: Signal)
    requires
        inputs.dom().finite(),
    ensures
        some_at(inputs, level) <==> count_at(inputs, level) > 0,
        count_at(inputs, level) <= inputs.dom().len(),
{
    let s = sources_at(inputs, level);
    inputs.dom().lemma_len_filter(reports(inputs, level));
    vstd::set_lib::lemma_set_empty_equivalency_len(s);
    if some_at(inputs, level) {
        let k = choose|k: Seq<char>| #[trigger] inputs.contains_key(k) && inputs[k] == level;
        assert(s.contains(k));
        vstd::set::axiom_set_contains_len(s, k);
    }
    if count_at(inputs, level) > 0 {
        let k = choose|x: Seq<char>| s.contains(x);
        assert(inputs.contains_key(k) && inputs[k] == level);
    }
}

/// Every source is at `level` exactly when none is at the other level.
pub proof fn lemma_all_iff_none_other(inputs: Map<Seq<char>, Signal>, level: Signal)
    ensures
        all_at(inputs, level) <==> !some_at(inputs, flip(level)),
{
    if !all_at(inputs, level) {
        let k = choose|k: Seq<char>| #[trigger] inputs.contains_key(k) && inputs[k] != level;
        assert(inputs.contains_key(k) && inputs[k] == flip(level));
    }
}

/// The last known signal of each source, keyed by source name, together
/// with how many sources are on and how many are off.
pub struct SignalTable {
    last: StringHashMap<Signal>,
    on: usize,
    off: usize,
}

impl View for SignalTable {
    type V = Map<Seq<char>, Signal>;

    closed spec fn view(&self) -> Map<Seq<char>, Signal> {
        self.last@
    }
}

impl SignalTable {
    /// The table is finite and both counters agree with it.
    pub closed spec fn wf(&self) -> bool {
        &&& self.last@.dom().finite()
        &&& self.on as nat == count_at(self.last@, Signal::On)
        &&& self.off as nat == count_at(self.last@, Signal::Off)
    }

    /// An empty table: no source has reported yet.
    pub fn new() -> (table: Self)
        ensures
            table.wf(),
            table@ == Map::<Seq<char>, Signal>::empty(),
    {
        let table = SignalTable { last: StringHashMap::new(), on: 0, off: 0 };
        proof {
            assert(sources_at(table.last@, Signal::On) =~= Set::empty());
            assert(sources_at(table.last@, Signal::Off) =~= Set::empty());
        }
        table
    }

    /// Records `signal` as the last signal of `source` and returns the
    /// signal it replaces, if the source had reported before.
    pub fn record(&mut self, source: String, signal: Signal) -> (previous: Option<Signal>)
        requires
            old(self).wf(),
        ensures
            final(self).wf(),
            final(self)@ == old(self)@.insert(source@, signal),
            previous == (if old(self)@.contains_key(source@) {
                Some(old(self)@[source@])
            } else {
                None::<Signal>
            }),
    {
        let ghost before = self.last@;
        let previous = match self.last.get(source.as_str()) {
            Some(s) => Some(*s),
            None => None,
        };
        let ghost key = source@;
        self.last.insert(source, signal);
        proof {
            lemma_count_after_insert(before, key, signal, Signal::On);
            lemma_count_after_insert(before, key, signal, Signal::Off);
            lemma_some_iff_count(self.last@, Signal::On);
            lemma_some_iff_count(self.last@, Signal::Off);
        }
        // The table's length fits in `usize`, and bounds both counters.
        let _len = self.last.len();
        match previous {
            Some(Signal::On) => {
                if signal == Signal::Off {
                    self.on = self.on - 1;
                    self.off = self.off + 1;
                }
            },
            Some(Signal::Off) => {
                if signal == Signal::On {
                    self.off = self.off - 1;
                    self.on = self.on + 1;
                }
            },
            None => {
                if signal == Signal::On {
                    self.on = self.on + 1;
                } else {
                    self.off = self.off + 1;
                }
            },
        }
        previous
    }

    /// How many sources last reported `On`.
    pub fn count_on(&self) -> (n: usize)
        requires
            self.wf(),
        ensures
            n as nat == count_at(self@, Signal::On),
    {
        self.on
    }

    /// Some source last reported `level`.
    pub fn any(&self, level: Signal) -> (b: bool)
        requires
            self.wf(),
        ensures
            b == some_at(self@, level),
    {
        proof {
            lemma_some_iff_count(self.last@, level);
        }
        match level {
            Signal::On => self.on > 0,
            Signal::Off => self.off > 0,
        }
    }

    /// Every source last reported `level`; true when no source has reported.
    pub fn all(&self, level: Signal) -> (b: bool)
        requires
            self.wf(),
        ensures
            b == all_at(self@, level),
    {
        proof {
            lemma_all_iff_none_other(self.last@, level);
            lemma_some_iff_count(self.last@, flip(level));
        }
        match level {
            Signal::On => self.off == 0,
            Signal::Off => self.on == 0,
        }
    }
}

} // verus!
