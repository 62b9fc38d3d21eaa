use vstd::prelude::*;

use crate::gate::Logic;
use crate::nodes::NodeView;
use crate::signal::{Message, Signal};
use crate::sinks::{LogSink, MerossSink, MerossView};
use crate::sources::{view_names, CronSource, CronSourceView, UrlSource, UrlSourceView};
use crate::span::Span;

verus! {

// ── components ───────────────────────────────────────

/// The source half of a node: it forwards the node's output to the sinks
/// it names.
pub struct NodeSource {
    pub name: String,
    pub sinks: Vec<String>,
}

/// What the sink half of a node computes.
#[derive(Debug, Clone, Copy)]
pub enum NodeKind {
    /// A logic gate.
    Logic(Logic),
    /// A turn-on delay of this length.
    Delay(Span),
}

/// The sink half of a node: it receives the node's inputs.
pub struct NodeSink {
    pub name: String,
    pub kind: NodeKind,
}

/// A component that produces signals.
pub enum SourceSpec {
    Cron(CronSource),
    Url(UrlSource),
    Node(NodeSource),
}

/// A component that consumes signals.
pub enum SinkSpec {
    Log(LogSink),
    Meross(MerossSink),
    Node(NodeSink),
}

/// The abstract kind of a node's sink half (a delay in nanoseconds).
pub enum NodeKindView {
    Logic(Logic),
    Delay(nat),
}

/// The abstract configuration of a source.
pub enum SourceView {
    Cron(CronSourceView),
    Url(UrlSourceView),
    Node(NodeView),
}

/// The abstract configuration of a sink.
pub enum SinkView {
    Log(Seq<char>),
    Meross(MerossView),
    Node { name: Seq<char>, kind: NodeKindView },
}

impl View for NodeKind {
    type V = NodeKindView;

    open spec fn view(&self) -> NodeKindView {
        match *self {
            NodeKind::Logic(l) => NodeKindView::Logic(l),
            NodeKind::Delay(d) => NodeKindView::Delay(d@),
        }
    }
}

impl View for SourceSpec {
    type V = SourceView;

    open spec fn view(&self) -> SourceView {
        match self {
            SourceSpec::Cron(c) => SourceView::Cron(c@),
            SourceSpec::Url(u) => SourceView::Url(u@),
            SourceSpec::Node(n) => SourceView::Node(
                NodeView { name: n.name@, sinks: view_names(n.sinks@) },
            ),
        }
    }
}

impl View for SinkSpec {
    type V = SinkView;

    open spec fn view(&self) -> SinkView {
        match self {
            SinkSpec::Log(l) => SinkView::Log(l.spec_name()),
            SinkSpec::Meross(m) => SinkView::Meross(m@),
            SinkSpec::Node(n) => SinkView::Node { name: n.name@, kind: n.kind@ },
        }
    }
}

/// The name of a source.
pub open spec fn source_name(s: SourceView) -> Seq<char> {
    match s {
        SourceView::Cron(c) => c.name,
        SourceView::Url(u) => u.name,
        SourceView::Node(n) => n.name,
    }
}

/// The names of the sinks a source drives.
pub open spec fn source_sinks(s: SourceView) -> Seq<Seq<char>> {
    match s {
        SourceView::Cron(c) => c.sinks,
        SourceView::Url(u) => u.sinks,
        SourceView::Node(n) => n.sinks,
    }
}

/// The name of a sink.
pub open spec fn sink_name(s: SinkView) -> Seq<char> {
    match s {
        SinkView::Log(n) => n,
        SinkView::Meross(m) => m.name,
        SinkView::Node { name, .. } => name,
    }
}

impl SourceSpec {
    pub fn name(&self) -> (n: &str)
        ensures
            n@ == source_name(self@),
    {
        match self {
            SourceSpec::Cron(c) => c.name(),
            SourceSpec::Url(u) => u.name(),
            SourceSpec::Node(n) => n.name.as_str(),
        }
    }

    pub fn sink_names(&self) -> (s: &Vec<String>)
        ensures
            view_names(s@) == source_sinks(self@),
    {
        match self {
            SourceSpec::Cron(c) => c.sink_names(),
            SourceSpec::Url(u) => u.sink_names(),
            SourceSpec::Node(n) => &n.sinks,
        }
    }
}

impl SinkSpec {
    pub fn name(&self) -> (n: &str)
        ensures
            n@ == sink_name(self@),
    {
        match self {
            SinkSpec::Log(l) => l.name(),
            SinkSpec::Meross(m) => m.name(),
            SinkSpec::Node(n) => n.name.as_str(),
        }
    }
}

// ── registry ─────────────────────────────────────────

/// The position of the first sink named `name`, if any.
pub open spec fn sink_slot(sinks: Seq<SinkView>, name: Seq<char>) -> Option<int>
    decreases sinks.len(),
{
    if sinks.len() == 0 {
        None
    } else {
        match sink_slot(sinks.drop_last(), name) {
            Some(i) => Some(i),
            None => if sink_name(sinks.last()) == name {
                Some(sinks.len() - 1)
            } else {
                None
            },
        }
    }
}

/// Registering a sink: it replaces the sink of the same name, or is added.
pub open spec fn with_sink(sinks: Seq<SinkView>, s: SinkView) -> Seq<SinkView> {
    match sink_slot(sinks, sink_name(s)) {
        Some(i) => sinks.update(i, s),
        None => sinks.push(s),
    }
}

/// Whether some sink is named `name`.
pub open spec fn registered(sinks: Seq<SinkView>, name: Seq<char>) -> bool {
    exists|i: int| 0 <= i < sinks.len() && sink_name(#[trigger] sinks[i]) == name
}

/// The declared names that no registered sink carries, in order.
pub open spec fn unregistered(names: Seq<Seq<char>>, sinks: Seq<SinkView>) -> Seq<Seq<char>>
    decreases names.len(),
{
    if names.len() == 0 {
        Seq::empty()
    } else {
        let rest = unregistered(names.drop_last(), sinks);
        if registered(sinks, names.last()) {
            rest
        } else {
            rest.push(names.last())
        }
    }
}

/// The sink names declared by `sources`, in source order, that no sink
/// carries (repeats kept).
pub open spec fn missing_sinks(sources: Seq<SourceView>, sinks: Seq<SinkView>) -> Seq<Seq<char>>
    decreases sources.len(),
{
    if sources.len() == 0 {
        Seq::empty()
    } else {
        missing_sinks(sources.drop_last(), sinks) + unregistered(
            source_sinks(sources.last()),
            sinks,
        )
    }
}

proof fn lemma_slot(sinks: Seq<SinkView>, name: Seq<char>)
    ensures
        sink_slot(sinks, name) matches Some(i) ==> 0 <= i < sinks.len() && sink_name(sinks[i])
            == name,
        sink_slot(sinks, name) is None <==> !registered(sinks, name),
    decreases sinks.len(),
{
    if sinks.len() > 0 {
        lemma_slot(sinks.drop_last(), name);
        if registered(sinks, name) && sink_slot(sinks.drop_last(), name) is None {
            let i = choose|i: int| 0 <= i < sinks.len() && sink_name(#[trigger] sinks[i]) == name;
            if i < sinks.len() - 1 {
                assert(sinks.drop_last()[i] == sinks[i]);
            }
        }
        if sink_slot(sinks.drop_last(), name) is Some {
            let i = sink_slot(sinks.drop_last(), name)->0;
            assert(sinks.drop_last()[i] == sinks[i]);
        }
    }
}

/// The abstract content of a bus: its sources and sinks in order of
/// registration, and the alarms to clear at startup and shutdown.
pub struct BusView {
    pub sources: Seq<SourceView>,
    pub sinks: Seq<SinkView>,
    pub alarms: Seq<MerossView>,
}

/// Wires sources to sinks by name.
pub struct Bus {
    sources: Vec<SourceSpec>,
    sinks: Vec<SinkSpec>,
    alarms: Vec<MerossSink>,
}

pub open spec fn source_views(s: Seq<SourceSpec>) -> Seq<SourceView> {
    s.map_values(|x: SourceSpec| x@)
}

pub open spec fn sink_views(s: Seq<SinkSpec>) -> Seq<SinkView> {
    s.map_values(|x: SinkSpec| x@)
}

pub open spec fn alarm_views(s: Seq<MerossSink>) -> Seq<MerossView> {
    s.map_values(|x: MerossSink| x@)
}

impl View for Bus {
    type V = BusView;

    closed spec fn view(&self) -> BusView {
        BusView {
            sources: source_views(self.sources@),
            sinks: sink_views(self.sinks@),
            alarms: alarm_views(self.alarms@),
        }
    }
}

/// Returned when the bus is wired: the alarms to clear before the process
/// exits.
pub struct ShutdownHandle {
    alarms: Vec<MerossSink>,
}

impl ShutdownHandle {
    pub closed spec fn spec_alarms(&self) -> Seq<MerossView> {
        alarm_views(self.alarms@)
    }

    /// The alarms, in order of registration.
    pub fn alarms(&self) -> (a: &Vec<MerossSink>)
        ensures
            alarm_views(a@) == self.spec_alarms(),
    {
        &self.alarms
    }
}

/// A bus whose every declared sink name resolved: for each source, the
/// positions in `sinks` of the sinks it drives, in declaration order.
pub struct Wiring {
    pub sources: Vec<SourceSpec>,
    pub routes: Vec<Vec<usize>>,
    pub sinks: Vec<SinkSpec>,
    pub shutdown: ShutdownHandle,
}

impl Default for Bus {
    fn default() -> (b: Self)
        ensures
            b@ == (BusView { sources: Seq::empty(), sinks: Seq::empty(), alarms: Seq::empty() }),
    {
        Bus::new()
    }
}

impl Bus {
    /// An empty bus.
    pub fn new() -> (b: Self)
        ensures
            b@ == (BusView { sources: Seq::empty(), sinks: Seq::empty(), alarms: Seq::empty() }),
    {
        let b = Bus { sources: Vec::new(), sinks: Vec::new(), alarms: Vec::new() };
        proof {
            assert(source_views(b.sources@) =~= Seq::empty());
            assert(sink_views(b.sinks@) =~= Seq::empty());
            assert(alarm_views(b.alarms@) =~= Seq::empty());
        }
        b
    }

    pub fn add_source(&mut self, source: SourceSpec)
        ensures
            final(self)@ == (BusView { sources: old(self)@.sources.push(source@), ..old(self)@ }),
    {
        let ghost before = self.sources@;
        self.sources.push(source);
        proof {
            assert(source_views(self.sources@) =~= source_views(before).push(source@));
        }
    }

    /// Registers `sink` under its name, replacing a sink of the same name.
    pub fn add_sink(&mut self, sink: SinkSpec)
        ensures
            final(self)@ == (BusView { sinks: with_sink(old(self)@.sinks, sink@), ..old(self)@ }),
    {
        let ghost before = self.sinks@;
        let found = self.find_sink(sink.name());
        match found {
            Some(i) => {
                proof {
                    lemma_slot(sink_views(before), sink_name(sink@));
                }
                self.sinks.set(i, sink);
                proof {
                    assert(sink_views(self.sinks@) =~= sink_views(before).update(i as int, sink@));
                }
            },
            None => {
                self.sinks.push(sink);
                proof {
                    assert(sink_views(self.sinks@) =~= sink_views(before).push(sink@));
                }
            },
        }
    }

    pub fn add_alarm(&mut self, alarm: MerossSink)
        ensures
            final(self)@ == (BusView { alarms: old(self)@.alarms.push(alarm@), ..old(self)@ }),
    {
        let ghost before = self.alarms@;
        self.alarms.push(alarm);
        proof {
            assert(alarm_views(self.alarms@) =~= alarm_views(before).push(alarm@));
        }
    }

    /// The position of the first sink named `name`.
    fn find_sink(&self, name: &str) -> (slot: Option<usize>)
        ensures
            slot matches Some(i) ==> sink_slot(self@.sinks, name@) == Some(i as int),
            slot is None ==> sink_slot(self@.sinks, name@) is None,
    {
        let mut i: usize = 0;
        while i < self.sinks.len()
            invariant
                i <= self.sinks.len(),
                sink_slot(sink_views(self.sinks@).take(i as int), name@) is None,
            decreases self.sinks.len() - i,
        {
            let n = self.sinks[i].name();
            proof {
                let t = sink_views(self.sinks@).take(i as int + 1);
                assert(t.drop_last() =~= sink_views(self.sinks@).take(i as int));
                assert(t.last() == self.sinks@[i as int]@);
            }
            if crate::meross::same_text(n, name) {
                proof {
                    lemma_slot_prefix(sink_views(self.sinks@), name@, i as int + 1);
                }
                return Some(i);
            }
            i = i + 1;
        }
        proof {
            assert(sink_views(self.sinks@).take(self.sinks.len() as int) =~= sink_views(
                self.sinks@,
            ));
        }
        None
    }

    /// Every sink name declared by a source that no sink carries, in
    /// source order.
    pub fn missing(&self) -> (m: Vec<String>)
        ensures
            view_names(m@) == missing_sinks(self@.sources, self@.sinks),
    {
        let mut missing: Vec<String> = Vec::new();
        let mut i: usize = 0;
        while i < self.sources.len()
            invariant
                i <= self.sources.len(),
                view_names(missing@) == missing_sinks(
                    source_views(self.sources@).take(i as int),
                    self@.sinks,
                ),
            decreases self.sources.len() - i,
        {
            let names = self.sources[i].sink_names();
            let ghost before = view_names(missing@);
            let mut j: usize = 0;
            while j < names.len()
                invariant
                    j <= names.len(),
                    view_names(missing@) == before + unregistered(
                        view_names(names@).take(j as int),
                        self@.sinks,
                    ),
                decreases names.len() - j,
            {
                let found = self.find_sink(names[j].as_str());
                proof {
                    lemma_slot(self@.sinks, names@[j as int]@);
                    let t = view_names(names@).take(j as int + 1);
                    assert(t.drop_last() =~= view_names(names@).take(j as int));
                    assert(t.last() == names@[j as int]@);
                }
                let ghost mid = view_names(missing@);
                if found.is_none() {
                    missing.push(names[j].clone());
                    proof {
                        assert(view_names(missing@) =~= mid.push(names@[j as int]@));
                    }
                }
                j = j + 1;
            }
            proof {
                assert(view_names(names@).take(names@.len() as int) =~= view_names(names@));
                let t = source_views(self.sources@).take(i as int + 1);
                assert(t.drop_last() =~= source_views(self.sources@).take(i as int));
                assert(t.last() == self.sources@[i as int]@);
            }
            i = i + 1;
        }
        proof {
            assert(source_views(self.sources@).take(self.sources.len() as int) =~= source_views(
                self.sources@,
            ));
        }
        missing
    }

    /// Resolves every declared sink name.  Fails with the list of names no
    /// sink carries; otherwise hands out the components, the route of each
    /// source, and the alarms.
    pub fn run(self) -> (r: Result<Wiring, Vec<String>>)
        ensures
            missing_sinks(self@.sources, self@.sinks).len() > 0 ==> (r matches Err(m) && view_names(
                m@,
            ) == missing_sinks(self@.sources, self@.sinks)),
            missing_sinks(self@.sources, self@.sinks).len() == 0 ==> (r matches Ok(w) && {
                &&& source_views(w.sources@) == self@.sources
                &&& sink_views(w.sinks@) == self@.sinks
                &&& w.shutdown.spec_alarms() == self@.alarms
                &&& w.routes@.len() == w.sources@.len()
                &&& forall|i: int|
                    0 <= i < w.routes@.len() ==> #[trigger] w.routes@[i]@.len() == source_sinks(
                        self@.sources[i],
                    ).len()
                &&& forall|i: int, j: int|
                    0 <= i < w.routes@.len() && 0 <= j < w.routes@[i]@.len() ==> {
                        let k = #[trigger] w.routes@[i]@[j];
                        &&& k < w.sinks@.len()
                        &&& sink_name(self@.sinks[k as int]) == source_sinks(self@.sources[i])[j]
                    }
            }),
    {
        let missing = self.missing();
        if missing.len() > 0 {
            return Err(missing);
        }
        let mut routes: Vec<Vec<usize>> = Vec::new();
        let mut i: usize = 0;
        while i < self.sources.len()
            invariant
                i <= self.sources.len(),
                missing_sinks(self@.sources, self@.sinks).len() == 0,
                routes@.len() == i,
                forall|a: int|
                    0 <= a < i ==> #[trigger] routes@[a]@.len() == source_sinks(
                        self@.sources[a],
                    ).len(),
                forall|a: int, b: int|
                    0 <= a < i && 0 <= b < routes@[a]@.len() ==> {
                        let k = #[trigger] routes@[a]@[b];
                        &&& k < self.sinks@.len()
                        &&& sink_name(self@.sinks[k as int]) == source_sinks(self@.sources[a])[b]
                    },
            decreases self.sources.len() - i,
        {
            proof {
                lemma_missing_prefix(self@.sources, self@.sinks, i as int);
            }
            let names = self.sources[i].sink_names();
            let mut route: Vec<usize> = Vec::new();
            let mut j: usize = 0;
            while j < names.len()
                invariant
                    j <= names.len(),
                    view_names(names@) == source_sinks(self@.sources[i as int]),
                    unregistered(view_names(names@), self@.sinks).len() == 0,
                    route@.len() == j,
                    forall|b: int|
                        0 <= b < j ==> {
                            let k = #[trigger] route@[b];
                            &&& k < self.sinks@.len()
                            &&& sink_name(self@.sinks[k as int]) == view_names(names@)[b]
                        },
                decreases names.len() - j,
            {
                let found = self.find_sink(names[j].as_str());
                proof {
                    lemma_slot(self@.sinks, names@[j as int]@);
                    lemma_unregistered_empty(view_names(names@), self@.sinks, j as int);
                }
                match found {
                    Some(k) => route.push(k),
                    None => {
                        proof {
                            assert(false);
                        }
                        return Err(Vec::new());
                    },
                }
                j = j + 1;
            }
            routes.push(route);
            i = i + 1;
        }
        Ok(
            Wiring {
                sources: self.sources,
                routes,
                sinks: self.sinks,
                shutdown: ShutdownHandle { alarms: self.alarms },
            },
        )
    }
}

// ── running a wiring ─────────────────────────────────

/// What one step of starting or stopping a wired bus does.
#[derive(Debug, Clone, Copy, PartialEq, Eq, Structural)]
pub enum StepKind {
    /// Turn an alarm off.
    ClearAlarm,
    /// Open a sink's connection.
    InitSink,
    /// Start a sink receiving messages.
    StartSink,
    /// Start a source and the relay that fans its signals out.
    StartSource,
}

/// One step: its kind, and the position of the alarm, sink or source it
/// acts on.
#[derive(Debug, Clone, Copy, PartialEq, Eq, Structural)]
pub struct Step {
    pub kind: StepKind,
    pub index: usize,
}

/// The steps of one kind over the first `n` positions, in order.
pub open spec fn phase(kind: StepKind, n: nat) -> Seq<Step> {
    Seq::new(n, |i: int| Step { kind, index: i as usize })
}

/// The startup order: every alarm is turned off, then every sink is
/// connected, then every sink is started, and only then the sources.
pub open spec fn startup_order(alarms: nat, sinks: nat, sources: nat) -> Seq<Step> {
    phase(StepKind::ClearAlarm, alarms) + phase(StepKind::InitSink, sinks) + phase(
        StepKind::StartSink,
        sinks,
    ) + phase(StepKind::StartSource, sources)
}

/// Startup first turns every alarm off, then connects every sink, then
/// starts every sink, and only then starts the sources, each in order and
/// each exactly once.
pub proof fn law_startup_order(alarms: nat, sinks: nat, sources: nat)
    ensures
        startup_order(alarms, sinks, sources).len() == alarms + 2 * sinks + sources,
        forall|i: int|
            0 <= i < alarms ==> #[trigger] startup_order(alarms, sinks, sources)[i] == (Step {
                kind: StepKind::ClearAlarm,
                index: i as usize,
            }),
        forall|i: int|
            0 <= i < sinks ==> #[trigger] startup_order(alarms, sinks, sources)[alarms + i] == (Step {
                kind: StepKind::InitSink,
                index: i as usize,
            }),
        forall|i: int|
            0 <= i < sinks ==> #[trigger] startup_order(alarms, sinks, sources)[alarms + sinks + i]
                == (Step { kind: StepKind::StartSink, index: i as usize }),
        forall|i: int|
            0 <= i < sources ==> #[trigger] startup_order(alarms, sinks, sources)[alarms + 2 * sinks
                + i] == (Step { kind: StepKind::StartSource, index: i as usize }),
{
}

/// Appends the steps of one kind over the first `n` positions.
fn push_phase(plan: &mut Vec<Step>, kind: StepKind, n: usize)
    ensures
        final(plan)@ == old(plan)@ + phase(kind, n as nat),
{
    let mut i: usize = 0;
    while i < n
        invariant
            i <= n,
            plan@ == old(plan)@ + phase(kind, i as nat),
        decreases n - i,
    {
        plan.push(Step { kind, index: i });
        proof {
            assert(phase(kind, (i + 1) as nat) =~= phase(kind, i as nat).push(
                Step { kind, index: i },
            ));
        }
        i = i + 1;
    }
}

impl ShutdownHandle {
    /// The steps of a shutdown: every alarm is turned off, in order.
    pub fn shutdown_plan(&self) -> (plan: Vec<Step>)
        ensures
            plan@ == phase(StepKind::ClearAlarm, self.spec_alarms().len()),
    {
        let mut plan = Vec::new();
        push_phase(&mut plan, StepKind::ClearAlarm, self.alarms.len());
        proof {
            assert(plan@ =~= phase(StepKind::ClearAlarm, self.spec_alarms().len()));
        }
        plan
    }
}

impl Wiring {
    /// The steps of a startup, in `startup_order`.
    pub fn startup_plan(&self) -> (plan: Vec<Step>)
        ensures
            plan@ == startup_order(
                self.shutdown.spec_alarms().len(),
                self.sinks@.len(),
                self.sources@.len(),
            ),
    {
        let mut plan = Vec::new();
        push_phase(&mut plan, StepKind::ClearAlarm, self.shutdown.alarms.len());
        push_phase(&mut plan, StepKind::InitSink, self.sinks.len());
        push_phase(&mut plan, StepKind::StartSink, self.sinks.len());
        push_phase(&mut plan, StepKind::StartSource, self.sources.len());
        proof {
            assert(plan@ =~= startup_order(
                self.shutdown.spec_alarms().len(),
                self.sinks@.len(),
                self.sources@.len(),
            ));
        }
        plan
    }
}

/// What a source's signal becomes: one message per sink on its route, in
/// route order, each tagged with the source's name.
pub fn fan_out(source: &str, route: &Vec<usize>, signal: Signal) -> (out: Vec<(usize, Message)>)
    ensures
        out@.len() == route@.len(),
        forall|j: int|
            0 <= j < route@.len() ==> {
                &&& (#[trigger] out@[j]).0 == route@[j]
                &&& out@[j].1.source@ == source@
                &&& out@[j].1.signal == signal
            },
{
    let mut out: Vec<(usize, Message)> = Vec::new();
    let mut j: usize = 0;
    while j < route.len()
        invariant
            j <= route@.len(),
            out@.len() == j,
            forall|k: int|
                0 <= k < j ==> {
                    &&& (#[trigger] out@[k]).0 == route@[k]
                    &&& out@[k].1.source@ == source@
                    &&& out@[k].1.signal == signal
                },
        decreases route@.len() - j,
    {
        out.push((route[j], Message { source: source.to_string(), signal }));
        j = j + 1;
    }
    out
}

/// No two sinks share a name.
pub open spec fn names_unique(sinks: Seq<SinkView>) -> bool {
    forall|i: int, j: int|
        0 <= i < sinks.len() && 0 <= j < sinks.len() && i != j ==> sink_name(#[trigger] sinks[i])
            != sink_name(#[trigger] sinks[j])
}

/// Registering sinks by name keeps one sink per name: the new sink is
/// registered, every other name stays registered, and names stay unique.
pub proof fn law_sink_names_unique(sinks: Seq<SinkView>, s: SinkView)
    requires
        names_unique(sinks),
    ensures
        names_unique(with_sink(sinks, s)),
        registered(with_sink(sinks, s), sink_name(s)),
        forall|n: Seq<char>| registered(sinks, n) ==> registered(with_sink(sinks, s), n),
        with_sink(sinks, s).len() == sinks.len() + (if registered(sinks, sink_name(s)) {
            0int
        } else {
            1int
        }),
{
    lemma_slot(sinks, sink_name(s));
    let after = with_sink(sinks, s);
    match sink_slot(sinks, sink_name(s)) {
        Some(k) => {
            assert(after[k] == s);
            assert forall|n: Seq<char>| registered(sinks, n) implies registered(after, n) by {
                let i = choose|i: int| 0 <= i < sinks.len() && sink_name(#[trigger] sinks[i]) == n;
                if i == k {
                    assert(sink_name(after[k]) == n);
                } else {
                    assert(after[i] == sinks[i]);
                }
            }
        },
        None => {
            let last = sinks.len() as int;
            assert(after[last] == s);
            assert forall|n: Seq<char>| registered(sinks, n) implies registered(after, n) by {
                let i = choose|i: int| 0 <= i < sinks.len() && sink_name(#[trigger] sinks[i]) == n;
                assert(after[i] == sinks[i]);
            }
            assert forall|i: int, j: int|
                0 <= i < after.len() && 0 <= j < after.len() && i != j implies sink_name(
                #[trigger] after[i],
            ) != sink_name(#[trigger] after[j]) by {
                if i < last && j < last {
                    assert(after[i] == sinks[i] && after[j] == sinks[j]);
                } else if i == last {
                    assert(after[j] == sinks[j]);
                } else {
                    assert(after[i] == sinks[i]);
                }
            }
        },
    }
}

/// The first-match position found in a prefix is the first-match position
/// of the whole sequence.
proof fn lemma_slot_prefix(sinks: Seq<SinkView>, name: Seq<char>, n: int)
    requires
        0 < n <= sinks.len(),
        sink_slot(sinks.take(n - 1), name) is None,
        sink_name(sinks[n - 1]) == name,
    ensures
        sink_slot(sinks, name) == Some(n - 1),
    decreases sinks.len(),
{
    assert(sinks.take(n).drop_last() =~= sinks.take(n - 1));
    assert(sink_slot(sinks.take(n), name) == Some(n - 1));
    if n < sinks.len() {
        assert(sinks.drop_last().take(n) =~= sinks.take(n));
        assert(sinks.drop_last().take(n - 1) =~= sinks.take(n - 1));
        lemma_slot_prefix(sinks.drop_last(), name, n);
    } else {
        assert(sinks.take(n) =~= sinks);
    }
}

/// With nothing missing overall, nothing is missing for any one source.
proof fn lemma_missing_prefix(sources: Seq<SourceView>, sinks: Seq<SinkView>, i: int)
    requires
        0 <= i < sources.len(),
        missing_sinks(sources, sinks).len() == 0,
    ensures
        unregistered(source_sinks(sources[i]), sinks).len() == 0,
    decreases sources.len(),
{
    if i < sources.len() - 1 {
        lemma_missing_prefix(sources.drop_last(), sinks, i);
        assert(sources.drop_last()[i] == sources[i]);
    }
}

/// With no unregistered name, every name is registered.
proof fn lemma_unregistered_empty(names: Seq<Seq<char>>, sinks: Seq<SinkView>, j: int)
    requires
        0 <= j < names.len(),
        unregistered(names, sinks).len() == 0,
    ensures
        registered(sinks, names[j]),
    decreases names.len(),
{
    if j < names.len() - 1 {
        lemma_unregistered_empty(names.drop_last(), sinks, j);
        assert(names.drop_last()[j] == names[j]);
    }
}

} // verus!
