use vstd::prelude::*;

use crate::bus::{
    law_sink_names_unique, names_unique, sink_name, with_sink, Bus, BusView, NodeKindView, SinkSpec,
    SinkView, SourceSpec, SourceView,
};
use crate::gate::Logic;
use crate::meross::{named_region_base, Region};
use crate::nodes::{And, Delay, Not, NodeView, Or, Xor};
use crate::sinks::{LogSink, MerossSink, MerossView};
use crate::sources::{
    cron_accepts, cron_error, regex_error, view_names, CronSource, CronSourceView, Pattern,
    ScheduleView, UrlSource, UrlSourceView,
};
use crate::span::{duration_result, parse_span, Span};

verus! {

// ── configuration entries ────────────────────────────

/// A `[[source]]` entry; durations are humantime strings such as `"60s"`.
pub enum SourceConfig {
    Cron {
        name: String,
        /// 6-field cron expression (local time):
        /// `sec min hour day-of-month month day-of-week`
        cron: String,
        /// How long the signal stays `On` after firing.
        duration: String,
        sinks: Vec<String>,
    },
    Url {
        name: String,
        url: String,
        /// Polling interval, e.g. `"60s"` or `"1m30s"`.
        interval: String,
        /// Per-request timeout (default 10 s).
        timeout: Option<String>,
        /// Std deviation for Gaussian interval jitter.
        stddev: Option<String>,
        /// If set, response body must match this regex.
        pattern: Option<String>,
        sinks: Vec<String>,
    },
}

/// A `[[node]]` entry.
pub enum NodeConfig {
    And { name: String, sinks: Vec<String> },
    Delay {
        name: String,
        /// Turn-on delay, e.g. `"30s"`.
        delay: String,
        sinks: Vec<String>,
    },
    Not { name: String, sinks: Vec<String> },
    Or { name: String, sinks: Vec<String> },
    Xor { name: String, sinks: Vec<String> },
}

/// A `[[sink]]` entry.
pub enum SinkConfig {
    Log { name: String },
    Meross {
        name: String,
        /// Device name as shown in the Meross app.
        device: String,
        email: String,
        password: String,
        /// `"eu"`, `"us"`, `"ap"`, or a full HTTPS URL.
        region: String,
        /// Relay channel (default 0 = main outlet).
        channel: Option<u8>,
    },
}

/// Parsed representation of a config file.
pub struct Config {
    source: Vec<SourceConfig>,
    node: Vec<NodeConfig>,
    sink: Vec<SinkConfig>,
}

/// The entries of a configuration, in file order.
pub struct ConfigView {
    pub sources: Seq<SourceConfig>,
    pub nodes: Seq<NodeConfig>,
    pub sinks: Seq<SinkConfig>,
}

impl View for Config {
    type V = ConfigView;

    closed spec fn view(&self) -> ConfigView {
        ConfigView { sources: self.source@, nodes: self.node@, sinks: self.sink@ }
    }
}

// ── what an entry builds ─────────────────────────────

/// The error of a duration string, if it is refused.
pub open spec fn dur_error(text: Seq<char>) -> Option<Seq<char>> {
    match duration_result(text) {
        Ok(_) => None,
        Err(m) => Some(m),
    }
}

/// The length of an accepted duration string, in nanoseconds.
pub open spec fn dur_value(text: Seq<char>) -> nat {
    duration_result(text)->Ok_0
}

/// The first of two possible errors.
pub open spec fn or_else(a: Option<Seq<char>>, b: Option<Seq<char>>) -> Option<Seq<char>> {
    if a is Some {
        a
    } else {
        b
    }
}

pub open spec fn opt_dur_error(t: Option<String>) -> Option<Seq<char>> {
    match t {
        Some(x) => dur_error(x@),
        None => None,
    }
}

pub open spec fn pattern_error(p: Option<String>) -> Option<Seq<char>> {
    match p {
        Some(x) => regex_error(x@),
        None => None,
    }
}

/// Why a source entry cannot be built: its fields are checked in order
/// (durations, then the cron expression or the optional fields).
pub open spec fn source_error(c: SourceConfig) -> Option<Seq<char>> {
    match c {
        SourceConfig::Cron { cron, duration, .. } => or_else(
            dur_error(duration@),
            if cron_accepts(cron@) {
                None
            } else {
                Some(cron_error(cron@))
            },
        ),
        SourceConfig::Url { interval, timeout, stddev, pattern, .. } => or_else(
            dur_error(interval@),
            or_else(opt_dur_error(timeout), or_else(opt_dur_error(stddev), pattern_error(pattern))),
        ),
    }
}

/// The source an accepted entry builds.
pub open spec fn source_built(c: SourceConfig) -> SourceView {
    match c {
        SourceConfig::Cron { name, cron, duration, sinks } => SourceView::Cron(
            CronSourceView {
                name: name@,
                expression: cron@,
                duration: dur_value(duration@),
                sinks: view_names(sinks@),
            },
        ),
        SourceConfig::Url { name, url, interval, timeout, stddev, pattern, sinks } => SourceView::Url(
            UrlSourceView {
                name: name@,
                url: url@,
                schedule: ScheduleView {
                    interval: dur_value(interval@),
                    stddev: match stddev {
                        Some(s) => Some(dur_value(s@)),
                        None => None,
                    },
                },
                timeout: match timeout {
                    Some(t) => dur_value(t@),
                    None => 10 * 1_000_000_000,
                },
                pattern: match pattern {
                    Some(p) => Some(p@),
                    None => None,
                },
                sinks: view_names(sinks@),
            },
        ),
    }
}

/// Why a node entry cannot be built: only a delay's duration can fail.
pub open spec fn node_error(c: NodeConfig) -> Option<Seq<char>> {
    match c {
        NodeConfig::Delay { delay, .. } => dur_error(delay@),
        _ => None,
    }
}

pub open spec fn node_name(c: NodeConfig) -> Seq<char> {
    match c {
        NodeConfig::And { name, .. } => name@,
        NodeConfig::Delay { name, .. } => name@,
        NodeConfig::Not { name, .. } => name@,
        NodeConfig::Or { name, .. } => name@,
        NodeConfig::Xor { name, .. } => name@,
    }
}

pub open spec fn node_sinks(c: NodeConfig) -> Seq<Seq<char>> {
    match c {
        NodeConfig::And { sinks, .. } => view_names(sinks@),
        NodeConfig::Delay { sinks, .. } => view_names(sinks@),
        NodeConfig::Not { sinks, .. } => view_names(sinks@),
        NodeConfig::Or { sinks, .. } => view_names(sinks@),
        NodeConfig::Xor { sinks, .. } => view_names(sinks@),
    }
}

/// The source half of a node entry.
pub open spec fn node_source(c: NodeConfig) -> SourceView {
    SourceView::Node(NodeView { name: node_name(c), sinks: node_sinks(c) })
}

/// The sink half of a node entry.
pub open spec fn node_sink(c: NodeConfig) -> SinkView {
    SinkView::Node {
        name: node_name(c),
        kind: match c {
            NodeConfig::And { .. } => NodeKindView::Logic(Logic::And),
            NodeConfig::Delay { delay, .. } => NodeKindView::Delay(dur_value(delay@)),
            NodeConfig::Not { .. } => NodeKindView::Logic(Logic::Not),
            NodeConfig::Or { .. } => NodeKindView::Logic(Logic::Or),
            NodeConfig::Xor { .. } => NodeKindView::Logic(Logic::Xor),
        },
    }
}

/// The plug a Meross entry configures (channel 0 unless given).
pub open spec fn meross_built(c: SinkConfig) -> MerossView {
    match c {
        SinkConfig::Meross { name, device, email, password, region, channel } => MerossView {
            name: name@,
            device_name: device@,
            email: email@,
            password: password@,
            api_base: named_region_base(region@),
            channel: match channel {
                Some(ch) => ch,
                None => 0,
            },
        },
        SinkConfig::Log { .. } => arbitrary(),
    }
}

/// The sink a sink entry builds.
pub open spec fn sink_built(c: SinkConfig) -> SinkView {
    match c {
        SinkConfig::Log { name } => SinkView::Log(name@),
        SinkConfig::Meross { .. } => SinkView::Meross(meross_built(c)),
    }
}

// ── what a configuration builds ──────────────────────

/// The first error among source entries, in order.
pub open spec fn sources_error(s: Seq<SourceConfig>) -> Option<Seq<char>>
    decreases s.len(),
{
    if s.len() == 0 {
        None
    } else {
        or_else(sources_error(s.drop_last()), source_error(s.last()))
    }
}

/// The first error among node entries, in order.
pub open spec fn nodes_error(n: Seq<NodeConfig>) -> Option<Seq<char>>
    decreases n.len(),
{
    if n.len() == 0 {
        None
    } else {
        or_else(nodes_error(n.drop_last()), node_error(n.last()))
    }
}

/// Why a configuration cannot be built: the first failing source entry,
/// else the first failing node entry.  Sink entries never fail.
pub open spec fn config_error(c: ConfigView) -> Option<Seq<char>> {
    or_else(sources_error(c.sources), nodes_error(c.nodes))
}

/// Sinks registered in turn, each replacing one of the same name.
pub open spec fn sinks_after(start: Seq<SinkView>, adds: Seq<SinkView>) -> Seq<SinkView>
    decreases adds.len(),
{
    if adds.len() == 0 {
        start
    } else {
        with_sink(sinks_after(start, adds.drop_last()), adds.last())
    }
}

/// The alarms of the sink entries: every Meross plug, in order.
pub open spec fn alarms_of(k: Seq<SinkConfig>) -> Seq<MerossView>
    decreases k.len(),
{
    if k.len() == 0 {
        Seq::empty()
    } else {
        let rest = alarms_of(k.drop_last());
        match k.last() {
            SinkConfig::Meross { .. } => rest.push(meross_built(k.last())),
            SinkConfig::Log { .. } => rest,
        }
    }
}

/// The bus a configuration builds: the sources, then for each node its
/// sink and source halves, then the sinks; each Meross plug is also an
/// alarm.
pub open spec fn config_bus(c: ConfigView) -> BusView {
    BusView {
        sources: c.sources.map_values(|s: SourceConfig| source_built(s)) + c.nodes.map_values(
            |n: NodeConfig| node_source(n),
        ),
        sinks: sinks_after(
            sinks_after(Seq::empty(), c.nodes.map_values(|n: NodeConfig| node_sink(n))),
            c.sinks.map_values(|k: SinkConfig| sink_built(k)),
        ),
        alarms: alarms_of(c.sinks),
    }
}

// ── building ─────────────────────────────────────────

fn clone_names(v: &Vec<String>) -> (r: Vec<String>)
    ensures
        view_names(r@) == view_names(v@),
{
    let mut r: Vec<String> = Vec::new();
    let mut i: usize = 0;
    while i < v.len()
        invariant
            i <= v.len(),
            view_names(r@) == view_names(v@).take(i as int),
        decreases v.len() - i,
    {
        let c = v[i].clone();
        assert(c@ == v@[i as int]@);
        let ghost before = r@;
        r.push(c);
        proof {
            assert(view_names(r@) =~= view_names(before).push(c@));
            assert(view_names(r@) =~= view_names(v@).take(i as int + 1));
        }
        i = i + 1;
    }
    proof {
        assert(view_names(v@).take(v@.len() as int) =~= view_names(v@));
    }
    r
}

/// Parses an optional duration.
fn parse_opt(t: &Option<String>) -> (r: Result<Option<Span>, String>)
    ensures
        match opt_dur_error(*t) {
            Some(m) => r matches Err(e) && e@ == m,
            None => r matches Ok(o) && match t {
                Some(x) => o matches Some(s) && s.wf() && s@ == dur_value(x@),
                None => o is None,
            },
        },
{
    match t {
        Some(x) => match parse_span(x.as_str()) {
            Ok(s) => Ok(Some(s)),
            Err(m) => Err(m),
        },
        None => Ok(None),
    }
}

/// Builds the source of one entry.
fn build_source(cfg: &SourceConfig) -> (r: Result<SourceSpec, String>)
    ensures
        match source_error(*cfg) {
            Some(m) => r matches Err(e) && e@ == m,
            None => r matches Ok(s) && s@ == source_built(*cfg),
        },
{
    match cfg {
        SourceConfig::Cron { name, cron, duration, sinks } => {
            let d = match parse_span(duration.as_str()) {
                Ok(d) => d,
                Err(m) => return Err(m),
            };
            match CronSource::new(name.clone(), cron.as_str(), d, clone_names(sinks)) {
                Ok(src) => Ok(SourceSpec::Cron(src)),
                Err(m) => Err(m),
            }
        },
        SourceConfig::Url { name, url, interval, timeout, stddev, pattern, sinks } => {
            let i = match parse_span(interval.as_str()) {
                Ok(i) => i,
                Err(m) => return Err(m),
            };
            let t = parse_opt(timeout)?;
            let sd = parse_opt(stddev)?;
            let pat = match pattern {
                Some(p) => match Pattern::new(p.as_str()) {
                    Ok(x) => Some(x),
                    Err(m) => return Err(m),
                },
                None => None,
            };
            let mut src = UrlSource::new(name.clone(), url.clone(), i, clone_names(sinks));
            if let Some(t) = t {
                src = src.with_timeout(t);
            }
            if let Some(sd) = sd {
                src = src.with_stddev(sd);
            }
            if let Some(p) = pat {
                src = src.with_pattern(p);
            }
            Ok(SourceSpec::Url(src))
        },
    }
}

/// Builds the sink and source halves of one node entry.
fn build_node(cfg: &NodeConfig) -> (r: Result<(SinkSpec, SourceSpec), String>)
    ensures
        match node_error(*cfg) {
            Some(m) => r matches Err(e) && e@ == m,
            None => r matches Ok(p) && p.0@ == node_sink(*cfg) && p.1@ == node_source(*cfg),
        },
{
    let (sink, source) = match cfg {
        NodeConfig::And { name, sinks } => And::new(name.clone(), clone_names(sinks)).split(),
        NodeConfig::Delay { name, delay, sinks } => {
            let d = match parse_span(delay.as_str()) {
                Ok(d) => d,
                Err(m) => return Err(m),
            };
            Delay::new(name.clone(), d, clone_names(sinks)).split()
        },
        NodeConfig::Not { name, sinks } => Not::new(name.clone(), clone_names(sinks)).split(),
        NodeConfig::Or { name, sinks } => Or::new(name.clone(), clone_names(sinks)).split(),
        NodeConfig::Xor { name, sinks } => Xor::new(name.clone(), clone_names(sinks)).split(),
    };
    Ok((SinkSpec::Node(sink), SourceSpec::Node(source)))
}

/// Builds the sink of one entry, and the alarm of a Meross plug.
fn build_sink(cfg: &SinkConfig) -> (r: (SinkSpec, Option<MerossSink>))
    ensures
        r.0@ == sink_built(*cfg),
        match cfg {
            SinkConfig::Meross { .. } => r.1 matches Some(a) && a@ == meross_built(*cfg),
            SinkConfig::Log { .. } => r.1 is None,
        },
{
    match cfg {
        SinkConfig::Log { name } => (SinkSpec::Log(LogSink::new(name.clone())), None),
        SinkConfig::Meross { name, device, email, password, region, channel } => {
            let r = Region::from_name(region.clone());
            let mut sink = MerossSink::new(
                name.clone(),
                device.clone(),
                email.clone(),
                password.clone(),
                r,
            );
            if let Some(ch) = channel {
                sink = sink.with_channel(*ch);
            }
            let alarm = sink.clone();
            (SinkSpec::Meross(sink), Some(alarm))
        },
    }
}

impl Config {
    pub fn new(source: Vec<SourceConfig>, node: Vec<NodeConfig>, sink: Vec<SinkConfig>) -> (c: Self)
        ensures
            c@ == (ConfigView { sources: source@, nodes: node@, sinks: sink@ }),
    {
        Config { source, node, sink }
    }

    /// The entries, in file order.
    pub fn into_parts(self) -> (parts: (Vec<SourceConfig>, Vec<NodeConfig>, Vec<SinkConfig>))
        ensures
            parts.0@ == self@.sources,
            parts.1@ == self@.nodes,
            parts.2@ == self@.sinks,
    {
        (self.source, self.node, self.sink)
    }

    /// Construct and wire all objects into a [`Bus`]: the first entry that
    /// cannot be built gives the error.
    pub fn build(&self) -> (r: Result<Bus, String>)
        ensures
            (r is Ok) == (config_error(self@) is None),
            r matches Err(m) ==> config_error(self@) == Some(m@),
            r matches Ok(b) ==> b@ == config_bus(self@),
    {
        let mut bus = Bus::new();
        let ghost nsrc = self.source@.map_values(|s: SourceConfig| source_built(s));
        let mut i: usize = 0;
        proof {
            assert(nsrc.take(0) =~= Seq::<SourceView>::empty());
            assert(self.source@.take(0) =~= Seq::<SourceConfig>::empty());
        }
        while i < self.source.len()
            invariant
                i <= self.source.len(),
                nsrc == self.source@.map_values(|s: SourceConfig| source_built(s)),
                sources_error(self.source@.take(i as int)) is None,
                bus@ == (BusView {
                    sources: nsrc.take(i as int),
                    sinks: Seq::empty(),
                    alarms: Seq::empty(),
                }),
            decreases self.source.len() - i,
        {
            proof {
                let t = self.source@.take(i as int + 1);
                assert(t.drop_last() =~= self.source@.take(i as int));
                assert(t.last() == self.source@[i as int]);
            }
            match build_source(&self.source[i]) {
                Ok(s) => {
                    bus.add_source(s);
                    proof {
                        assert(nsrc.take(i as int + 1) =~= nsrc.take(i as int).push(
                            source_built(self.source@[i as int]),
                        ));
                    }
                },
                Err(m) => {
                    proof {
                        lemma_first_error_sources(self.source@, i as int);
                    }
                    return Err(m);
                },
            }
            i = i + 1;
        }
        proof {
            assert(self.source@.take(self.source@.len() as int) =~= self.source@);
            assert(nsrc.take(nsrc.len() as int) =~= nsrc);
        }
        let ghost nnode = self.node@.map_values(|n: NodeConfig| node_source(n));
        let ghost nsink = self.node@.map_values(|n: NodeConfig| node_sink(n));
        let mut j: usize = 0;
        proof {
            assert(nnode.take(0) =~= Seq::<SourceView>::empty());
            assert(nsink.take(0) =~= Seq::<SinkView>::empty());
            assert(self.node@.take(0) =~= Seq::<NodeConfig>::empty());
            assert(nsrc + nnode.take(0) =~= nsrc);
        }
        while j < self.node.len()
            invariant
                j <= self.node.len(),
                nsrc == self.source@.map_values(|s: SourceConfig| source_built(s)),
                nnode == self.node@.map_values(|n: NodeConfig| node_source(n)),
                nsink == self.node@.map_values(|n: NodeConfig| node_sink(n)),
                sources_error(self.source@) is None,
                nodes_error(self.node@.take(j as int)) is None,
                bus@ == (BusView {
                    sources: nsrc + nnode.take(j as int),
                    sinks: sinks_after(Seq::empty(), nsink.take(j as int)),
                    alarms: Seq::empty(),
                }),
            decreases self.node.len() - j,
        {
            proof {
                let t = self.node@.take(j as int + 1);
                assert(t.drop_last() =~= self.node@.take(j as int));
                assert(t.last() == self.node@[j as int]);
                let u = nsink.take(j as int + 1);
                assert(u.drop_last() =~= nsink.take(j as int));
                assert(u.last() == node_sink(self.node@[j as int]));
            }
            match build_node(&self.node[j]) {
                Ok((sink, source)) => {
                    bus.add_sink(sink);
                    bus.add_source(source);
                    proof {
                        assert(nsrc + nnode.take(j as int + 1) =~= (nsrc + nnode.take(
                            j as int,
                        )).push(node_source(self.node@[j as int])));
                    }
                },
                Err(m) => {
                    proof {
                        lemma_first_error_nodes(self.node@, j as int);
                    }
                    return Err(m);
                },
            }
            j = j + 1;
        }
        proof {
            assert(self.node@.take(self.node@.len() as int) =~= self.node@);
            assert(nnode.take(nnode.len() as int) =~= nnode);
            assert(nsink.take(nsink.len() as int) =~= nsink);
        }
        let ghost nodes_sinks = sinks_after(Seq::empty(), nsink);
        let ghost ksink = self.sink@.map_values(|k: SinkConfig| sink_built(k));
        let mut k: usize = 0;
        proof {
            assert(ksink.take(0) =~= Seq::<SinkView>::empty());
            assert(self.sink@.take(0) =~= Seq::<SinkConfig>::empty());
        }
        while k < self.sink.len()
            invariant
                k <= self.sink.len(),
                ksink == self.sink@.map_values(|k: SinkConfig| sink_built(k)),
                bus@ == (BusView {
                    sources: nsrc + nnode,
                    sinks: sinks_after(nodes_sinks, ksink.take(k as int)),
                    alarms: alarms_of(self.sink@.take(k as int)),
                }),
            decreases self.sink.len() - k,
        {
            proof {
                let t = self.sink@.take(k as int + 1);
                assert(t.drop_last() =~= self.sink@.take(k as int));
                assert(t.last() == self.sink@[k as int]);
                let u = ksink.take(k as int + 1);
                assert(u.drop_last() =~= ksink.take(k as int));
                assert(u.last() == sink_built(self.sink@[k as int]));
            }
            let (sink, alarm) = build_sink(&self.sink[k]);
            bus.add_sink(sink);
            if let Some(a) = alarm {
                bus.add_alarm(a);
            }
            k = k + 1;
        }
        proof {
            assert(self.sink@.take(self.sink@.len() as int) =~= self.sink@);
            assert(ksink.take(ksink.len() as int) =~= ksink);
            assert(config_error(self@) is None);
        }
        Ok(bus)
    }
}

/// Registering sinks one after another keeps one sink per name.
proof fn lemma_sinks_after_unique(start: Seq<SinkView>, adds: Seq<SinkView>)
    requires
        names_unique(start),
    ensures
        names_unique(sinks_after(start, adds)),
    decreases adds.len(),
{
    if adds.len() > 0 {
        lemma_sinks_after_unique(start, adds.drop_last());
        law_sink_names_unique(sinks_after(start, adds.drop_last()), adds.last());
    }
}

/// A built configuration has one sink per name: a later entry (node or
/// sink) of the same name replaces an earlier one.
pub proof fn law_config_sink_names_unique(c: ConfigView)
    ensures
        names_unique(config_bus(c).sinks),
{
    let n = c.nodes.map_values(|x: NodeConfig| node_sink(x));
    lemma_sinks_after_unique(Seq::empty(), n);
    lemma_sinks_after_unique(
        sinks_after(Seq::empty(), n),
        c.sinks.map_values(|k: SinkConfig| sink_built(k)),
    );
}

/// An error at entry `i` after error-free entries is the first error.
proof fn lemma_first_error_sources(s: Seq<SourceConfig>, i: int)
    requires
        0 <= i < s.len(),
        sources_error(s.take(i)) is None,
        source_error(s[i]) is Some,
    ensures
        sources_error(s) == source_error(s[i]),
    decreases s.len(),
{
    if i < s.len() - 1 {
        assert(s.drop_last().take(i) =~= s.take(i));
        assert(s.drop_last()[i] == s[i]);
        lemma_first_error_sources(s.drop_last(), i);
    } else {
        assert(s.drop_last() =~= s.take(i));
    }
}

/// An error at entry `j` after error-free entries is the first error.
proof fn lemma_first_error_nodes(n: Seq<NodeConfig>, j: int)
    requires
        0 <= j < n.len(),
        nodes_error(n.take(j)) is None,
        node_error(n[j]) is Some,
    ensures
        nodes_error(n) == node_error(n[j]),
    decreases n.len(),
{
    if j < n.len() - 1 {
        assert(n.drop_last().take(j) =~= n.take(j));
        assert(n.drop_last()[j] == n[j]);
        lemma_first_error_nodes(n.drop_last(), j);
    } else {
        assert(n.drop_last() =~= n.take(j));
    }
}

/// A `[[sink]]` entry of type `meross`.
pub open spec fn is_meross_entry(k: SinkConfig) -> bool {
    k is Meross
}

proof fn lemma_alarms_filter(k: Seq<SinkConfig>)
    ensures
        alarms_of(k) == k.filter(|x: SinkConfig| is_meross_entry(x)).map_values(
            |x: SinkConfig| meross_built(x),
        ),
    decreases k.len(),
{
    reveal(Seq::filter);
    if k.len() > 0 {
        lemma_alarms_filter(k.drop_last());
        let f = |x: SinkConfig| meross_built(x);
        let sub = k.drop_last().filter(|x: SinkConfig| is_meross_entry(x));
        if is_meross_entry(k.last()) {
            assert(sub.push(k.last()).map_values(f) =~= sub.map_values(f).push(f(k.last())));
        }
    }
}

/// Every Meross plug of a configuration is an alarm, turned off at startup
/// and at shutdown: the alarms of the built bus are the `meross` sink
/// entries, one per entry and in file order, each with the entry's name,
/// device, account, region and channel (0 unless given).
pub proof fn law_alarms_are_meross_entries(c: ConfigView)
    ensures
        config_bus(c).alarms.len() == c.sinks.filter(|x: SinkConfig| is_meross_entry(x)).len(),
        forall|i: int|
            #![trigger config_bus(c).alarms[i]]
            0 <= i < config_bus(c).alarms.len() ==> match c.sinks.filter(
                |x: SinkConfig| is_meross_entry(x),
            )[i] {
                SinkConfig::Meross { name, device, email, password, region, channel } => {
                    let a = config_bus(c).alarms[i];
                    &&& a.name == name@
                    &&& a.device_name == device@
                    &&& a.email == email@
                    &&& a.password == password@
                    &&& a.api_base == named_region_base(region@)
                    &&& a.channel == (match channel {
                        Some(ch) => ch,
                        None => 0u8,
                    })
                },
                SinkConfig::Log { .. } => false,
            },
{
    lemma_alarms_filter(c.sinks);
    let kept = c.sinks.filter(|x: SinkConfig| is_meross_entry(x));
    broadcast use vstd::seq_lib::group_filter_ensures;

    assert forall|i: int| 0 <= i < kept.len() implies is_meross_entry(#[trigger] kept[i]) by {}
}

/// Each `[[node]]` entry builds the node its type names, under the entry's
/// name: `type = "or"` an OR gate, `"and"` an AND gate, `"not"` a NOT gate,
/// `"xor"` an XOR gate, and `"delay"` a turn-on delay of the entry's
/// duration; its source half forwards to the entry's sinks.
pub proof fn law_node_entries_build_their_type(c: NodeConfig)
    ensures
        match c {
            NodeConfig::And { name, sinks } => node_sink(c) == (SinkView::Node {
                name: name@,
                kind: NodeKindView::Logic(Logic::And),
            }) && node_source(c) == SourceView::Node(NodeView { name: name@, sinks: view_names(sinks@) }),
            NodeConfig::Or { name, sinks } => node_sink(c) == (SinkView::Node {
                name: name@,
                kind: NodeKindView::Logic(Logic::Or),
            }) && node_source(c) == SourceView::Node(NodeView { name: name@, sinks: view_names(sinks@) }),
            NodeConfig::Not { name, sinks } => node_sink(c) == (SinkView::Node {
                name: name@,
                kind: NodeKindView::Logic(Logic::Not),
            }) && node_source(c) == SourceView::Node(NodeView { name: name@, sinks: view_names(sinks@) }),
            NodeConfig::Xor { name, sinks } => node_sink(c) == (SinkView::Node {
                name: name@,
                kind: NodeKindView::Logic(Logic::Xor),
            }) && node_source(c) == SourceView::Node(NodeView { name: name@, sinks: view_names(sinks@) }),
            NodeConfig::Delay { name, delay, sinks } => node_sink(c) == (SinkView::Node {
                name: name@,
                kind: NodeKindView::Delay(dur_value(delay@)),
            }) && node_source(c) == SourceView::Node(NodeView { name: name@, sinks: view_names(sinks@) }),
        },
{
}

} // verus!
