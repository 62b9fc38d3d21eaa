//! Signal routing: binary `On`/`Off` signals flow from sources (URL
//! probes, cron windows) through logic nodes (NOT, AND, OR, XOR, turn-on
//! delay) to sinks (a log, Meross smart plugs).
//!
//! This crate holds the decisions of every component, each with its
//! contract: what a node emits for each input, how a configuration builds
//! and wires the components, what a URL check concludes, how cloud
//! requests are signed and replies read.  The daemon around it runs the
//! channels, timers and network calls and hands the outcomes back.

pub mod signal;
pub mod table;
pub mod gate;
pub mod span;
pub mod delay;
pub mod text;
pub mod util;
pub mod meross;
pub mod sources;
pub mod firing;
pub mod nodes;
pub mod sinks;
pub mod bus;
pub mod config;

pub use bus::{
    fan_out, Bus, NodeKind, NodeSink, NodeSource, ShutdownHandle, SinkSpec, SourceSpec, Step,
    StepKind, Wiring,
};
pub use config::{Config, NodeConfig, SinkConfig, SourceConfig};
pub use delay::{DelayGate, DelayStep};
pub use firing::{CronAction, CronEvent, CronFiring, CronPhase, Moment};
pub use gate::{Gate, Logic};
pub use meross::{
    lookup_devices, Delivery, DeviceLookup, LoginFlow, LoginReply, LoginStep, Region, Session,
    Toggle,
};
pub use nodes::{And, Delay, Not, Or, Xor};
pub use signal::{Message, Signal};
pub use sinks::{Change, LogSink, MerossSink, StateTracker};
pub use sources::{CronSource, Pattern, ProbeSchedule, SleepPlan, UrlSource};
pub use span::{count_span_units, parse_span, Span};
pub use text::ErrorChain;
