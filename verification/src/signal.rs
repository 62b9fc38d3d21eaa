use vstd::prelude::*;

verus! {

/// A binary signal: on or off.
#[derive(Debug, Clone, Copy, PartialEq, Eq, Structural)]
pub enum Signal {
    On,
    Off,
}

impl Signal {
    /// Lowercase name, convenient for log fields.
    pub fn as_str(self) -> (name: &'static str)
        ensures
            name@ == (if self == Signal::On { "on"@ } else { "off"@ }),
    {
        match self {
            Signal::On => "on",
            Signal::Off => "off",
        }
    }
}

/// A signal tagged with the name of its source.
///
/// Sinks receive `Message` values so they can track
/// per-source state independently.
#[derive(Debug)]
pub struct Message {
    pub source: String,
    pub signal: Signal,
}

impl Clone for Message {
    fn clone(&self) -> (m: Self)
        ensures
            m == *self,
    {
        Message { source: self.source.clone(), signal: self.signal }
    }
}

} // verus!
