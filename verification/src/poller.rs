use vstd::prelude::*;

use crate::config::Config;
use crate::text::dec_rep;
use crate::text::u8_to_string;

verus! {

/// The fixed heartbeat, in seconds: the longest the poller waits for an edge
/// before it emits a full snapshot.
pub const HEARTBEAT_SECS: u64 = 10;

/// A telemetry message: pin names mapped to boolean levels. A delta holds a
/// single entry (emitted on an edge); a snapshot holds one entry per input
/// pin (emitted on a heartbeat timeout).
#[derive(Debug, Clone)]
pub struct TelemetryMessage {
    pub entries: Vec<(String, bool)>,
}

/// The outcome of one bounded wait on the input pins: an edge on a pin with
/// its new level, or the heartbeat timeout with no edge observed.
#[derive(Debug, Clone)]
pub enum PollOutcome {
    Edge { pin: u8, level: bool },
    Timeout,
}

/// The input poller's fixed pin map: each configured input's name and
/// hardware pin number, in configuration order.
#[derive(Debug, Clone)]
pub struct InputPoller {
    pub pins: Vec<(String, u8)>,
}

/// The synthetic name used when an edge arrives on a pin that is not in the
/// map: "pin-" followed by the pin number in decimal.
pub open spec fn synthetic_name(pin: u8) -> Seq<char> {
    "pin-"@ + dec_rep(pin as nat)
}

/// Some configured input is bound to this pin number.
pub open spec fn has_pin(pins: Seq<(String, u8)>, pin: u8) -> bool {
    exists|i: int| 0 <= i < pins.len() && (#[trigger] pins[i]).1 == pin
}

/// Index `i` holds the first binding of this pin number.
pub open spec fn is_first_pin_match(pins: Seq<(String, u8)>, pin: u8, i: int) -> bool {
    &&& 0 <= i < pins.len()
    &&& pins[i].1 == pin
    &&& forall|k: int| 0 <= k < i ==> (#[trigger] pins[k]).1 != pin
}

impl InputPoller {
    /// Build the pin map from the configuration's inputs, in order.
    pub fn from_config(config: &Config) -> (p: InputPoller)
        ensures
            p.pins@.len() == config.inputs@.len(),
            forall|i: int|
                0 <= i < p.pins@.len() ==> (#[trigger] p.pins@[i]).0@ == config.inputs@[i].0@
                    && p.pins@[i].1 == config.inputs@[i].1.pin,
    {
        let mut pins: Vec<(String, u8)> = Vec::new();
        let mut k: usize = 0;
        while k < config.inputs.len()
            invariant
                k <= config.inputs@.len(),
                pins@.len() == k,
                forall|i: int|
                    0 <= i < k ==> (#[trigger] pins@[i]).0@ == config.inputs@[i].0@ && pins@[i].1
                        == config.inputs@[i].1.pin,
            decreases config.inputs@.len() - k,
        {
            let name = config.inputs[k].0.clone();
            let pin = config.inputs[k].1.pin;
            pins.push((name, pin));
            k = k + 1;
        }
        InputPoller { pins }
    }

    /// An edge was observed: emit a delta with exactly one entry, the
    /// triggering pin's configured name (first binding of the number; a
    /// synthetic name if the number is unknown) and its new level.
    pub fn on_edge(&self, pin: u8, level: bool) -> (msg: TelemetryMessage)
        ensures
            msg.entries@.len() == 1,
            msg.entries@[0].1 == level,
            has_pin(self.pins@, pin) ==> exists|i: int|
                is_first_pin_match(self.pins@, pin, i) && msg.entries@[0].0@ == (
                #[trigger] self.pins@[i]).0@,
            !has_pin(self.pins@, pin) ==> msg.entries@[0].0@ == synthetic_name(pin),
    {
        let mut i: usize = 0;
        while i < self.pins.len()
            invariant
                i <= self.pins@.len(),
                forall|k: int| 0 <= k < i ==> (#[trigger] self.pins@[k]).1 != pin,
            decreases self.pins@.len() - i,
        {
            if self.pins[i].1 == pin {
                let name = self.pins[i].0.clone();
                let mut entries: Vec<(String, bool)> = Vec::new();
                entries.push((name, level));
                proof {
                    assert(is_first_pin_match(self.pins@, pin, i as int));
                }
                return TelemetryMessage { entries };
            }
            i = i + 1;
        }
        let mut name = String::from_str("pin-");
        let num = u8_to_string(pin);
        name.append(num.as_str());
        let mut entries: Vec<(String, bool)> = Vec::new();
        entries.push((name, level));
        TelemetryMessage { entries }
    }

    /// The heartbeat timed out with no edge: emit a snapshot with exactly one
    /// entry per configured input pin, in map order, carrying the level just
    /// read for that pin (`levels[i]` is the current level of pin `i`).
    pub fn on_timeout(&self, levels: &Vec<bool>) -> (msg: TelemetryMessage)
        requires
            levels@.len() == self.pins@.len(),
        ensures
            msg.entries@.len() == self.pins@.len(),
            forall|i: int|
                0 <= i < msg.entries@.len() ==> (#[trigger] msg.entries@[i]).0@
                    == self.pins@[i].0@ && msg.entries@[i].1 == levels@[i],
    {
        let mut entries: Vec<(String, bool)> = Vec::new();
        let mut k: usize = 0;
        while k < self.pins.len()
            invariant
                k <= self.pins@.len(),
                levels@.len() == self.pins@.len(),
                entries@.len() == k,
                forall|i: int|
                    0 <= i < k ==> (#[trigger] entries@[i]).0@ == self.pins@[i].0@ && entries@[i].1
                        == levels@[i],
            decreases self.pins@.len() - k,
        {
            entries.push((self.pins[k].0.clone(), levels[k]));
            k = k + 1;
        }
        TelemetryMessage { entries }
    }
}

} // verus!
