use vstd::prelude::*;

use crate::text::dec_rep;
use crate::text::u8_to_string;

verus! {

/// Command-line arguments: the path of the configuration file.
#[derive(Debug, Clone)]
pub struct Args {
    pub config: String,
}

/// Pull resistor configuration for an input pin.
#[derive(Debug, Clone, Copy, PartialEq, Eq, Structural)]
pub enum Pull {
    Up,
    Down,
}

/// A configured logic level for an output pin's default state.
#[derive(Debug, Clone, Copy, PartialEq, Eq, Structural)]
pub enum Level {
    Low,
    High,
}

/// One configured input pin: its hardware pin number and optional pull mode.
#[derive(Debug, Clone, Copy, PartialEq, Eq, Structural)]
pub struct GpioInputConfig {
    pub pin: u8,
    pub pull: Option<Pull>,
}

/// One configured output pin: its hardware pin number and optional default
/// level at startup.
#[derive(Debug, Clone, Copy, PartialEq, Eq, Structural)]
pub struct GpioOutputConfig {
    pub pin: u8,
    pub default: Option<Level>,
}

/// One configured I2C device.
#[derive(Debug, Clone)]
pub struct GpioI2CConfig {
    pub bus: u8,
    pub module: Option<String>,
    pub address: Option<u16>,
}

/// Connection parameters for the message bus.
#[derive(Debug, Clone)]
pub struct MqttConfig {
    pub host: String,
    pub port: u16,
    pub username: Option<String>,
    pub password: Option<String>,
    pub client_id: String,
    pub topic: String,
}

/// How telemetry is published.
#[derive(Debug, Clone)]
pub struct PublishConfig {
    pub interval: Option<u64>,
    pub on_change: bool,
}

impl Default for PublishConfig {
    /// No periodic interval; publish on change.
    fn default() -> (r: PublishConfig)
        ensures
            r.interval is None,
            r.on_change,
    {
        PublishConfig { interval: None, on_change: true }
    }
}

/// The validated bridge configuration: bus parameters, publish behaviour, and
/// the named input, output and I2C bindings.
#[derive(Debug, Clone)]
pub struct Config {
    pub mqtt: MqttConfig,
    pub publish: PublishConfig,
    pub inputs: Vec<(String, GpioInputConfig)>,
    pub outputs: Vec<(String, GpioOutputConfig)>,
    pub i2cs: Vec<(String, GpioI2CConfig)>,
}

/// A configuration that cannot be used: a pin number bound more than once.
#[derive(Debug, Clone, Copy, PartialEq, Eq, Structural)]
pub enum ConfigError {
    DuplicatePin(u8),
}

impl ConfigError {
    /// A human-readable description of the error.
    pub fn message(&self) -> (s: String)
        ensures
            (match *self {
                ConfigError::DuplicatePin(p) => s@ == "Duplicate use of pin "@ + dec_rep(
                    p as nat,
                ),
            }),
    {
        match self {
            ConfigError::DuplicatePin(p) => {
                let mut s = String::from_str("Duplicate use of pin ");
                let num = u8_to_string(*p);
                s.append(num.as_str());
                s
            },
        }
    }
}

/// Every hardware pin number the configuration binds, inputs first.
pub open spec fn all_pins(c: Config) -> Seq<u8> {
    c.inputs@.map_values(|e: (String, GpioInputConfig)| e.1.pin) + c.outputs@.map_values(
        |e: (String, GpioOutputConfig)| e.1.pin,
    )
}

/// No pin number occurs twice.
pub open spec fn pins_unique(s: Seq<u8>) -> bool {
    forall|i: int, j: int| 0 <= i < j < s.len() ==> s[i] != s[j]
}

impl Config {
    /// Accept the configuration exactly when no two bindings (input or
    /// output) share a pin number; otherwise report a duplicated pin.
    pub fn validate(self) -> (r: Result<Config, ConfigError>)
        ensures
            r is Ok <==> pins_unique(all_pins(self)),
            r matches Ok(c) ==> c == self,
            r matches Err(e) ==> (match e {
                ConfigError::DuplicatePin(p) => exists|i: int, j: int|
                    0 <= i < j < all_pins(self).len() && #[trigger] all_pins(self)[i]
                        == #[trigger] all_pins(self)[j] == p,
            }),
    {
        let ghost pin_seq = all_pins(self);
        let mut pins: Vec<u8> = Vec::new();
        let mut k: usize = 0;
        while k < self.inputs.len()
            invariant
                k <= self.inputs@.len(),
                pins@ =~= pin_seq.take(k as int),
                pin_seq == all_pins(self),
            decreases self.inputs@.len() - k,
        {
            pins.push(self.inputs[k].1.pin);
            k = k + 1;
            proof {
                assert(pins@ =~= pin_seq.take(k as int));
            }
        }
        let mut m: usize = 0;
        while m < self.outputs.len()
            invariant
                m <= self.outputs@.len(),
                pins@ =~= pin_seq.take(self.inputs@.len() + m),
                pin_seq == all_pins(self),
            decreases self.outputs@.len() - m,
        {
            pins.push(self.outputs[m].1.pin);
            m = m + 1;
            proof {
                assert(pins@ =~= pin_seq.take(self.inputs@.len() + m));
            }
        }
        proof {
            assert(pins@ =~= pin_seq);
        }
        let mut i: usize = 1;
        while i < pins.len()
            invariant
                pins@ == pin_seq,
                pin_seq == all_pins(self),
                i <= pins@.len() || pins@.len() == 0,
                forall|a: int, b: int| 0 <= a < b < i ==> pin_seq[a] != pin_seq[b],
            decreases pins@.len() - i,
        {
            let mut j: usize = 0;
            while j < i
                invariant
                    pins@ == pin_seq,
                    pin_seq == all_pins(self),
                    j <= i < pins@.len(),
                    forall|b: int| 0 <= b < j ==> pin_seq[b] != pin_seq[i as int],
                decreases i - j,
            {
                if pins[j] == pins[i] {
                    proof {
                        assert(all_pins(self)[j as int] == all_pins(self)[i as int]);
                        assert(!pins_unique(all_pins(self)));
                    }
                    return Err(ConfigError::DuplicatePin(pins[i]));
                }
                j = j + 1;
            }
            i = i + 1;
        }
        Ok(self)
    }
}

/// The bus port used when the configuration names none.
pub fn default_mqtt_port() -> (r: u16)
    ensures
        r == 1883,
{
    1883
}

/// The client identifier used when the configuration names none.
pub fn default_client_id() -> (r: String)
    ensures
        r@ == "gpio2mqtt"@,
{
    String::from_str("gpio2mqtt")
}

/// The base topic used when the configuration names none.
pub fn default_topic() -> (r: String)
    ensures
        r@ == "gpio2mqtt"@,
{
    String::from_str("gpio2mqtt")
}

} // verus!
