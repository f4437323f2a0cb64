//! A bridge between digital I/O pins and a publish/subscribe message bus:
//! input pin transitions become outbound telemetry messages, and inbound
//! command messages become output pin writes.
//!
//! This crate holds the bridge's decision logic, verified: raw command value
//! coercion (`data`), configuration validation (`config`), the input poller's
//! delta/snapshot telemetry (`poller`), the output command dispatcher
//! (`actuator`), the bus session's reconnect state machine (`session`), and
//! the telemetry wire format (`json`). The surrounding process — hardware pin
//! access, the bus client, channels and threads — drives these functions and
//! performs the actions they return.

use vstd::prelude::*;

pub mod actuator;
pub mod config;
pub mod data;
pub mod json;
pub mod poller;
pub mod session;
pub mod text;

verus! {

} // verus!
