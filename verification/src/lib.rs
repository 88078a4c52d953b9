//! Verified core of an ambient-light brightness controller: brightness
//! transitions, light rules, the device wire protocol, monitor brightness
//! ranges, settings validation and the framing used between processes.

pub mod float_bits;
pub mod text;
pub mod control;
pub mod json;
pub mod protocol;
pub mod store;
pub mod device;
pub mod monitor;
pub mod ipc;
pub mod legacy;
pub mod dashboard;
pub mod agent;
pub mod console;
pub mod simulator;
pub mod environment;
pub mod link;
pub mod monitors;
pub mod runtime;
pub mod migrate;
pub mod diagnostics;
pub mod calendar;
pub mod legacy_rules;
pub mod lifecycle;
