//! Bridges a Bluetooth Low Energy heart-rate sensor to OSC avatar parameters.
//!
//! The crate holds the decisions of the bridge as plain functions over plain
//! values: the decoder of the Heart Rate Measurement characteristic, the
//! construction of the OSC bundle that carries a measurement, and the state
//! machines that drive a sensor session, a radio adapter and the set of
//! adapters. Radios, sockets, clocks and timers belong to the caller, which
//! feeds events in and performs the actions that come back.

pub mod gatt;
pub mod measurement;
pub mod osc;
pub mod scanner;
pub mod session;
pub mod settings;
pub mod watcher;
