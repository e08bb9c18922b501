//! A soft-PLC runtime core: typed I/O terminals, their bit-level mapping onto
//! fieldbus process images, sub-bus discovery and layout, the gateway
//! handshake, and the decisions of the cyclic scan engine.

pub mod bits;
pub mod channel;
pub mod observable;
pub mod digital;
pub mod analog;
pub mod kbus;
pub mod registry;
pub mod discovery;
pub mod gateway;
pub mod logic;
pub mod io_defs;
pub mod scan;
pub mod telemetry;
