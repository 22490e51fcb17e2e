//! Addressing and delivery core for a duplex, connection-oriented broadcast
//! primitive: canonical target keys, a per-key fan-out channel registry, a
//! target-aware broadcast session, and the decision machine of the duplex
//! run loop.

pub mod key;
pub mod registry;
pub mod runloop;
pub mod session;
