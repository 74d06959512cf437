//! Value-typing and wire-encoding core for an EPICS-style Channel Access
//! process-variable server.
//!
//! The library models a process variable's current value together with its
//! metadata (status, severity, timestamp, limits, units, precision), performs
//! checked conversions between the supported basic kinds, and serializes the
//! metadata-plus-value into the exact byte layout the wire protocol requires
//! for a given (basic type, richness category) pair.

pub mod bytes;
pub mod casts;
pub mod container;
pub mod dbr;
pub mod encode;
pub mod limits;
pub mod messages;
pub mod records;
pub mod scalar;
pub mod wire;
