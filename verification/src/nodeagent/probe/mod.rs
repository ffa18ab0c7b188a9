//! Liveness probes: they tell whether a container still works, so that one that does not can
//! be stopped.

pub mod calendar;
pub mod checker;
pub mod liveness;
pub mod pass;
pub mod pass_laws;
pub mod probe_laws;
