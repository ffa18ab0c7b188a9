//! The node agent: it runs the workloads of a node, and watches over their containers.

pub mod actioncontroller;
pub mod config;
pub mod desired_state;
pub mod probe;
