//! The state manager: it tracks the states of scenarios, packages and models.

pub mod action_queue;
pub mod actions;
pub mod aggregation;
pub mod clock;
pub mod conditions;
pub mod laws;
pub mod lifecycle_laws;
pub mod manager;
pub mod manager_laws;
pub mod model_state;
pub mod model_state_laws;
pub mod reconcile;
pub mod report_laws;
pub mod scenario_state;
pub mod state_machine;
pub mod transitions;
pub mod types;
pub mod word_laws;
