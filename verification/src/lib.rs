//! The services that run vehicle applications on a fleet of nodes: the state manager, the
//! node agent and the policy manager.

pub mod grouping;
pub mod k8s;
pub mod messages;
pub mod nodeagent;
pub mod policymanager;
pub mod statemanager;
pub mod string_map;
pub mod text;
pub mod text_laws;
