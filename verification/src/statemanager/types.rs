//! The data that the state manager works on.

use crate::messages::{ErrorCode, ModelState, PackageState, ResourceType};
use crate::string_map::StringMap;
use crate::text::{duplicate_texts, optional, texts};
use vstd::prelude::*;

verus! {

/// The state of a container.
#[derive(Clone, Copy, Debug, PartialEq, Eq, Structural)]
pub enum ContainerState {
    /// No container was made yet, or all were deleted.
    Created,
    /// At least one container runs.
    Running,
    /// At least one container was stopped, and none runs.
    Stopped,
    /// All containers of the pod have ended.
    Exited,
    /// The state of the pod could not be had.
    Dead,
    /// The container is paused.
    Paused,
    /// The state is not known.
    Unknown,
}

/// An action that a transition asks for, to be carried out apart from it.
#[derive(Clone, Debug)]
pub struct ActionCommand {
    pub action: String,
    pub resource_key: String,
    pub resource_type: ResourceType,
    pub transition_id: String,
    pub context: StringMap<String>,
}

/// The contents of an `ActionCommand`.
#[verifier::ext_equal]
pub struct ActionCommandView {
    pub action: Seq<char>,
    pub resource_key: Seq<char>,
    pub resource_type: ResourceType,
    pub transition_id: Seq<char>,
    pub context: Map<Seq<char>, Seq<char>>,
}

impl View for ActionCommand {
    type V = ActionCommandView;

    open spec fn view(&self) -> ActionCommandView {
        ActionCommandView {
            action: self.action@,
            resource_key: self.resource_key@,
            resource_type: self.resource_type,
            transition_id: self.transition_id@,
            context: self.context@,
        }
    }
}

/// One row of a transition table: in the state `from_state`, the event leads to the state
/// `to_state` where the condition holds, and asks for the action.
#[derive(Clone, Debug, PartialEq)]
pub struct StateTransition {
    pub from_state: i32,
    pub event: String,
    pub to_state: i32,
    pub condition: Option<String>,
    pub action: String,
}

/// The contents of a `StateTransition`.
#[verifier::ext_equal]
pub struct TransitionView {
    pub from_state: i32,
    pub event: Seq<char>,
    pub to_state: i32,
    pub condition: Option<Seq<char>>,
    pub action: Seq<char>,
}

impl View for StateTransition {
    type V = TransitionView;

    open spec fn view(&self) -> TransitionView {
        TransitionView {
            from_state: self.from_state,
            event: self.event@,
            to_state: self.to_state,
            condition: optional(self.condition),
            action: self.action@,
        }
    }
}

/// How a resource has fared lately. Times are nanoseconds since the state machine began.
#[derive(Clone, Debug)]
pub struct HealthStatus {
    pub healthy: bool,
    pub status_message: String,
    pub last_check: u128,
    pub consecutive_failures: u32,
}

/// The contents of a `HealthStatus`.
#[verifier::ext_equal]
pub struct HealthView {
    pub healthy: bool,
    pub status_message: Seq<char>,
    pub last_check: u128,
    pub consecutive_failures: nat,
}

impl View for HealthStatus {
    type V = HealthView;

    open spec fn view(&self) -> HealthView {
        HealthView {
            healthy: self.healthy,
            status_message: self.status_message@,
            last_check: self.last_check,
            consecutive_failures: self.consecutive_failures as nat,
        }
    }
}

/// The state of a tracked resource. Times are nanoseconds since the state machine began.
#[derive(Clone, Debug)]
pub struct ResourceState {
    pub resource_type: ResourceType,
    pub resource_name: String,
    pub current_state: i32,
    pub desired_state: Option<i32>,
    pub last_transition_time: u128,
    pub transition_count: u64,
    pub metadata: StringMap<String>,
    pub health_status: HealthStatus,
}

/// The contents of a `ResourceState`.
#[verifier::ext_equal]
pub struct ResourceView {
    pub resource_type: ResourceType,
    pub resource_name: Seq<char>,
    pub current_state: i32,
    pub desired_state: Option<i32>,
    pub last_transition_time: u128,
    pub transition_count: nat,
    pub metadata: Map<Seq<char>, Seq<char>>,
    pub health_status: HealthView,
}

impl View for ResourceState {
    type V = ResourceView;

    open spec fn view(&self) -> ResourceView {
        ResourceView {
            resource_type: self.resource_type,
            resource_name: self.resource_name@,
            current_state: self.current_state,
            desired_state: self.desired_state,
            last_transition_time: self.last_transition_time,
            transition_count: self.transition_count as nat,
            metadata: self.metadata@,
            health_status: self.health_status@,
        }
    }
}

/// What came of a request for a transition.
#[derive(Clone, Debug)]
pub struct TransitionResult {
    pub new_state: i32,
    pub error_code: ErrorCode,
    pub message: String,
    pub actions_to_execute: Vec<String>,
    pub transition_id: String,
    pub error_details: String,
}

/// The contents of a `TransitionResult`.
#[verifier::ext_equal]
pub struct ResultView {
    pub new_state: i32,
    pub error_code: ErrorCode,
    pub message: Seq<char>,
    pub actions_to_execute: Seq<Seq<char>>,
    pub transition_id: Seq<char>,
    pub error_details: Seq<char>,
}

impl View for TransitionResult {
    type V = ResultView;

    open spec fn view(&self) -> ResultView {
        ResultView {
            new_state: self.new_state,
            error_code: self.error_code,
            message: self.message@,
            actions_to_execute: texts(self.actions_to_execute@),
            transition_id: self.transition_id@,
            error_details: self.error_details@,
        }
    }
}

/// What is known of a container.
#[derive(Clone, Debug)]
pub struct ContainerStateInfo {
    pub container_id: String,
    pub container_names: Vec<String>,
    pub image: String,
    pub state: StringMap<String>,
    pub config: StringMap<String>,
    pub annotations: StringMap<String>,
}

/// The contents of a `ContainerStateInfo`.
#[verifier::ext_equal]
pub struct ContainerStateView {
    pub container_id: Seq<char>,
    pub container_names: Seq<Seq<char>>,
    pub image: Seq<char>,
    pub state: Map<Seq<char>, Seq<char>>,
    pub config: Map<Seq<char>, Seq<char>>,
    pub annotations: Map<Seq<char>, Seq<char>>,
}

impl View for ContainerStateInfo {
    type V = ContainerStateView;

    open spec fn view(&self) -> ContainerStateView {
        ContainerStateView {
            container_id: self.container_id@,
            container_names: texts(self.container_names@),
            image: self.image@,
            state: self.state@,
            config: self.config@,
            annotations: self.annotations@,
        }
    }
}

impl ContainerStateInfo {
    /// Another one with the same contents.
    pub fn duplicate(&self) -> (copy: ContainerStateInfo)
        ensures
            copy@ == self@,
    {
        ContainerStateInfo {
            container_id: self.container_id.clone(),
            container_names: duplicate_texts(&self.container_names),
            image: self.image.clone(),
            state: self.state.duplicate(),
            config: self.config.duplicate(),
            annotations: self.annotations.duplicate(),
        }
    }
}

/// What is known of a model. Times are nanoseconds since the state manager began.
#[derive(Clone, Debug)]
pub struct ModelInfo {
    pub model_name: String,
    pub package_name: String,
    pub containers: Vec<ContainerStateInfo>,
    pub current_state: ModelState,
    pub last_update: u128,
}

/// The contents of a `ModelInfo`.
#[verifier::ext_equal]
pub struct ModelView {
    pub model_name: Seq<char>,
    pub package_name: Seq<char>,
    pub containers: Seq<ContainerStateView>,
    pub current_state: ModelState,
    pub last_update: u128,
}

/// The contents of a list of containers.
pub open spec fn container_views(list: Seq<ContainerStateInfo>) -> Seq<ContainerStateView> {
    list.map_values(|container: ContainerStateInfo| container@)
}

impl View for ModelInfo {
    type V = ModelView;

    open spec fn view(&self) -> ModelView {
        ModelView {
            model_name: self.model_name@,
            package_name: self.package_name@,
            containers: container_views(self.containers@),
            current_state: self.current_state,
            last_update: self.last_update,
        }
    }
}

/// What is known of a package. Times are nanoseconds since the state manager began.
#[derive(Clone, Debug)]
pub struct PackageInfo {
    pub package_name: String,
    pub models: StringMap<ModelInfo>,
    pub current_state: PackageState,
    pub last_update: u128,
}

/// The contents of a `PackageInfo`.
#[verifier::ext_equal]
pub struct PackageView {
    pub package_name: Seq<char>,
    pub models: Map<Seq<char>, ModelView>,
    pub current_state: PackageState,
    pub last_update: u128,
}

impl View for PackageInfo {
    type V = PackageView;

    open spec fn view(&self) -> PackageView {
        PackageView {
            package_name: self.package_name@,
            models: self.models@,
            current_state: self.current_state,
            last_update: self.last_update,
        }
    }
}

} // verus!
