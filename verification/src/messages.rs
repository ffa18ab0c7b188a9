//! The messages that the services exchange, and the numbers and names that stand for
//! their enumerations on the wire.

use crate::string_map::StringMap;
use crate::text::{str_eq, texts};
use vstd::prelude::*;

verus! {

/// The kinds of managed resources.
#[derive(Clone, Copy, Debug, PartialEq, Eq, Structural)]
pub enum ResourceType {
    Unspecified,
    Scenario,
    Package,
    Model,
    Volume,
    Network,
    Node,
}

impl ResourceType {
    /// The number that stands for the value.
    pub open spec fn number(self) -> i32 {
        match self {
            ResourceType::Unspecified => 0,
            ResourceType::Scenario => 1,
            ResourceType::Package => 2,
            ResourceType::Model => 3,
            ResourceType::Volume => 4,
            ResourceType::Network => 5,
            ResourceType::Node => 6,
        }
    }

    /// The value that a number stands for.
    pub open spec fn numbered(number: i32) -> Option<ResourceType> {
        if number == 0 {
            Some(ResourceType::Unspecified)
        } else if number == 1 {
            Some(ResourceType::Scenario)
        } else if number == 2 {
            Some(ResourceType::Package)
        } else if number == 3 {
            Some(ResourceType::Model)
        } else if number == 4 {
            Some(ResourceType::Volume)
        } else if number == 5 {
            Some(ResourceType::Network)
        } else if number == 6 {
            Some(ResourceType::Node)
        } else {
            None
        }
    }

    /// The number that stands for the value.
    pub fn to_i32(self) -> (number: i32)
        ensures
            number == self.number(),
    {
        match self {
            ResourceType::Unspecified => 0,
            ResourceType::Scenario => 1,
            ResourceType::Package => 2,
            ResourceType::Model => 3,
            ResourceType::Volume => 4,
            ResourceType::Network => 5,
            ResourceType::Node => 6,
        }
    }

    /// The value that a number stands for.
    pub fn from_i32(number: i32) -> (value: Option<ResourceType>)
        ensures
            value == ResourceType::numbered(number),
    {
        if number == 0 {
            Some(ResourceType::Unspecified)
        } else if number == 1 {
            Some(ResourceType::Scenario)
        } else if number == 2 {
            Some(ResourceType::Package)
        } else if number == 3 {
            Some(ResourceType::Model)
        } else if number == 4 {
            Some(ResourceType::Volume)
        } else if number == 5 {
            Some(ResourceType::Network)
        } else if number == 6 {
            Some(ResourceType::Node)
        } else {
            None
        }
    }
}

/// The states of a scenario.
#[derive(Clone, Copy, Debug, PartialEq, Eq, Structural)]
pub enum ScenarioState {
    Unspecified,
    Idle,
    Waiting,
    Allowed,
    Playing,
    Denied,
    Satisfied,
    Completed,
}

impl ScenarioState {
    /// The number that stands for the value.
    pub open spec fn number(self) -> i32 {
        match self {
            ScenarioState::Unspecified => 0,
            ScenarioState::Idle => 1,
            ScenarioState::Waiting => 2,
            ScenarioState::Allowed => 3,
            ScenarioState::Playing => 4,
            ScenarioState::Denied => 5,
            ScenarioState::Satisfied => 6,
            ScenarioState::Completed => 7,
        }
    }

    /// The value that a number stands for.
    pub open spec fn numbered(number: i32) -> Option<ScenarioState> {
        if number == 0 {
            Some(ScenarioState::Unspecified)
        } else if number == 1 {
            Some(ScenarioState::Idle)
        } else if number == 2 {
            Some(ScenarioState::Waiting)
        } else if number == 3 {
            Some(ScenarioState::Allowed)
        } else if number == 4 {
            Some(ScenarioState::Playing)
        } else if number == 5 {
            Some(ScenarioState::Denied)
        } else if number == 6 {
            Some(ScenarioState::Satisfied)
        } else if number == 7 {
            Some(ScenarioState::Completed)
        } else {
            None
        }
    }

    /// The number that stands for the value.
    pub fn to_i32(self) -> (number: i32)
        ensures
            number == self.number(),
    {
        match self {
            ScenarioState::Unspecified => 0,
            ScenarioState::Idle => 1,
            ScenarioState::Waiting => 2,
            ScenarioState::Allowed => 3,
            ScenarioState::Playing => 4,
            ScenarioState::Denied => 5,
            ScenarioState::Satisfied => 6,
            ScenarioState::Completed => 7,
        }
    }

    /// The value that a number stands for.
    pub fn from_i32(number: i32) -> (value: Option<ScenarioState>)
        ensures
            value == ScenarioState::numbered(number),
    {
        if number == 0 {
            Some(ScenarioState::Unspecified)
        } else if number == 1 {
            Some(ScenarioState::Idle)
        } else if number == 2 {
            Some(ScenarioState::Waiting)
        } else if number == 3 {
            Some(ScenarioState::Allowed)
        } else if number == 4 {
            Some(ScenarioState::Playing)
        } else if number == 5 {
            Some(ScenarioState::Denied)
        } else if number == 6 {
            Some(ScenarioState::Satisfied)
        } else if number == 7 {
            Some(ScenarioState::Completed)
        } else {
            None
        }
    }

    /// The name of the value.
    pub open spec fn name(self) -> Seq<char> {
        match self {
            ScenarioState::Unspecified => "SCENARIO_STATE_UNSPECIFIED"@,
            ScenarioState::Idle => "SCENARIO_STATE_IDLE"@,
            ScenarioState::Waiting => "SCENARIO_STATE_WAITING"@,
            ScenarioState::Allowed => "SCENARIO_STATE_ALLOWED"@,
            ScenarioState::Playing => "SCENARIO_STATE_PLAYING"@,
            ScenarioState::Denied => "SCENARIO_STATE_DENIED"@,
            ScenarioState::Satisfied => "SCENARIO_STATE_SATISFIED"@,
            ScenarioState::Completed => "SCENARIO_STATE_COMPLETED"@,
        }
    }

    /// The value with this name.
    pub open spec fn named(name: Seq<char>) -> Option<ScenarioState> {
        if name == ScenarioState::Unspecified.name() {
            Some(ScenarioState::Unspecified)
        } else if name == ScenarioState::Idle.name() {
            Some(ScenarioState::Idle)
        } else if name == ScenarioState::Waiting.name() {
            Some(ScenarioState::Waiting)
        } else if name == ScenarioState::Allowed.name() {
            Some(ScenarioState::Allowed)
        } else if name == ScenarioState::Playing.name() {
            Some(ScenarioState::Playing)
        } else if name == ScenarioState::Denied.name() {
            Some(ScenarioState::Denied)
        } else if name == ScenarioState::Satisfied.name() {
            Some(ScenarioState::Satisfied)
        } else if name == ScenarioState::Completed.name() {
            Some(ScenarioState::Completed)
        } else {
            None
        }
    }

    /// The name of the value.
    pub fn as_str_name(&self) -> (name: &'static str)
        ensures
            name@ == self.name(),
    {
        match self {
            ScenarioState::Unspecified => "SCENARIO_STATE_UNSPECIFIED",
            ScenarioState::Idle => "SCENARIO_STATE_IDLE",
            ScenarioState::Waiting => "SCENARIO_STATE_WAITING",
            ScenarioState::Allowed => "SCENARIO_STATE_ALLOWED",
            ScenarioState::Playing => "SCENARIO_STATE_PLAYING",
            ScenarioState::Denied => "SCENARIO_STATE_DENIED",
            ScenarioState::Satisfied => "SCENARIO_STATE_SATISFIED",
            ScenarioState::Completed => "SCENARIO_STATE_COMPLETED",
        }
    }

    /// The value with this name.
    pub fn from_str_name(name: &str) -> (value: Option<ScenarioState>)
        ensures
            value == ScenarioState::named(name@),
    {
        if str_eq(name, "SCENARIO_STATE_UNSPECIFIED") {
            Some(ScenarioState::Unspecified)
        } else if str_eq(name, "SCENARIO_STATE_IDLE") {
            Some(ScenarioState::Idle)
        } else if str_eq(name, "SCENARIO_STATE_WAITING") {
            Some(ScenarioState::Waiting)
        } else if str_eq(name, "SCENARIO_STATE_ALLOWED") {
            Some(ScenarioState::Allowed)
        } else if str_eq(name, "SCENARIO_STATE_PLAYING") {
            Some(ScenarioState::Playing)
        } else if str_eq(name, "SCENARIO_STATE_DENIED") {
            Some(ScenarioState::Denied)
        } else if str_eq(name, "SCENARIO_STATE_SATISFIED") {
            Some(ScenarioState::Satisfied)
        } else if str_eq(name, "SCENARIO_STATE_COMPLETED") {
            Some(ScenarioState::Completed)
        } else {
            None
        }
    }
}

/// The states of a package.
#[derive(Clone, Copy, Debug, PartialEq, Eq, Structural)]
pub enum PackageState {
    Unspecified,
    Initializing,
    Running,
    Degraded,
    Error,
    Paused,
    Updating,
    Exited,
}

impl PackageState {
    /// The number that stands for the value.
    pub open spec fn number(self) -> i32 {
        match self {
            PackageState::Unspecified => 0,
            PackageState::Initializing => 1,
            PackageState::Running => 2,
            PackageState::Degraded => 3,
            PackageState::Error => 4,
            PackageState::Paused => 5,
            PackageState::Updating => 6,
            PackageState::Exited => 7,
        }
    }

    /// The value that a number stands for.
    pub open spec fn numbered(number: i32) -> Option<PackageState> {
        if number == 0 {
            Some(PackageState::Unspecified)
        } else if number == 1 {
            Some(PackageState::Initializing)
        } else if number == 2 {
            Some(PackageState::Running)
        } else if number == 3 {
            Some(PackageState::Degraded)
        } else if number == 4 {
            Some(PackageState::Error)
        } else if number == 5 {
            Some(PackageState::Paused)
        } else if number == 6 {
            Some(PackageState::Updating)
        } else if number == 7 {
            Some(PackageState::Exited)
        } else {
            None
        }
    }

    /// The number that stands for the value.
    pub fn to_i32(self) -> (number: i32)
        ensures
            number == self.number(),
    {
        match self {
            PackageState::Unspecified => 0,
            PackageState::Initializing => 1,
            PackageState::Running => 2,
            PackageState::Degraded => 3,
            PackageState::Error => 4,
            PackageState::Paused => 5,
            PackageState::Updating => 6,
            PackageState::Exited => 7,
        }
    }

    /// The value that a number stands for.
    pub fn from_i32(number: i32) -> (value: Option<PackageState>)
        ensures
            value == PackageState::numbered(number),
    {
        if number == 0 {
            Some(PackageState::Unspecified)
        } else if number == 1 {
            Some(PackageState::Initializing)
        } else if number == 2 {
            Some(PackageState::Running)
        } else if number == 3 {
            Some(PackageState::Degraded)
        } else if number == 4 {
            Some(PackageState::Error)
        } else if number == 5 {
            Some(PackageState::Paused)
        } else if number == 6 {
            Some(PackageState::Updating)
        } else if number == 7 {
            Some(PackageState::Exited)
        } else {
            None
        }
    }

    /// The name of the value.
    pub open spec fn name(self) -> Seq<char> {
        match self {
            PackageState::Unspecified => "PACKAGE_STATE_UNSPECIFIED"@,
            PackageState::Initializing => "PACKAGE_STATE_INITIALIZING"@,
            PackageState::Running => "PACKAGE_STATE_RUNNING"@,
            PackageState::Degraded => "PACKAGE_STATE_DEGRADED"@,
            PackageState::Error => "PACKAGE_STATE_ERROR"@,
            PackageState::Paused => "PACKAGE_STATE_PAUSED"@,
            PackageState::Updating => "PACKAGE_STATE_UPDATING"@,
            PackageState::Exited => "PACKAGE_STATE_EXITED"@,
        }
    }

    /// The value with this name.
    pub open spec fn named(name: Seq<char>) -> Option<PackageState> {
        if name == PackageState::Unspecified.name() {
            Some(PackageState::Unspecified)
        } else if name == PackageState::Initializing.name() {
            Some(PackageState::Initializing)
        } else if name == PackageState::Running.name() {
            Some(PackageState::Running)
        } else if name == PackageState::Degraded.name() {
            Some(PackageState::Degraded)
        } else if name == PackageState::Error.name() {
            Some(PackageState::Error)
        } else if name == PackageState::Paused.name() {
            Some(PackageState::Paused)
        } else if name == PackageState::Updating.name() {
            Some(PackageState::Updating)
        } else if name == PackageState::Exited.name() {
            Some(PackageState::Exited)
        } else {
            None
        }
    }

    /// The name of the value.
    pub fn as_str_name(&self) -> (name: &'static str)
        ensures
            name@ == self.name(),
    {
        match self {
            PackageState::Unspecified => "PACKAGE_STATE_UNSPECIFIED",
            PackageState::Initializing => "PACKAGE_STATE_INITIALIZING",
            PackageState::Running => "PACKAGE_STATE_RUNNING",
            PackageState::Degraded => "PACKAGE_STATE_DEGRADED",
            PackageState::Error => "PACKAGE_STATE_ERROR",
            PackageState::Paused => "PACKAGE_STATE_PAUSED",
            PackageState::Updating => "PACKAGE_STATE_UPDATING",
            PackageState::Exited => "PACKAGE_STATE_EXITED",
        }
    }

    /// The value with this name.
    pub fn from_str_name(name: &str) -> (value: Option<PackageState>)
        ensures
            value == PackageState::named(name@),
    {
        if str_eq(name, "PACKAGE_STATE_UNSPECIFIED") {
            Some(PackageState::Unspecified)
        } else if str_eq(name, "PACKAGE_STATE_INITIALIZING") {
            Some(PackageState::Initializing)
        } else if str_eq(name, "PACKAGE_STATE_RUNNING") {
            Some(PackageState::Running)
        } else if str_eq(name, "PACKAGE_STATE_DEGRADED") {
            Some(PackageState::Degraded)
        } else if str_eq(name, "PACKAGE_STATE_ERROR") {
            Some(PackageState::Error)
        } else if str_eq(name, "PACKAGE_STATE_PAUSED") {
            Some(PackageState::Paused)
        } else if str_eq(name, "PACKAGE_STATE_UPDATING") {
            Some(PackageState::Updating)
        } else if str_eq(name, "PACKAGE_STATE_EXITED") {
            Some(PackageState::Exited)
        } else {
            None
        }
    }
}

/// The states of a model.
#[derive(Clone, Copy, Debug, PartialEq, Eq, Structural)]
pub enum ModelState {
    Unspecified,
    Pending,
    ContainerCreating,
    Running,
    Succeeded,
    Failed,
    Unknown,
    CrashLoopBackOff,
}

impl ModelState {
    /// The number that stands for the value.
    pub open spec fn number(self) -> i32 {
        match self {
            ModelState::Unspecified => 0,
            ModelState::Pending => 1,
            ModelState::ContainerCreating => 2,
            ModelState::Running => 3,
            ModelState::Succeeded => 4,
            ModelState::Failed => 5,
            ModelState::Unknown => 6,
            ModelState::CrashLoopBackOff => 7,
        }
    }

    /// The value that a number stands for.
    pub open spec fn numbered(number: i32) -> Option<ModelState> {
        if number == 0 {
            Some(ModelState::Unspecified)
        } else if number == 1 {
            Some(ModelState::Pending)
        } else if number == 2 {
            Some(ModelState::ContainerCreating)
        } else if number == 3 {
            Some(ModelState::Running)
        } else if number == 4 {
            Some(ModelState::Succeeded)
        } else if number == 5 {
            Some(ModelState::Failed)
        } else if number == 6 {
            Some(ModelState::Unknown)
        } else if number == 7 {
            Some(ModelState::CrashLoopBackOff)
        } else {
            None
        }
    }

    /// The number that stands for the value.
    pub fn to_i32(self) -> (number: i32)
        ensures
            number == self.number(),
    {
        match self {
            ModelState::Unspecified => 0,
            ModelState::Pending => 1,
            ModelState::ContainerCreating => 2,
            ModelState::Running => 3,
            ModelState::Succeeded => 4,
            ModelState::Failed => 5,
            ModelState::Unknown => 6,
            ModelState::CrashLoopBackOff => 7,
        }
    }

    /// The value that a number stands for.
    pub fn from_i32(number: i32) -> (value: Option<ModelState>)
        ensures
            value == ModelState::numbered(number),
    {
        if number == 0 {
            Some(ModelState::Unspecified)
        } else if number == 1 {
            Some(ModelState::Pending)
        } else if number == 2 {
            Some(ModelState::ContainerCreating)
        } else if number == 3 {
            Some(ModelState::Running)
        } else if number == 4 {
            Some(ModelState::Succeeded)
        } else if number == 5 {
            Some(ModelState::Failed)
        } else if number == 6 {
            Some(ModelState::Unknown)
        } else if number == 7 {
            Some(ModelState::CrashLoopBackOff)
        } else {
            None
        }
    }

    /// The name of the value.
    pub open spec fn name(self) -> Seq<char> {
        match self {
            ModelState::Unspecified => "MODEL_STATE_UNSPECIFIED"@,
            ModelState::Pending => "MODEL_STATE_PENDING"@,
            ModelState::ContainerCreating => "MODEL_STATE_CONTAINER_CREATING"@,
            ModelState::Running => "MODEL_STATE_RUNNING"@,
            ModelState::Succeeded => "MODEL_STATE_SUCCEEDED"@,
            ModelState::Failed => "MODEL_STATE_FAILED"@,
            ModelState::Unknown => "MODEL_STATE_UNKNOWN"@,
            ModelState::CrashLoopBackOff => "MODEL_STATE_CRASH_LOOP_BACK_OFF"@,
        }
    }

    /// The value with this name.
    pub open spec fn named(name: Seq<char>) -> Option<ModelState> {
        if name == ModelState::Unspecified.name() {
            Some(ModelState::Unspecified)
        } else if name == ModelState::Pending.name() {
            Some(ModelState::Pending)
        } else if name == ModelState::ContainerCreating.name() {
            Some(ModelState::ContainerCreating)
        } else if name == ModelState::Running.name() {
            Some(ModelState::Running)
        } else if name == ModelState::Succeeded.name() {
            Some(ModelState::Succeeded)
        } else if name == ModelState::Failed.name() {
            Some(ModelState::Failed)
        } else if name == ModelState::Unknown.name() {
            Some(ModelState::Unknown)
        } else if name == ModelState::CrashLoopBackOff.name() {
            Some(ModelState::CrashLoopBackOff)
        } else {
            None
        }
    }

    /// The name of the value.
    pub fn as_str_name(&self) -> (name: &'static str)
        ensures
            name@ == self.name(),
    {
        match self {
            ModelState::Unspecified => "MODEL_STATE_UNSPECIFIED",
            ModelState::Pending => "MODEL_STATE_PENDING",
            ModelState::ContainerCreating => "MODEL_STATE_CONTAINER_CREATING",
            ModelState::Running => "MODEL_STATE_RUNNING",
            ModelState::Succeeded => "MODEL_STATE_SUCCEEDED",
            ModelState::Failed => "MODEL_STATE_FAILED",
            ModelState::Unknown => "MODEL_STATE_UNKNOWN",
            ModelState::CrashLoopBackOff => "MODEL_STATE_CRASH_LOOP_BACK_OFF",
        }
    }

    /// The value with this name.
    pub fn from_str_name(name: &str) -> (value: Option<ModelState>)
        ensures
            value == ModelState::named(name@),
    {
        if str_eq(name, "MODEL_STATE_UNSPECIFIED") {
            Some(ModelState::Unspecified)
        } else if str_eq(name, "MODEL_STATE_PENDING") {
            Some(ModelState::Pending)
        } else if str_eq(name, "MODEL_STATE_CONTAINER_CREATING") {
            Some(ModelState::ContainerCreating)
        } else if str_eq(name, "MODEL_STATE_RUNNING") {
            Some(ModelState::Running)
        } else if str_eq(name, "MODEL_STATE_SUCCEEDED") {
            Some(ModelState::Succeeded)
        } else if str_eq(name, "MODEL_STATE_FAILED") {
            Some(ModelState::Failed)
        } else if str_eq(name, "MODEL_STATE_UNKNOWN") {
            Some(ModelState::Unknown)
        } else if str_eq(name, "MODEL_STATE_CRASH_LOOP_BACK_OFF") {
            Some(ModelState::CrashLoopBackOff)
        } else {
            None
        }
    }
}

/// What a request can be answered with.
#[derive(Clone, Copy, Debug, PartialEq, Eq, Structural)]
pub enum ErrorCode {
    Success,
    InvalidRequest,
    ResourceNotFound,
    InvalidStateTransition,
    PreconditionFailed,
}

impl ErrorCode {
    /// The number that stands for the value.
    pub open spec fn number(self) -> i32 {
        match self {
            ErrorCode::Success => 0,
            ErrorCode::InvalidRequest => 1,
            ErrorCode::ResourceNotFound => 2,
            ErrorCode::InvalidStateTransition => 3,
            ErrorCode::PreconditionFailed => 4,
        }
    }

    /// The value that a number stands for.
    pub open spec fn numbered(number: i32) -> Option<ErrorCode> {
        if number == 0 {
            Some(ErrorCode::Success)
        } else if number == 1 {
            Some(ErrorCode::InvalidRequest)
        } else if number == 2 {
            Some(ErrorCode::ResourceNotFound)
        } else if number == 3 {
            Some(ErrorCode::InvalidStateTransition)
        } else if number == 4 {
            Some(ErrorCode::PreconditionFailed)
        } else {
            None
        }
    }

    /// The number that stands for the value.
    pub fn to_i32(self) -> (number: i32)
        ensures
            number == self.number(),
    {
        match self {
            ErrorCode::Success => 0,
            ErrorCode::InvalidRequest => 1,
            ErrorCode::ResourceNotFound => 2,
            ErrorCode::InvalidStateTransition => 3,
            ErrorCode::PreconditionFailed => 4,
        }
    }

    /// The value that a number stands for.
    pub fn from_i32(number: i32) -> (value: Option<ErrorCode>)
        ensures
            value == ErrorCode::numbered(number),
    {
        if number == 0 {
            Some(ErrorCode::Success)
        } else if number == 1 {
            Some(ErrorCode::InvalidRequest)
        } else if number == 2 {
            Some(ErrorCode::ResourceNotFound)
        } else if number == 3 {
            Some(ErrorCode::InvalidStateTransition)
        } else if number == 4 {
            Some(ErrorCode::PreconditionFailed)
        } else {
            None
        }
    }
}

/// A request to bring a resource from one state to another.
#[derive(Clone, Debug)]
pub struct StateChange {
    /// The number of the resource's type.
    pub resource_type: i32,
    pub resource_name: String,
    pub current_state: String,
    pub target_state: String,
    pub transition_id: String,
    pub timestamp_ns: i64,
    /// The component that asks for the change.
    pub source: String,
}

/// The contents of a `StateChange`.
#[verifier::ext_equal]
pub struct StateChangeView {
    pub resource_type: i32,
    pub resource_name: Seq<char>,
    pub current_state: Seq<char>,
    pub target_state: Seq<char>,
    pub transition_id: Seq<char>,
    pub timestamp_ns: i64,
    pub source: Seq<char>,
}

impl View for StateChange {
    type V = StateChangeView;

    open spec fn view(&self) -> StateChangeView {
        StateChangeView {
            resource_type: self.resource_type,
            resource_name: self.resource_name@,
            current_state: self.current_state@,
            target_state: self.target_state@,
            transition_id: self.transition_id@,
            timestamp_ns: self.timestamp_ns,
            source: self.source@,
        }
    }
}

/// The answer to a `StateChange`.
#[derive(Clone, Debug)]
pub struct StateChangeResponse {
    pub message: String,
    pub transition_id: String,
    pub timestamp_ns: i64,
    /// The number of the error code.
    pub error_code: i32,
    pub error_details: String,
}

/// The contents of a `StateChangeResponse`.
#[verifier::ext_equal]
pub struct StateChangeResponseView {
    pub message: Seq<char>,
    pub transition_id: Seq<char>,
    pub timestamp_ns: i64,
    pub error_code: i32,
    pub error_details: Seq<char>,
}

impl View for StateChangeResponse {
    type V = StateChangeResponseView;

    open spec fn view(&self) -> StateChangeResponseView {
        StateChangeResponseView {
            message: self.message@,
            transition_id: self.transition_id@,
            timestamp_ns: self.timestamp_ns,
            error_code: self.error_code,
            error_details: self.error_details@,
        }
    }
}

/// What a node reports of one of its containers.
#[derive(Clone, Debug)]
pub struct ContainerInfo {
    pub id: String,
    pub names: Vec<String>,
    pub image: String,
    pub state: StringMap<String>,
    pub config: StringMap<String>,
    pub annotation: StringMap<String>,
    pub stats: StringMap<String>,
}

/// The contents of a `ContainerInfo`. The entries of `state` have an order.
#[verifier::ext_equal]
pub struct ContainerView {
    pub id: Seq<char>,
    pub names: Seq<Seq<char>>,
    pub image: Seq<char>,
    pub state: Seq<(Seq<char>, Seq<char>)>,
    pub config: Map<Seq<char>, Seq<char>>,
    pub annotation: Map<Seq<char>, Seq<char>>,
    pub stats: Map<Seq<char>, Seq<char>>,
}

impl View for ContainerInfo {
    type V = ContainerView;

    open spec fn view(&self) -> ContainerView {
        ContainerView {
            id: self.id@,
            names: texts(self.names@),
            image: self.image@,
            state: self.state.entries(),
            config: self.config@,
            annotation: self.annotation@,
            stats: self.stats@,
        }
    }
}

/// What a node reports of its containers.
#[derive(Clone, Debug)]
pub struct ContainerList {
    pub node_name: String,
    pub containers: Vec<ContainerInfo>,
}

/// The contents of the containers of a list.
pub open spec fn reported(containers: Seq<ContainerInfo>) -> Seq<ContainerView> {
    containers.map_values(|container: ContainerInfo| container@)
}

// ---------------------------------------------------------------------------
// Numbers and names stand for one value each
// ---------------------------------------------------------------------------

/// A number stands for a value exactly when it is the number of that value.
pub proof fn law_resource_type_numbers(value: ResourceType, number: i32)
    ensures
        ResourceType::numbered(number) == Some(value) <==> number == value.number(),
{
}

/// A number stands for a value exactly when it is the number of that value.
pub proof fn law_error_code_numbers(value: ErrorCode, number: i32)
    ensures
        ErrorCode::numbered(number) == Some(value) <==> number == value.number(),
{
}

/// A number stands for a value exactly when it is the number of that value.
pub proof fn law_scenario_state_numbers(value: ScenarioState, number: i32)
    ensures
        ScenarioState::numbered(number) == Some(value) <==> number == value.number(),
{
}

/// A name stands for a value exactly when it is the name of that value.
pub proof fn law_scenario_state_names(value: ScenarioState, name: Seq<char>)
    ensures
        ScenarioState::named(name) == Some(value) <==> name == value.name(),
{
    reveal_strlit("SCENARIO_STATE_UNSPECIFIED");
    reveal_strlit("SCENARIO_STATE_IDLE");
    reveal_strlit("SCENARIO_STATE_WAITING");
    reveal_strlit("SCENARIO_STATE_ALLOWED");
    reveal_strlit("SCENARIO_STATE_PLAYING");
    reveal_strlit("SCENARIO_STATE_DENIED");
    reveal_strlit("SCENARIO_STATE_SATISFIED");
    reveal_strlit("SCENARIO_STATE_COMPLETED");
    assert("SCENARIO_STATE_UNSPECIFIED"@.len() == 26);
    assert("SCENARIO_STATE_IDLE"@.len() == 19);
    assert("SCENARIO_STATE_WAITING"@.len() == 22);
    assert("SCENARIO_STATE_ALLOWED"@.len() == 22);
    assert("SCENARIO_STATE_PLAYING"@.len() == 22);
    assert("SCENARIO_STATE_DENIED"@.len() == 21);
    assert("SCENARIO_STATE_SATISFIED"@.len() == 24);
    assert("SCENARIO_STATE_COMPLETED"@.len() == 24);
    assert("SCENARIO_STATE_WAITING"@[15] == 'W');
    assert("SCENARIO_STATE_ALLOWED"@[15] == 'A');
    assert("SCENARIO_STATE_PLAYING"@[15] == 'P');
    assert("SCENARIO_STATE_SATISFIED"@[15] == 'S');
    assert("SCENARIO_STATE_COMPLETED"@[15] == 'C');
}

/// A number stands for a value exactly when it is the number of that value.
pub proof fn law_package_state_numbers(value: PackageState, number: i32)
    ensures
        PackageState::numbered(number) == Some(value) <==> number == value.number(),
{
}

/// A name stands for a value exactly when it is the name of that value.
pub proof fn law_package_state_names(value: PackageState, name: Seq<char>)
    ensures
        PackageState::named(name) == Some(value) <==> name == value.name(),
{
    reveal_strlit("PACKAGE_STATE_UNSPECIFIED");
    reveal_strlit("PACKAGE_STATE_INITIALIZING");
    reveal_strlit("PACKAGE_STATE_RUNNING");
    reveal_strlit("PACKAGE_STATE_DEGRADED");
    reveal_strlit("PACKAGE_STATE_ERROR");
    reveal_strlit("PACKAGE_STATE_PAUSED");
    reveal_strlit("PACKAGE_STATE_UPDATING");
    reveal_strlit("PACKAGE_STATE_EXITED");
    assert("PACKAGE_STATE_UNSPECIFIED"@.len() == 25);
    assert("PACKAGE_STATE_INITIALIZING"@.len() == 26);
    assert("PACKAGE_STATE_RUNNING"@.len() == 21);
    assert("PACKAGE_STATE_DEGRADED"@.len() == 22);
    assert("PACKAGE_STATE_ERROR"@.len() == 19);
    assert("PACKAGE_STATE_PAUSED"@.len() == 20);
    assert("PACKAGE_STATE_UPDATING"@.len() == 22);
    assert("PACKAGE_STATE_EXITED"@.len() == 20);
    assert("PACKAGE_STATE_DEGRADED"@[14] == 'D');
    assert("PACKAGE_STATE_UPDATING"@[14] == 'U');
    assert("PACKAGE_STATE_PAUSED"@[14] == 'P');
    assert("PACKAGE_STATE_EXITED"@[14] == 'E');
}

/// A number stands for a value exactly when it is the number of that value.
pub proof fn law_model_state_numbers(value: ModelState, number: i32)
    ensures
        ModelState::numbered(number) == Some(value) <==> number == value.number(),
{
}

/// A name stands for a value exactly when it is the name of that value.
pub proof fn law_model_state_names(value: ModelState, name: Seq<char>)
    ensures
        ModelState::named(name) == Some(value) <==> name == value.name(),
{
    reveal_strlit("MODEL_STATE_UNSPECIFIED");
    reveal_strlit("MODEL_STATE_PENDING");
    reveal_strlit("MODEL_STATE_CONTAINER_CREATING");
    reveal_strlit("MODEL_STATE_RUNNING");
    reveal_strlit("MODEL_STATE_SUCCEEDED");
    reveal_strlit("MODEL_STATE_FAILED");
    reveal_strlit("MODEL_STATE_UNKNOWN");
    reveal_strlit("MODEL_STATE_CRASH_LOOP_BACK_OFF");
    assert("MODEL_STATE_UNSPECIFIED"@.len() == 23);
    assert("MODEL_STATE_PENDING"@.len() == 19);
    assert("MODEL_STATE_CONTAINER_CREATING"@.len() == 30);
    assert("MODEL_STATE_RUNNING"@.len() == 19);
    assert("MODEL_STATE_SUCCEEDED"@.len() == 21);
    assert("MODEL_STATE_FAILED"@.len() == 18);
    assert("MODEL_STATE_UNKNOWN"@.len() == 19);
    assert("MODEL_STATE_CRASH_LOOP_BACK_OFF"@.len() == 31);
    assert("MODEL_STATE_PENDING"@[12] == 'P');
    assert("MODEL_STATE_RUNNING"@[12] == 'R');
    assert("MODEL_STATE_UNKNOWN"@[12] == 'U');
}

} // verus!
