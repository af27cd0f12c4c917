//! Runtime and console vocabulary: lifecycle states, runtime events and
//! runtime errors, and the sink that events are published to.
use vstd::prelude::*;
use crate::text::concat;

verus! {

/// Lifecycle state of the runtime service.
#[derive(Clone, Copy, Debug, Eq, PartialEq, Structural)]
pub enum LifecycleState {
    /// The runtime is starting.
    Initializing,
    /// The runtime accepts requests.
    Ready,
    /// The runtime is shutting down.
    Stopping,
    /// The runtime has stopped.
    Stopped,
}

/// Display label of a lifecycle state.
pub open spec fn lifecycle_label(s: LifecycleState) -> Seq<char> {
    match s {
        LifecycleState::Initializing => "initializing"@,
        LifecycleState::Ready => "ready"@,
        LifecycleState::Stopping => "stopping"@,
        LifecycleState::Stopped => "stopped"@,
    }
}

impl LifecycleState {
    /// Display label of the state.
    pub fn as_str(self) -> (s: &'static str)
        ensures
            s@ == lifecycle_label(self),
    {
        match self {
            LifecycleState::Initializing => "initializing",
            LifecycleState::Ready => "ready",
            LifecycleState::Stopping => "stopping",
            LifecycleState::Stopped => "stopped",
        }
    }
}

/// Lifecycle status reported by the runtime.
#[derive(Clone, Copy, Debug, Eq, PartialEq)]
pub struct RuntimeStatus {
    /// Current lifecycle state.
    pub state: LifecycleState,
    /// Runtime version.
    pub version: &'static str,
}

/// Event published by the runtime, the console and the governed-operation flows.
#[derive(Clone, Debug, Eq, PartialEq)]
pub enum RuntimeEvent {
    /// The runtime started.
    RuntimeStarted,
    /// The runtime stopped.
    RuntimeStopped,
    /// Configuration was loaded.
    ConfigurationLoaded,
    /// Logging was initialized.
    LoggingInitialized,
    /// The runtime lifecycle changed state.
    StateChanged(LifecycleState),
    /// The runtime or backend went offline.
    Offline,
    /// The user started editing input.
    InputStarted,
    /// The user stopped editing input.
    InputStopped,
    /// A command started.
    CommandStarted(String),
    /// A command completed.
    CommandCompleted(String),
    /// The runtime started thinking.
    ThinkingStarted,
    /// The runtime finished thinking.
    ThinkingFinished,
    /// Streamed output started.
    StreamingStarted,
    /// Streamed output stopped.
    StreamingStopped,
    /// An approval was requested.
    ApprovalRequested,
    /// An approval was granted.
    ApprovalGranted,
    /// A recoverable issue was reported.
    WarningRaised(String),
    /// An error was reported.
    ErrorRaised(String),
    /// A backend was registered.
    BackendRegistered(String),
    /// A backend was enabled.
    BackendEnabled(String),
    /// A backend was disabled.
    BackendDisabled(String),
    /// A backend was initialized.
    BackendInitialized(String),
    /// Model metadata was registered.
    ModelRegistered(String),
    /// A model is loading.
    ModelLoading(String),
    /// A model was loaded.
    ModelLoaded(String),
    /// A model is unloading.
    ModelUnloading(String),
    /// A model was unloaded.
    ModelUnloaded(String),
    /// A tokenizer became ready.
    TokenizerReady(String),
    /// Hardware detection completed.
    HardwareDetected,
    /// Runtime health changed.
    HealthUpdated(String),
    /// An intent changed lifecycle state.
    IntentStateChanged {
        /// Intent whose state changed.
        intent_id: String,
        /// New state label.
        state: String,
    },
    /// A governed operation completed.
    OperationCompleted(String),
    /// An evidence record was written.
    EvidenceRecorded(String),
}

/// Errors reported by the runtime service.
#[derive(Clone, Debug, Eq, PartialEq)]
pub enum RuntimeError {
    /// A lifecycle transition outside the lifecycle graph.
    InvalidLifecycleTransition {
        /// State being exited.
        from: String,
        /// State being entered.
        to: String,
    },
    /// Configuration is invalid.
    InvalidConfiguration(String),
    /// Persistent state could not be read or written.
    Persistence(String),
    /// Model metadata is already registered.
    ModelAlreadyRegistered(String),
    /// Model metadata is unknown.
    ModelNotFound(String),
    /// A model artifact is invalid.
    InvalidModel(String),
    /// A model lifecycle operation failed.
    ModelLifecycle(String),
    /// A backend is already registered.
    BackendAlreadyRegistered(String),
    /// A backend is unknown.
    BackendNotFound(String),
    /// A backend is registered but not enabled.
    BackendNotEnabled(String),
    /// The backend manager cannot be reached.
    BackendManagerUnavailable,
    /// The native backend is not available in this build.
    NativeBackendUnavailable(String),
    /// The native backend reported a failure.
    NativeBackend(String),
    /// The operation is not implemented.
    NotImplemented(String),
}

/// Message of a runtime error.
pub open spec fn runtime_error_text(e: RuntimeError) -> Seq<char> {
    match e {
        RuntimeError::InvalidLifecycleTransition { from, to } => "invalid lifecycle transition: "@ + from@
            + " -> "@ + to@,
        RuntimeError::InvalidConfiguration(v) => "invalid configuration: "@ + v@,
        RuntimeError::Persistence(v) => "persistence failure: "@ + v@,
        RuntimeError::ModelAlreadyRegistered(v) => "model already registered: "@ + v@,
        RuntimeError::ModelNotFound(v) => "model not found: "@ + v@,
        RuntimeError::InvalidModel(v) => "invalid model: "@ + v@,
        RuntimeError::ModelLifecycle(v) => "model lifecycle error: "@ + v@,
        RuntimeError::BackendAlreadyRegistered(v) => "backend already registered: "@ + v@,
        RuntimeError::BackendNotFound(v) => "backend not found: "@ + v@,
        RuntimeError::BackendNotEnabled(v) => "backend not enabled: "@ + v@,
        RuntimeError::BackendManagerUnavailable => "backend manager unavailable"@,
        RuntimeError::NativeBackendUnavailable(v) => "native backend unavailable: "@ + v@,
        RuntimeError::NativeBackend(v) => "native backend error: "@ + v@,
        RuntimeError::NotImplemented(v) => "not implemented: "@ + v@,
    }
}

impl RuntimeError {
    /// The user-facing message of the error.
    pub fn to_text(&self) -> (s: String)
        ensures
            s@ == runtime_error_text(*self),
    {
        match self {
            RuntimeError::InvalidLifecycleTransition { from, to } => {
                let a = concat("invalid lifecycle transition: ", from.as_str());
                let b = concat(a.as_str(), " -> ");
                concat(b.as_str(), to.as_str())
            },
            RuntimeError::InvalidConfiguration(v) => concat("invalid configuration: ", v.as_str()),
            RuntimeError::Persistence(v) => concat("persistence failure: ", v.as_str()),
            RuntimeError::ModelAlreadyRegistered(v) => concat("model already registered: ", v.as_str()),
            RuntimeError::ModelNotFound(v) => concat("model not found: ", v.as_str()),
            RuntimeError::InvalidModel(v) => concat("invalid model: ", v.as_str()),
            RuntimeError::ModelLifecycle(v) => concat("model lifecycle error: ", v.as_str()),
            RuntimeError::BackendAlreadyRegistered(v) => concat("backend already registered: ", v.as_str()),
            RuntimeError::BackendNotFound(v) => concat("backend not found: ", v.as_str()),
            RuntimeError::BackendNotEnabled(v) => concat("backend not enabled: ", v.as_str()),
            RuntimeError::BackendManagerUnavailable => String::from_str("backend manager unavailable"),
            RuntimeError::NativeBackendUnavailable(v) => concat("native backend unavailable: ", v.as_str()),
            RuntimeError::NativeBackend(v) => concat("native backend error: ", v.as_str()),
            RuntimeError::NotImplemented(v) => concat("not implemented: ", v.as_str()),
        }
    }
}

/// Destination of published events.
pub trait EventSink {
    /// Publish one event.
    fn publish(&mut self, event: RuntimeEvent);
}

/// Event sink that keeps every published event, in order.
#[derive(Clone, Debug)]
pub struct EventLog {
    events: Vec<RuntimeEvent>,
}

impl View for EventLog {
    type V = Seq<RuntimeEvent>;

    /// The published events, oldest first.
    closed spec fn view(&self) -> Seq<RuntimeEvent> {
        self.events@
    }
}

impl EventLog {
    /// An empty log.
    pub fn new() -> (r: Self)
        ensures
            r@ == Seq::<RuntimeEvent>::empty(),
    {
        EventLog { events: Vec::new() }
    }

    /// The published events, oldest first.
    pub fn events(&self) -> (r: &[RuntimeEvent])
        ensures
            r@ == self@,
    {
        self.events.as_slice()
    }

    /// Publish, in order, every event of another log.
    pub fn extend(&mut self, other: EventLog)
        ensures
            final(self)@ == old(self)@ + other@,
    {
        let mut more = other.events;
        self.events.append(&mut more);
    }
}

impl EventSink for EventLog {
    /// Keeps the event at the end of the log.
    fn publish(&mut self, event: RuntimeEvent)
        ensures
            final(self)@ == old(self)@.push(event),
    {
        self.events.push(event);
    }
}

} // verus!
