//! Component health and operational state tracking with status reporting.

use vstd::prelude::*;

use crate::report::{Error, ErrorResource, ErrorType};

verus! {

/// Component health status indicating operational wellness and degradation
/// levels.
#[derive(Debug, Clone, Copy, PartialEq, Eq, Hash, Structural)]
pub enum HealthStatus {
    /// Component is fully operational and healthy.
    Online,
    /// Component is operational but experiencing minor issues.
    MinorDegraded,
    /// Component is experiencing significant issues but still functional.
    MajorDegraded,
    /// Component has failed and is not operational.
    Offline,
    /// Component status cannot be determined.
    Unknown,
}

/// The snake-case name of each health status.
pub open spec fn spec_health_name(h: HealthStatus) -> Seq<char> {
    match h {
        HealthStatus::Online => "online"@,
        HealthStatus::MinorDegraded => "minor_degraded"@,
        HealthStatus::MajorDegraded => "major_degraded"@,
        HealthStatus::Offline => "offline"@,
        HealthStatus::Unknown => "unknown"@,
    }
}

impl Default for HealthStatus {
    /// The default health status is `Online`.
    fn default() -> (r: HealthStatus)
        ensures
            r == HealthStatus::Online,
    {
        HealthStatus::Online
    }
}

impl HealthStatus {
    /// The snake-case name of the status.
    pub fn as_ref(&self) -> (r: &'static str)
        ensures
            r@ == spec_health_name(*self),
    {
        match self {
            HealthStatus::Online => "online",
            HealthStatus::MinorDegraded => "minor_degraded",
            HealthStatus::MajorDegraded => "major_degraded",
            HealthStatus::Offline => "offline",
            HealthStatus::Unknown => "unknown",
        }
    }

    /// True when the component is in a critical state requiring immediate
    /// attention.
    pub fn is_critical(&self) -> (r: bool)
        ensures
            r <==> *self == HealthStatus::Offline,
    {
        matches!(self, HealthStatus::Offline)
    }

    /// True when the component is running.
    pub fn is_running(&self) -> (r: bool)
        ensures
            r <==> (*self == HealthStatus::Online || *self == HealthStatus::MinorDegraded || *self
                == HealthStatus::MajorDegraded),
    {
        matches!(
            self,
            HealthStatus::Online | HealthStatus::MinorDegraded | HealthStatus::MajorDegraded
        )
    }

    /// True when the component can perform its primary functions.
    pub fn is_operational(&self) -> (r: bool)
        ensures
            r <==> (*self == HealthStatus::Online || *self == HealthStatus::MinorDegraded),
    {
        matches!(self, HealthStatus::Online | HealthStatus::MinorDegraded)
    }

    /// True when the component is experiencing any level of degradation.
    pub fn is_degraded(&self) -> (r: bool)
        ensures
            r <==> (*self == HealthStatus::MinorDegraded || *self == HealthStatus::MajorDegraded
                || *self == HealthStatus::Offline),
    {
        matches!(
            self,
            HealthStatus::MinorDegraded | HealthStatus::MajorDegraded | HealthStatus::Offline
        )
    }
}

/// Component operational state indicating current execution phase and
/// lifecycle.
#[derive(Debug, Clone, Copy, PartialEq, Eq, Hash, Structural)]
pub enum OperationalState {
    /// Component is initializing and preparing to run.
    Starting,
    /// Component is fully operational and processing requests.
    Running,
    /// Component is gracefully shutting down.
    Stopping,
    /// Component has completed shutdown and is not operational.
    Stopped,
}

/// The snake-case name of each operational state.
pub open spec fn spec_state_name(s: OperationalState) -> Seq<char> {
    match s {
        OperationalState::Starting => "starting"@,
        OperationalState::Running => "running"@,
        OperationalState::Stopping => "stopping"@,
        OperationalState::Stopped => "stopped"@,
    }
}

impl Default for OperationalState {
    /// The default operational state is `Running`.
    fn default() -> (r: OperationalState)
        ensures
            r == OperationalState::Running,
    {
        OperationalState::Running
    }
}

impl OperationalState {
    /// The snake-case name of the state.
    pub fn as_ref(&self) -> (r: &'static str)
        ensures
            r@ == spec_state_name(*self),
    {
        match self {
            OperationalState::Starting => "starting",
            OperationalState::Running => "running",
            OperationalState::Stopping => "stopping",
            OperationalState::Stopped => "stopped",
        }
    }

    /// True when the component can process requests or perform work.
    pub fn is_operational(&self) -> (r: bool)
        ensures
            r <==> (*self == OperationalState::Starting || *self == OperationalState::Running),
    {
        matches!(self, OperationalState::Starting | OperationalState::Running)
    }

    /// True when the component is fully operational and processing
    /// requests.
    pub fn is_running(&self) -> (r: bool)
        ensures
            r <==> *self == OperationalState::Running,
    {
        matches!(self, OperationalState::Running)
    }

    /// True when the component is shut down or in the process of shutting
    /// down.
    pub fn is_stopped(&self) -> (r: bool)
        ensures
            r <==> (*self == OperationalState::Stopping || *self == OperationalState::Stopped),
    {
        matches!(self, OperationalState::Stopping | OperationalState::Stopped)
    }
}

/// Severity level for status updates indicating the urgency and importance
/// of alerts.
#[derive(Debug, Clone, Copy, PartialEq, Eq, Hash, Structural)]
pub enum UpdateSeverity {
    /// Informational updates requiring no immediate action.
    Info,
    /// Warning conditions that may require attention.
    Warning,
    /// Error conditions requiring prompt investigation.
    Error,
    /// Critical conditions requiring immediate response.
    Critical,
}

/// The snake-case name of each severity.
pub open spec fn spec_severity_name(s: UpdateSeverity) -> Seq<char> {
    match s {
        UpdateSeverity::Info => "info"@,
        UpdateSeverity::Warning => "warning"@,
        UpdateSeverity::Error => "error"@,
        UpdateSeverity::Critical => "critical"@,
    }
}

impl Default for UpdateSeverity {
    /// The default severity is `Info`.
    fn default() -> (r: UpdateSeverity)
        ensures
            r == UpdateSeverity::Info,
    {
        UpdateSeverity::Info
    }
}

impl UpdateSeverity {
    /// The snake-case name of the severity.
    pub fn as_ref(&self) -> (r: &'static str)
        ensures
            r@ == spec_severity_name(*self),
    {
        match self {
            UpdateSeverity::Info => "info",
            UpdateSeverity::Warning => "warning",
            UpdateSeverity::Error => "error",
            UpdateSeverity::Critical => "critical",
        }
    }

    /// True when the severity requires immediate attention.
    pub fn is_critical(&self) -> (r: bool)
        ensures
            r <==> *self == UpdateSeverity::Critical,
    {
        matches!(self, UpdateSeverity::Critical)
    }

    /// True when the severity indicates an error condition or worse.
    pub fn is_error_or_higher(&self) -> (r: bool)
        ensures
            r <==> (*self == UpdateSeverity::Error || *self == UpdateSeverity::Critical),
    {
        matches!(self, UpdateSeverity::Error | UpdateSeverity::Critical)
    }

    /// True when the severity indicates a warning condition or worse.
    pub fn is_warning_or_higher(&self) -> (r: bool)
        ensures
            r <==> (*self == UpdateSeverity::Warning || *self == UpdateSeverity::Error || *self
                == UpdateSeverity::Critical),
    {
        matches!(
            self,
            UpdateSeverity::Warning | UpdateSeverity::Error | UpdateSeverity::Critical
        )
    }

    /// The numeric priority level for sorting and comparison; higher values
    /// are higher severities.
    pub fn priority_level(&self) -> (r: u8)
        ensures
            r == match *self {
                UpdateSeverity::Info => 0u8,
                UpdateSeverity::Warning => 1u8,
                UpdateSeverity::Error => 2u8,
                UpdateSeverity::Critical => 3u8,
            },
    {
        match self {
            UpdateSeverity::Info => 0,
            UpdateSeverity::Warning => 1,
            UpdateSeverity::Error => 2,
            UpdateSeverity::Critical => 3,
        }
    }
}

/// The operational state a fresh status derives from its health: running
/// components run, offline ones are stopped, all others are starting.
pub open spec fn spec_state_for_health(h: HealthStatus) -> OperationalState {
    if h == HealthStatus::Online || h == HealthStatus::MinorDegraded || h
        == HealthStatus::MajorDegraded {
        OperationalState::Running
    } else if h == HealthStatus::Offline {
        OperationalState::Stopped
    } else {
        OperationalState::Starting
    }
}

/// The severity a fresh status derives from its health: informational when
/// online, an error for any degradation, a warning otherwise.
pub open spec fn spec_severity_for_health(h: HealthStatus) -> UpdateSeverity {
    if h == HealthStatus::Online {
        UpdateSeverity::Info
    } else if h == HealthStatus::MinorDegraded || h == HealthStatus::MajorDegraded || h
        == HealthStatus::Offline {
        UpdateSeverity::Error
    } else {
        UpdateSeverity::Warning
    }
}

/// Component status tracking health, operational state, and contextual
/// information.
#[derive(Debug, Clone, PartialEq)]
pub struct ComponentStatus {
    /// Current health status of the component.
    pub health_status: HealthStatus,
    /// Current operational state of the component.
    pub operational_state: OperationalState,
    /// Severity level for status updates and alerts.
    pub update_severity: UpdateSeverity,
    /// Descriptive message about the current status.
    pub message: Option<String>,
    /// Additional context or diagnostic details.
    pub context: Option<String>,
    /// Timestamp when this status was recorded, in nanoseconds since the
    /// Unix epoch.
    pub timestamp: Option<i128>,
}

impl Default for ComponentStatus {
    /// The default status: online, running, informational, with nothing
    /// else set.
    fn default() -> (r: ComponentStatus)
        ensures
            r.health_status == HealthStatus::Online,
            r.operational_state == OperationalState::Running,
            r.update_severity == UpdateSeverity::Info,
            r.message is None,
            r.context is None,
            r.timestamp is None,
    {
        ComponentStatus {
            health_status: HealthStatus::Online,
            operational_state: OperationalState::Running,
            update_severity: UpdateSeverity::Info,
            message: None,
            context: None,
            timestamp: None,
        }
    }
}

/// Relies on jiff's `Timestamp::now`: the current time, in nanoseconds
/// since the Unix epoch. Nothing is promised of the value.
#[verifier::external_body]
fn now_nanoseconds() -> i128 {
    jiff::Timestamp::now().as_nanosecond()
}

impl ComponentStatus {
    /// Creates a new component status; the operational state and severity
    /// are derived from the health status.
    pub fn new(health_status: HealthStatus) -> (r: ComponentStatus)
        ensures
            r.health_status == health_status,
            r.operational_state == spec_state_for_health(health_status),
            r.update_severity == spec_severity_for_health(health_status),
            r.message is None,
            r.context is None,
            r.timestamp is None,
    {
        let operational_state: OperationalState = if health_status.is_running() {
            OperationalState::Running
        } else if matches!(health_status, HealthStatus::Offline) {
            OperationalState::Stopped
        } else {
            OperationalState::Starting
        };
        let update_severity: UpdateSeverity = if matches!(health_status, HealthStatus::Online) {
            UpdateSeverity::Info
        } else if health_status.is_degraded() {
            UpdateSeverity::Error
        } else {
            UpdateSeverity::Warning
        };
        ComponentStatus {
            health_status,
            operational_state,
            update_severity,
            message: None,
            context: None,
            timestamp: None,
        }
    }

    /// Sets the health status.
    pub fn with_health_status(self, health_status: HealthStatus) -> (r: ComponentStatus)
        ensures
            r == (ComponentStatus { health_status, ..self }),
    {
        ComponentStatus { health_status, ..self }
    }

    /// Sets the operational state.
    pub fn with_operational_state(self, operational_state: OperationalState) -> (r:
        ComponentStatus)
        ensures
            r == (ComponentStatus { operational_state, ..self }),
    {
        ComponentStatus { operational_state, ..self }
    }

    /// Sets the update severity.
    pub fn with_update_severity(self, update_severity: UpdateSeverity) -> (r: ComponentStatus)
        ensures
            r == (ComponentStatus { update_severity, ..self }),
    {
        ComponentStatus { update_severity, ..self }
    }

    /// Adds a message to the status.
    pub fn with_message(self, message: String) -> (r: ComponentStatus)
        ensures
            r.message matches Some(m) && m@ == message@,
            r.health_status == self.health_status,
            r.operational_state == self.operational_state,
            r.update_severity == self.update_severity,
            r.context == self.context,
            r.timestamp == self.timestamp,
    {
        ComponentStatus { message: Some(message), ..self }
    }

    /// Adds details to the status.
    pub fn with_details(self, context: String) -> (r: ComponentStatus)
        ensures
            r.context matches Some(c) && c@ == context@,
            r.health_status == self.health_status,
            r.operational_state == self.operational_state,
            r.update_severity == self.update_severity,
            r.message == self.message,
            r.timestamp == self.timestamp,
    {
        ComponentStatus { context: Some(context), ..self }
    }

    /// Adds a timestamp to the status.
    pub fn with_timestamp(self, timestamp: i128) -> (r: ComponentStatus)
        ensures
            r == (ComponentStatus { timestamp: Some(timestamp), ..self }),
    {
        ComponentStatus { timestamp: Some(timestamp), ..self }
    }

    /// Adds the current time as the status's timestamp.
    pub fn with_current_timestamp(self) -> (r: ComponentStatus)
        ensures
            r.timestamp is Some,
            r.health_status == self.health_status,
            r.operational_state == self.operational_state,
            r.update_severity == self.update_severity,
            r.message == self.message,
            r.context == self.context,
    {
        let now: i128 = now_nanoseconds();
        ComponentStatus { timestamp: Some(now), ..self }
    }

    /// True when the component is considered operational: both its state
    /// and its health are.
    pub fn is_operational(&self) -> (r: bool)
        ensures
            r <==> ((self.operational_state == OperationalState::Starting
                || self.operational_state == OperationalState::Running) && (self.health_status
                == HealthStatus::Online || self.health_status == HealthStatus::MinorDegraded)),
    {
        self.operational_state.is_operational() && self.health_status.is_operational()
    }

    /// True when the component is considered degraded.
    pub fn is_degraded(&self) -> (r: bool)
        ensures
            r <==> (self.health_status == HealthStatus::MinorDegraded || self.health_status
                == HealthStatus::MajorDegraded || self.health_status == HealthStatus::Offline),
    {
        self.health_status.is_degraded()
    }

    /// True when the component is in a critical state.
    pub fn is_critical(&self) -> (r: bool)
        ensures
            r <==> (self.health_status == HealthStatus::Offline || self.update_severity
                == UpdateSeverity::Critical),
    {
        self.health_status.is_critical() || self.update_severity.is_critical()
    }

    /// True when the component is running.
    pub fn is_running(&self) -> (r: bool)
        ensures
            r <==> self.operational_state == OperationalState::Running,
    {
        self.operational_state.is_running()
    }

    /// True when the component is stopped or stopping.
    pub fn is_stopped(&self) -> (r: bool)
        ensures
            r <==> (self.operational_state == OperationalState::Stopping || self.operational_state
                == OperationalState::Stopped),
    {
        self.operational_state.is_stopped()
    }

    /// Converts the status into a result: nothing when the component is
    /// operational, otherwise an error of the given classification carrying
    /// the status's message (or a fixed one) and its context.
    pub fn into_result(self, error_type: ErrorType, error_resource: ErrorResource) -> (r: Result<
        (),
        Error,
    >)
        ensures
            ({
                let operational = (self.operational_state == OperationalState::Starting
                    || self.operational_state == OperationalState::Running) && (self.health_status
                    == HealthStatus::Online || self.health_status == HealthStatus::MinorDegraded);
                match r {
                    Ok(_) => operational,
                    Err(e) => {
                        &&& !operational
                        &&& e.error_type == error_type
                        &&& e.error_resource == error_resource
                        &&& e.message@ == (match self.message {
                            Some(m) => m@,
                            None => "Component is not operational"@,
                        })
                        &&& (match (e.context, self.context) {
                            (Some(c), Some(c0)) => c@ == c0@,
                            (None, None) => true,
                            _ => false,
                        })
                    },
                }
            }),
    {
        if self.is_operational() {
            return Ok(());
        }
        let message: String = match self.message {
            Some(m) => m,
            None => String::from_str("Component is not operational"),
        };
        let error: Error = Error::new(error_type, error_resource, message);
        match self.context {
            Some(context) => Err(error.with_context(context)),
            None => Err(error),
        }
    }
}

} // verus!
