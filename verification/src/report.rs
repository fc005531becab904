//! Structured error reporting: the classification of an error by its
//! operational domain and by the component it originated from, and the
//! error value that carries them with a message and optional context.

use vstd::prelude::*;

verus! {

/// System component sources where errors can originate.
#[derive(Debug, Clone, Copy, PartialEq, Eq, Hash, Structural)]
pub enum ErrorResource {
    /// Core framework and foundational components.
    Core,
    /// Execution engine and processing components.
    Engine,
    /// Pattern matching and rule processing components.
    Pattern,
    /// Runtime environment and dynamic execution components.
    Runtime,
    /// Gateway and API boundary components.
    Gateway,
}

/// The snake-case name of each error resource.
pub open spec fn spec_resource_name(r: ErrorResource) -> Seq<char> {
    match r {
        ErrorResource::Core => "core"@,
        ErrorResource::Engine => "engine"@,
        ErrorResource::Pattern => "pattern"@,
        ErrorResource::Runtime => "runtime"@,
        ErrorResource::Gateway => "gateway"@,
    }
}

impl ErrorResource {
    /// The snake-case name of the resource.
    pub fn as_ref(&self) -> (r: &'static str)
        ensures
            r@ == spec_resource_name(*self),
    {
        match self {
            ErrorResource::Core => "core",
            ErrorResource::Engine => "engine",
            ErrorResource::Pattern => "pattern",
            ErrorResource::Runtime => "runtime",
            ErrorResource::Gateway => "gateway",
        }
    }

    /// True when the error source is an internal system component.
    pub fn is_internal(&self) -> (r: bool)
        ensures
            r <==> (*self == ErrorResource::Core || *self == ErrorResource::Pattern || *self
                == ErrorResource::Engine),
    {
        matches!(self, ErrorResource::Core | ErrorResource::Pattern | ErrorResource::Engine)
    }

    /// True when the error source is an external or runtime component.
    pub fn is_external(&self) -> (r: bool)
        ensures
            r <==> (*self == ErrorResource::Runtime || *self == ErrorResource::Gateway),
    {
        matches!(self, ErrorResource::Runtime | ErrorResource::Gateway)
    }

    /// The priority level of the error source for logging and alerting;
    /// higher values are more critical components.
    pub fn priority_level(&self) -> (r: u8)
        ensures
            r == match *self {
                ErrorResource::Core => 6u8,
                ErrorResource::Engine => 5u8,
                ErrorResource::Pattern => 4u8,
                ErrorResource::Runtime => 3u8,
                ErrorResource::Gateway => 2u8,
            },
    {
        match self {
            ErrorResource::Core => 6,
            ErrorResource::Engine => 5,
            ErrorResource::Pattern => 4,
            ErrorResource::Runtime => 3,
            ErrorResource::Gateway => 2,
        }
    }
}

/// Classification of error types by their operational domain.
#[derive(Debug, Clone, Copy, PartialEq, Eq, Hash, Structural)]
pub enum ErrorType {
    /// Configuration loading, parsing, or validation failures.
    Config,
    /// Execution-time operational failures.
    Runtime,
    /// Internal system logic or state failures.
    Other,
}

/// The snake-case name of each error type.
pub open spec fn spec_type_name(t: ErrorType) -> Seq<char> {
    match t {
        ErrorType::Config => "config"@,
        ErrorType::Runtime => "runtime"@,
        ErrorType::Other => "other"@,
    }
}

impl ErrorType {
    /// The snake-case name of the type.
    pub fn as_ref(&self) -> (r: &'static str)
        ensures
            r@ == spec_type_name(*self),
    {
        match self {
            ErrorType::Config => "config",
            ErrorType::Runtime => "runtime",
            ErrorType::Other => "other",
        }
    }

    /// True when this error type is typically recoverable.
    pub fn is_recoverable(&self) -> (r: bool)
        ensures
            r <==> *self == ErrorType::Runtime,
    {
        matches!(self, ErrorType::Runtime)
    }
}

/// Structured error with source classification and context tracking.
#[derive(Debug)]
pub struct Error {
    /// Error classification type.
    pub error_type: ErrorType,
    /// Component where the error originated.
    pub error_resource: ErrorResource,
    /// Additional context information.
    pub context: Option<String>,
    /// Primary error message.
    pub message: String,
}

/// The display text of an error: the bracketed classification, the message,
/// and the context when one is set.
pub open spec fn spec_display_message(e: Error) -> Seq<char> {
    let head = "["@ + spec_resource_name(e.error_resource) + ":"@ + spec_type_name(e.error_type)
        + "] "@ + e.message@;
    match e.context {
        Some(c) => head + " (context: "@ + c@ + ")"@,
        None => head,
    }
}

impl Error {
    /// Creates a new error with the given type, source, and message.
    pub fn new(error_type: ErrorType, error_resource: ErrorResource, message: String) -> (r: Error)
        ensures
            r.error_type == error_type,
            r.error_resource == error_resource,
            r.context is None,
            r.message@ == message@,
    {
        Error { error_type, error_resource, context: None, message }
    }

    /// Sets the type of the error.
    pub fn with_type(self, error_type: ErrorType) -> (r: Error)
        ensures
            r.error_type == error_type,
            r.error_resource == self.error_resource,
            r.context == self.context,
            r.message == self.message,
    {
        Error { error_type, ..self }
    }

    /// Sets the source of the error.
    pub fn with_source(self, error_resource: ErrorResource) -> (r: Error)
        ensures
            r.error_type == self.error_type,
            r.error_resource == error_resource,
            r.context == self.context,
            r.message == self.message,
    {
        Error { error_resource, ..self }
    }

    /// Adds context to the error.
    pub fn with_context(self, context: String) -> (r: Error)
        ensures
            r.error_type == self.error_type,
            r.error_resource == self.error_resource,
            r.context matches Some(c) && c@ == context@,
            r.message == self.message,
    {
        Error { context: Some(context), ..self }
    }

    /// The display text of the error, as [`spec_display_message`] describes
    /// it.
    pub fn display_message(&self) -> (r: String)
        ensures
            r@ == spec_display_message(*self),
    {
        let mut s: String = String::from_str("[");
        s.append(self.error_resource.as_ref());
        s.append(":");
        s.append(self.error_type.as_ref());
        s.append("] ");
        s.append(self.message.as_str());
        match &self.context {
            Some(c) => {
                s.append(" (context: ");
                s.append(c.as_str());
                s.append(")");
            },
            None => {},
        }
        s
    }
}

} // verus!
