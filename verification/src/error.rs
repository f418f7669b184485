//! The kinds of failure that the daemon tells apart, and the shape in which
//! a failure is shown to a client.

use vstd::prelude::*;
use vstd::string::StringExecFns;

use crate::check::CheckControlConfigError;

verus! {

/// The format of a configuration file.
#[derive(Clone, Copy, Debug, PartialEq, Eq, Structural)]
pub enum ConfigFormat {
    Xml,
    Json,
}

/// What went wrong in an exchange with the embedded controller.
#[derive(Clone, Copy, Debug, PartialEq, Eq, Structural)]
pub enum DeviceFault {
    /// The controller did not become ready within the allowed number of
    /// polls of its status port.
    Timeout,
    /// The device file refused a read or a write.
    Transfer,
}

/// The kinds of failure of the daemon.
#[derive(Clone, Copy, Debug, PartialEq, Eq, Structural)]
pub enum ErrorKind {
    /// The device of the embedded controller cannot be opened.
    DeviceOpen,
    /// A read, a write or a wait failed during an exchange.
    DeviceIo(DeviceFault),
    /// No file holds the configuration asked for.
    ConfigNotFound,
    /// The name of a configuration holds a character that a name may not
    /// hold.
    ConfigInvalidName,
    /// A configuration file cannot be read as its format demands.
    ConfigParse(ConfigFormat),
    /// A configuration breaks one of the rules.
    ConfigValidation(CheckControlConfigError),
    /// No sensor of the processor can be read.
    SensorUnavailable,
    /// The exchange with a client failed.
    IpcError,
    /// A client handed over a value that is not accepted.
    InvalidArgument,
    /// The daemon cannot go on.
    Fatal,
}

/// What the daemon does about a failure.
#[derive(Clone, Copy, Debug, PartialEq, Eq, Structural)]
pub enum Recovery {
    /// Report the failure and leave the fan out for this round.
    SkipFan,
    /// Keep the configuration in use and tell the client that asked for
    /// another.
    KeepConfig,
    /// Try again after a while.
    RetryLater,
    /// Wait until a client names a configuration, then try again.
    WaitForConfig,
    /// Tell the client that its request failed.
    TellClient,
    /// Hand the controller back as well as can be and end.
    ResetAndExit,
}

impl ErrorKind {
    /// What the daemon does about a failure of this kind:
    ///
    /// - a failed exchange with the controller leaves the fan out for the
    ///   round;
    /// - a configuration that cannot be found, read or accepted is turned
    ///   down and the one in use stays;
    /// - sensors that cannot be read are tried again later;
    /// - a device that cannot be opened is tried again once a client names
    ///   a configuration;
    /// - a failure at the client's end is told to the client;
    /// - a fatal failure ends the daemon.
    pub open spec fn recovery_spec(self) -> Recovery {
        match self {
            ErrorKind::DeviceOpen => Recovery::WaitForConfig,
            ErrorKind::DeviceIo(_) => Recovery::SkipFan,
            ErrorKind::ConfigNotFound => Recovery::KeepConfig,
            ErrorKind::ConfigInvalidName => Recovery::KeepConfig,
            ErrorKind::ConfigParse(_) => Recovery::KeepConfig,
            ErrorKind::ConfigValidation(_) => Recovery::KeepConfig,
            ErrorKind::SensorUnavailable => Recovery::RetryLater,
            ErrorKind::IpcError => Recovery::TellClient,
            ErrorKind::InvalidArgument => Recovery::TellClient,
            ErrorKind::Fatal => Recovery::ResetAndExit,
        }
    }

    /// Says what the daemon does about a failure of this kind.
    pub fn recovery(&self) -> (recovery: Recovery)
        ensures
            recovery == self.recovery_spec(),
            (recovery == Recovery::ResetAndExit) == !self.is_recoverable_spec(),
    {
        match self {
            ErrorKind::DeviceOpen => Recovery::WaitForConfig,
            ErrorKind::DeviceIo(_) => Recovery::SkipFan,
            ErrorKind::ConfigNotFound => Recovery::KeepConfig,
            ErrorKind::ConfigInvalidName => Recovery::KeepConfig,
            ErrorKind::ConfigParse(_) => Recovery::KeepConfig,
            ErrorKind::ConfigValidation(_) => Recovery::KeepConfig,
            ErrorKind::SensorUnavailable => Recovery::RetryLater,
            ErrorKind::IpcError => Recovery::TellClient,
            ErrorKind::InvalidArgument => Recovery::TellClient,
            ErrorKind::Fatal => Recovery::ResetAndExit,
        }
    }

    /// Whether the control loop goes on after a failure of this kind. It
    /// stops on `Fatal` alone.
    pub open spec fn is_recoverable_spec(self) -> bool {
        self != ErrorKind::Fatal
    }

    /// Tells whether the control loop goes on after a failure of this kind.
    pub fn is_recoverable(&self) -> (recoverable: bool)
        ensures
            recoverable == self.is_recoverable_spec(),
    {
        match self {
            ErrorKind::Fatal => false,
            _ => true,
        }
    }
}

/// The events by which a graphical client is told of a failure.
#[derive(Clone, Copy, Debug, PartialEq, Eq, Structural)]
pub enum ErrorEvent {
    ConnectionError,
    ProxyError,
    DeserializeError,
}

impl ErrorEvent {
    /// The name of the event: that of the variant in lower case, its words
    /// joined by underscores.
    pub open spec fn name_spec(self) -> Seq<char> {
        match self {
            ErrorEvent::ConnectionError => "connection_error"@,
            ErrorEvent::ProxyError => "proxy_error"@,
            ErrorEvent::DeserializeError => "deserialize_error"@,
        }
    }

    /// Gives the name of the event.
    pub fn as_ref(&self) -> (name: &'static str)
        ensures
            name@ == self.name_spec(),
    {
        match self {
            ErrorEvent::ConnectionError => "connection_error",
            ErrorEvent::ProxyError => "proxy_error",
            ErrorEvent::DeserializeError => "deserialize_error",
        }
    }
}

/// A failure in the shape in which a graphical client receives it.
#[derive(Clone, Debug, PartialEq)]
pub struct JsError {
    pub message: String,
    pub name: String,
    /// Whether the client cannot go on.
    pub critical: bool,
}

impl JsError {
    /// Builds a failure from its message, the name of its kind and its
    /// weight.
    pub fn new(message: &str, name: &str, critical: bool) -> (error: JsError)
        ensures
            error.message@ == message@,
            error.name@ == name@,
            error.critical == critical,
    {
        JsError { message: String::from_str(message), name: String::from_str(name), critical }
    }
}


/// The state of a client's connection to the daemon.
#[derive(Clone, Debug, PartialEq)]
pub enum ProxyState {
    /// No connection was tried yet.
    Uninitialized,
    /// The connection failed, for the reason given.
    Error(String),
    /// The connection stands.
    Initialized,
}

/// The message shown while no connection was tried yet.
pub open spec fn uninitialized_message() -> Seq<char> {
    "connection has not been established yet"@
}

/// The message shown for a connection that failed for `reason`.
pub open spec fn refused_message(reason: Seq<char>) -> Seq<char> {
    "connection to d-bus service has been refused: "@ + reason
}

/// Describes why a client has no connection to the daemon. A connection
/// that was never tried is no grave failure; one that was refused is.
pub fn generate_proxy_err(proxy_state: &ProxyState) -> (error: JsError)
    requires
        *proxy_state != ProxyState::Initialized,
    ensures
        match *proxy_state {
            ProxyState::Uninitialized => error.message@ == uninitialized_message() && error.name@
                == "UninitializedConnection"@ && !error.critical,
            ProxyState::Error(reason) => error.message@ == refused_message(reason@) && error.name@
                == "ConnectionRefused"@ && error.critical,
            ProxyState::Initialized => false,
        },
{
    match proxy_state {
        ProxyState::Uninitialized => JsError::new(
            "connection has not been established yet",
            "UninitializedConnection",
            false,
        ),
        ProxyState::Error(reason) => {
            let mut message = String::from_str("connection to d-bus service has been refused: ");
            message.append(reason.as_str());
            JsError { message, name: String::from_str("ConnectionRefused"), critical: true }
        },
        ProxyState::Initialized => JsError::new("", "", false),
    }
}

} // verus!
