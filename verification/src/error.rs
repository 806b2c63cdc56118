//! The error taxonomy shared by every operation of the library.

use vstd::prelude::*;
use crate::error_codes;

verus! {

/// Everything that can go wrong while supervising protocol servers.
///
/// Each variant carries a human-readable detail; the variant itself is the
/// part callers are expected to branch on.
#[derive(Debug, Clone, PartialEq, Eq)]
pub enum Error {
    /// The protocol client reported a failure of its own.
    McpError(String),
    /// Spawning the worker, or building its transport, failed.
    ProcessStartError(String),
    /// The root process of a stop operation could not be killed.
    ProcessStopError(String),
    /// The handshake or the tool discovery call failed.
    CommunicationError(String),
    /// No server with the given id is registered in the manager.
    ServerNotFound(String),
    /// The server's cached catalog holds no tool of the given name.
    ToolNotFound(String),
    /// Malformed input, a result that cannot be serialised, or a failed call.
    ToolExecutionError(String),
    /// No manager with the given id is registered in the workspace.
    ManagerNotFound(String),
    /// The manager has been shut down and accepts no further operations.
    ManagerShutdown(String),
    /// A server with the given id is already registered in the manager.
    DuplicateServer(String),
    /// Anything else.
    Other(String),
}

/// The variant of an [`Error`], without its detail.
#[derive(Debug, Clone, Copy, PartialEq, Eq, Structural)]
pub enum ErrorKind {
    McpError,
    ProcessStartError,
    ProcessStopError,
    CommunicationError,
    ServerNotFound,
    ToolNotFound,
    ToolExecutionError,
    ManagerNotFound,
    ManagerShutdown,
    DuplicateServer,
    Other,
}

impl ErrorKind {
    /// The text that introduces the detail in the rendered message.
    pub open spec fn prefix(self) -> Seq<char> {
        match self {
            ErrorKind::McpError => "MCP protocol error: "@,
            ErrorKind::ProcessStartError => "Failed to start server process: "@,
            ErrorKind::ProcessStopError => "Failed to stop server process: "@,
            ErrorKind::CommunicationError => "Server communication error: "@,
            ErrorKind::ServerNotFound => "Server not found: "@,
            ErrorKind::ToolNotFound => "Tool not found: "@,
            ErrorKind::ToolExecutionError => "Tool execution error: "@,
            ErrorKind::ManagerNotFound => "Manager not found: "@,
            ErrorKind::ManagerShutdown => "Manager shutdown: "@,
            ErrorKind::DuplicateServer => "Duplicate server: "@,
            ErrorKind::Other => ""@,
        }
    }

    /// The machine-readable code of the variant.
    pub open spec fn code_text(self) -> Seq<char> {
        match self {
            ErrorKind::McpError => error_codes::MCP_ERROR@,
            ErrorKind::ProcessStartError => error_codes::PROCESS_START_ERROR@,
            ErrorKind::ProcessStopError => error_codes::PROCESS_STOP_ERROR@,
            ErrorKind::CommunicationError => error_codes::COMMUNICATION_ERROR@,
            ErrorKind::ServerNotFound => error_codes::SERVER_NOT_FOUND@,
            ErrorKind::ToolNotFound => error_codes::TOOL_NOT_FOUND@,
            ErrorKind::ToolExecutionError => error_codes::TOOL_EXECUTION_ERROR@,
            ErrorKind::ManagerNotFound => error_codes::MANAGER_NOT_FOUND@,
            ErrorKind::ManagerShutdown => error_codes::MANAGER_SHUTDOWN@,
            ErrorKind::DuplicateServer => error_codes::DUPLICATE_SERVER@,
            ErrorKind::Other => error_codes::UNKNOWN_ERROR@,
        }
    }
}

/// The mathematical content of an [`Error`]: its variant and its detail.
pub struct ErrorView {
    pub kind: ErrorKind,
    pub detail: Seq<char>,
}

impl ErrorView {
    /// The rendered message: the variant's prefix followed by the detail.
    pub open spec fn message(self) -> Seq<char> {
        self.kind.prefix() + self.detail
    }
}

impl View for Error {
    type V = ErrorView;

    open spec fn view(&self) -> ErrorView {
        ErrorView { kind: self.kind_of(), detail: self.detail() }
    }
}

impl Error {
    /// The variant of the error.
    pub open spec fn kind_of(self) -> ErrorKind {
        match self {
            Error::McpError(_) => ErrorKind::McpError,
            Error::ProcessStartError(_) => ErrorKind::ProcessStartError,
            Error::ProcessStopError(_) => ErrorKind::ProcessStopError,
            Error::CommunicationError(_) => ErrorKind::CommunicationError,
            Error::ServerNotFound(_) => ErrorKind::ServerNotFound,
            Error::ToolNotFound(_) => ErrorKind::ToolNotFound,
            Error::ToolExecutionError(_) => ErrorKind::ToolExecutionError,
            Error::ManagerNotFound(_) => ErrorKind::ManagerNotFound,
            Error::ManagerShutdown(_) => ErrorKind::ManagerShutdown,
            Error::DuplicateServer(_) => ErrorKind::DuplicateServer,
            Error::Other(_) => ErrorKind::Other,
        }
    }

    /// The detail text carried by the error, whatever its variant.
    pub open spec fn detail(self) -> Seq<char> {
        match self {
            Error::McpError(d) => d@,
            Error::ProcessStartError(d) => d@,
            Error::ProcessStopError(d) => d@,
            Error::CommunicationError(d) => d@,
            Error::ServerNotFound(d) => d@,
            Error::ToolNotFound(d) => d@,
            Error::ToolExecutionError(d) => d@,
            Error::ManagerNotFound(d) => d@,
            Error::ManagerShutdown(d) => d@,
            Error::DuplicateServer(d) => d@,
            Error::Other(d) => d@,
        }
    }

    /// The text that introduces the detail in the rendered message.
    pub open spec fn prefix(self) -> Seq<char> {
        self.kind_of().prefix()
    }

    /// The machine-readable code of the error's variant.
    pub open spec fn code_text(self) -> Seq<char> {
        self.kind_of().code_text()
    }

    /// Tells the variant of the error.
    pub fn kind(&self) -> (r: ErrorKind)
        ensures
            r == self.kind_of(),
    {
        match self {
            Error::McpError(_) => ErrorKind::McpError,
            Error::ProcessStartError(_) => ErrorKind::ProcessStartError,
            Error::ProcessStopError(_) => ErrorKind::ProcessStopError,
            Error::CommunicationError(_) => ErrorKind::CommunicationError,
            Error::ServerNotFound(_) => ErrorKind::ServerNotFound,
            Error::ToolNotFound(_) => ErrorKind::ToolNotFound,
            Error::ToolExecutionError(_) => ErrorKind::ToolExecutionError,
            Error::ManagerNotFound(_) => ErrorKind::ManagerNotFound,
            Error::ManagerShutdown(_) => ErrorKind::ManagerShutdown,
            Error::DuplicateServer(_) => ErrorKind::DuplicateServer,
            Error::Other(_) => ErrorKind::Other,
        }
    }

    /// Borrows the detail text.
    pub fn detail_text(&self) -> (r: &str)
        ensures
            r@ == self.detail(),
    {
        match self {
            Error::McpError(d) => d.as_str(),
            Error::ProcessStartError(d) => d.as_str(),
            Error::ProcessStopError(d) => d.as_str(),
            Error::CommunicationError(d) => d.as_str(),
            Error::ServerNotFound(d) => d.as_str(),
            Error::ToolNotFound(d) => d.as_str(),
            Error::ToolExecutionError(d) => d.as_str(),
            Error::ManagerNotFound(d) => d.as_str(),
            Error::ManagerShutdown(d) => d.as_str(),
            Error::DuplicateServer(d) => d.as_str(),
            Error::Other(d) => d.as_str(),
        }
    }

    /// Renders the error for display: the variant's prefix followed by the
    /// detail.
    pub fn message(&self) -> (r: String)
        ensures
            r@ == self@.message(),
    {
        let prefix = match self {
            Error::McpError(_) => "MCP protocol error: ",
            Error::ProcessStartError(_) => "Failed to start server process: ",
            Error::ProcessStopError(_) => "Failed to stop server process: ",
            Error::CommunicationError(_) => "Server communication error: ",
            Error::ServerNotFound(_) => "Server not found: ",
            Error::ToolNotFound(_) => "Tool not found: ",
            Error::ToolExecutionError(_) => "Tool execution error: ",
            Error::ManagerNotFound(_) => "Manager not found: ",
            Error::ManagerShutdown(_) => "Manager shutdown: ",
            Error::DuplicateServer(_) => "Duplicate server: ",
            Error::Other(_) => "",
        };
        let mut text = String::from_str(prefix);
        text.append(self.detail_text());
        text
    }

    /// Maps the error to its machine-readable code.
    pub fn code(&self) -> (r: &'static str)
        ensures
            r@ == self.code_text(),
    {
        match self {
            Error::McpError(_) => error_codes::MCP_ERROR,
            Error::ProcessStartError(_) => error_codes::PROCESS_START_ERROR,
            Error::ProcessStopError(_) => error_codes::PROCESS_STOP_ERROR,
            Error::CommunicationError(_) => error_codes::COMMUNICATION_ERROR,
            Error::ServerNotFound(_) => error_codes::SERVER_NOT_FOUND,
            Error::ToolNotFound(_) => error_codes::TOOL_NOT_FOUND,
            Error::ToolExecutionError(_) => error_codes::TOOL_EXECUTION_ERROR,
            Error::ManagerNotFound(_) => error_codes::MANAGER_NOT_FOUND,
            Error::ManagerShutdown(_) => error_codes::MANAGER_SHUTDOWN,
            Error::DuplicateServer(_) => error_codes::DUPLICATE_SERVER,
            Error::Other(_) => error_codes::UNKNOWN_ERROR,
        }
    }
}

} // verus!
