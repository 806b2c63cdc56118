//! The data that crosses the library's boundary: server configurations, tool
//! descriptions, execution requests, and the events that report every state
//! transition.

use vstd::prelude::*;
use std::collections::HashMap;
use crate::json::{
    frame_array, json_array, json_nullable, json_quoted, quote, quote_nullable, slice_of, text_of,
};

verus! {

/// The worker that a caller asks a manager to start.
#[derive(Debug, Clone)]
pub struct ServerConfig {
    /// Identifier of the server, unique within its manager.
    pub id: String,
    /// Path of the executable to run.
    pub command: String,
    /// Arguments handed to the executable, in order.
    pub args: Vec<String>,
    /// Extra environment variables for the worker.
    pub env: Option<HashMap<String, String>>,
}

/// One tool that a server advertised when it was started.
#[derive(Debug, PartialEq, Eq)]
pub struct ToolInfo {
    /// Identifier of the server that provides the tool.
    pub server_id: String,
    /// Name under which the tool is invoked.
    pub tool_name: String,
    /// Human-readable description; empty where the server gave none.
    pub description: String,
    /// JSON schema of the tool's parameters, as text.
    pub parameters: String,
}

/// The mathematical content of a [`ToolInfo`].
pub struct ToolInfoView {
    pub server_id: Seq<char>,
    pub tool_name: Seq<char>,
    pub description: Seq<char>,
    pub parameters: Seq<char>,
}

impl View for ToolInfo {
    type V = ToolInfoView;

    open spec fn view(&self) -> ToolInfoView {
        ToolInfoView {
            server_id: self.server_id@,
            tool_name: self.tool_name@,
            description: self.description@,
            parameters: self.parameters@,
        }
    }
}

impl DeepView for ToolInfo {
    type V = ToolInfoView;

    open spec fn deep_view(&self) -> ToolInfoView {
        self@
    }
}

impl Clone for ToolInfo {
    fn clone(&self) -> (r: Self)
        ensures
            r == *self,
    {
        ToolInfo {
            server_id: self.server_id.clone(),
            tool_name: self.tool_name.clone(),
            description: self.description.clone(),
            parameters: self.parameters.clone(),
        }
    }
}

impl ToolInfoView {
    /// The JSON object that describes the tool.
    pub open spec fn json(self) -> Seq<char> {
        "{\"serverId\":"@ + json_quoted(self.server_id) + ",\"toolName\":"@ + json_quoted(
            self.tool_name,
        ) + ",\"description\":"@ + json_quoted(self.description) + ",\"parameters\":"@
            + json_quoted(self.parameters) + "}"@
    }
}

impl ToolInfo {
    /// Encodes the tool as a JSON object.
    pub fn to_json(&self) -> (r: String)
        ensures
            r@ == self@.json(),
    {
        let mut text = String::from_str("{\"serverId\":");
        text.append(quote(self.server_id.as_str()).as_str());
        text.append(",\"toolName\":");
        text.append(quote(self.tool_name.as_str()).as_str());
        text.append(",\"description\":");
        text.append(quote(self.description.as_str()).as_str());
        text.append(",\"parameters\":");
        text.append(quote(self.parameters.as_str()).as_str());
        text.append("}");
        text
    }
}

/// The JSON texts of the tools, in order.
pub open spec fn tool_texts(tools: Seq<ToolInfoView>) -> Seq<Seq<char>> {
    Seq::new(tools.len(), |i: int| tools[i].json())
}

/// A request to invoke one tool of one server.
#[derive(Debug, Clone)]
pub struct ToolExecutionRequest {
    /// Identifier of the server to call.
    pub server_id: String,
    /// Name of the tool to invoke.
    pub tool_name: String,
    /// Arguments of the call, as JSON text.
    pub inputs: String,
}

/// The payload of a log event.
#[derive(Debug, Clone)]
pub struct LogEvent {
    /// Severity, such as `info` or `error`.
    pub level: String,
    /// The message itself.
    pub message: String,
    /// The server that the message concerns, if any.
    pub server_id: Option<String>,
}

/// The payload of a log event, spelled over texts.
pub open spec fn log_json(level: Seq<char>, message: Seq<char>, server_id: Option<Seq<char>>)
    -> Seq<char> {
    "{\"level\":"@ + json_quoted(level) + ",\"message\":"@ + json_quoted(message)
        + ",\"serverId\":"@ + json_nullable(server_id) + "}"@
}

impl LogEvent {
    /// The JSON object that carries the log entry.
    pub open spec fn json(self) -> Seq<char> {
        log_json(self.level@, self.message@, text_of(self.server_id))
    }

    /// Encodes the log entry as a JSON object.
    pub fn to_json(&self) -> (r: String)
        ensures
            r@ == self.json(),
    {
        let server_id = match &self.server_id {
            Some(id) => quote_nullable(Some(id.as_str())),
            None => quote_nullable(None),
        };
        let mut text = String::from_str("{\"level\":");
        text.append(quote(self.level.as_str()).as_str());
        text.append(",\"message\":");
        text.append(quote(self.message.as_str()).as_str());
        text.append(",\"serverId\":");
        text.append(server_id.as_str());
        text.append("}");
        text
    }
}

/// The payload of a tools-updated event.
#[derive(Debug)]
pub struct ToolsUpdatedEvent {
    /// The tools that the server now offers.
    pub tools: Vec<ToolInfo>,
}

/// The payload of a tools-updated event, spelled over tool views.
pub open spec fn tools_json(tools: Seq<ToolInfoView>) -> Seq<char> {
    "{\"tools\":"@ + json_array(tool_texts(tools)) + "}"@
}

impl ToolsUpdatedEvent {
    /// The JSON object that lists the tools.
    pub open spec fn json(self) -> Seq<char> {
        tools_json(self.tools.deep_view())
    }

    /// Encodes the tool list as a JSON object.
    pub fn to_json(&self) -> (r: String)
        ensures
            r@ == self.json(),
    {
        let ghost tools = self.tools.deep_view();
        let mut texts: Vec<String> = Vec::new();
        let mut i: usize = 0;
        while i < self.tools.len()
            invariant
                i <= self.tools.len(),
                tools == self.tools.deep_view(),
                texts.len() == i,
                forall|k: int| 0 <= k < i ==> (#[trigger] texts[k])@ == tools[k].json(),
            decreases self.tools.len() - i,
        {
            texts.push(self.tools[i].to_json());
            i = i + 1;
        }
        proof {
            assert(texts.deep_view() =~= tool_texts(tools));
        }
        let mut text = String::from_str("{\"tools\":");
        text.append(frame_array(&texts).as_str());
        text.append("}");
        text
    }
}

/// The payload of the events that name a single server.
pub open spec fn server_json(server_id: Seq<char>) -> Seq<char> {
    "{\"serverId\":"@ + json_quoted(server_id) + "}"@
}

/// One observable transition, ready to be handed to an event sink.
#[derive(Debug, Clone, PartialEq, Eq)]
pub struct McpEvent {
    /// One of `log`, `serverStarted`, `serverStopped`, `toolsUpdated`.
    pub event_type: String,
    /// The payload, as JSON text.
    pub payload: String,
}

/// The mathematical content of an [`McpEvent`].
pub struct McpEventView {
    pub event_type: Seq<char>,
    pub payload: Seq<char>,
}

impl View for McpEvent {
    type V = McpEventView;

    open spec fn view(&self) -> McpEventView {
        McpEventView { event_type: self.event_type@, payload: self.payload@ }
    }
}

impl DeepView for McpEvent {
    type V = McpEventView;

    open spec fn deep_view(&self) -> McpEventView {
        self@
    }
}

impl McpEventView {
    /// The log event with the given level, message and server.
    pub open spec fn log(level: Seq<char>, message: Seq<char>, server_id: Option<Seq<char>>)
        -> McpEventView {
        McpEventView { event_type: "log"@, payload: log_json(level, message, server_id) }
    }

    /// The log event of level `info`.
    pub open spec fn info(message: Seq<char>, server_id: Option<Seq<char>>) -> McpEventView {
        Self::log("info"@, message, server_id)
    }

    /// The log event of level `error`.
    pub open spec fn error(message: Seq<char>, server_id: Option<Seq<char>>) -> McpEventView {
        Self::log("error"@, message, server_id)
    }

    /// The event that announces a server's tool catalog.
    pub open spec fn tools_updated(tools: Seq<ToolInfoView>) -> McpEventView {
        McpEventView { event_type: "toolsUpdated"@, payload: tools_json(tools) }
    }

    /// The event that announces a started server.
    pub open spec fn server_started(server_id: Seq<char>) -> McpEventView {
        McpEventView { event_type: "serverStarted"@, payload: server_json(server_id) }
    }

    /// The event that announces a stopped server.
    pub open spec fn server_stopped(server_id: Seq<char>) -> McpEventView {
        McpEventView { event_type: "serverStopped"@, payload: server_json(server_id) }
    }
}

/// Encodes the payload of the events that name a single server.
fn server_payload(server_id: &str) -> (r: String)
    ensures
        r@ == server_json(server_id@),
{
    let mut text = String::from_str("{\"serverId\":");
    text.append(quote(server_id).as_str());
    text.append("}");
    text
}

impl McpEvent {
    /// Creates a log event.
    pub fn log(level: &str, message: &str, server_id: Option<&str>) -> (r: Self)
        ensures
            r@ == McpEventView::log(level@, message@, slice_of(server_id)),
    {
        let payload = LogEvent {
            level: String::from_str(level),
            message: String::from_str(message),
            server_id: match server_id {
                Some(id) => Some(String::from_str(id)),
                None => None,
            },
        };
        McpEvent {
            event_type: String::from_str("log"),
            payload: payload.to_json(),
        }
    }

    /// Creates a log event of level `info`.
    pub fn info(message: &str, server_id: Option<&str>) -> (r: Self)
        ensures
            r@ == McpEventView::info(message@, slice_of(server_id)),
    {
        Self::log("info", message, server_id)
    }

    /// Creates a log event of level `error`.
    pub fn error(message: &str, server_id: Option<&str>) -> (r: Self)
        ensures
            r@ == McpEventView::error(message@, slice_of(server_id)),
    {
        Self::log("error", message, server_id)
    }

    /// Creates the event that announces a server's tool catalog.
    pub fn tools_updated(tools: Vec<ToolInfo>) -> (r: Self)
        ensures
            r@ == McpEventView::tools_updated(tools.deep_view()),
    {
        let payload = ToolsUpdatedEvent { tools };
        McpEvent {
            event_type: String::from_str("toolsUpdated"),
            payload: payload.to_json(),
        }
    }

    /// Creates the event that announces a started server.
    pub fn server_started(server_id: &str) -> (r: Self)
        ensures
            r@ == McpEventView::server_started(server_id@),
    {
        McpEvent {
            event_type: String::from_str("serverStarted"),
            payload: server_payload(server_id),
        }
    }

    /// Creates the event that announces a stopped server.
    pub fn server_stopped(server_id: &str) -> (r: Self)
        ensures
            r@ == McpEventView::server_stopped(server_id@),
    {
        McpEvent {
            event_type: String::from_str("serverStopped"),
            payload: server_payload(server_id),
        }
    }
}

} // verus!
