//! Tool calls: what is handed to a worker, and how the outcome of a call is
//! read.

use vstd::prelude::*;
use crate::error::{Error, ErrorKind, ErrorView};
use crate::json::{json_quoted, quote, JsonObject};
use crate::models::{McpEvent, McpEventView};
use crate::text::{join2, join5};

verus! {

/// A tool call that a manager has admitted and that the caller is to make.
#[derive(Debug)]
pub struct CallPlan {
    /// The server to call.
    pub server_id: String,
    /// The tool to invoke.
    pub tool_name: String,
    /// The arguments of the call: the members of the input document where
    /// it is a JSON object, nothing otherwise.
    pub arguments: Option<JsonObject>,
}

/// The ways in which a tool call can fail.
#[derive(Debug, Clone, Copy, PartialEq, Eq, Structural)]
pub enum CallFailureKind {
    /// The worker answered with a protocol-level error.
    Protocol,
    /// The transport to the worker failed.
    Transport,
    /// The worker's answer did not have the shape that the protocol
    /// prescribes for it.
    UnexpectedResponse,
    /// The call was cancelled.
    Cancelled,
    /// The call timed out.
    Timeout,
}

/// A failed tool call.
#[derive(Debug)]
pub struct CallFailure {
    /// What kind of failure it was.
    pub kind: CallFailureKind,
    /// The failure in words.
    pub message: String,
}

/// How a tool call ended, as the caller that made it reports it.
#[derive(Debug)]
pub enum CallOutcome {
    /// The worker answered; the answer is given as JSON text.
    Answered(String),
    /// The worker answered, but its answer could not be written as JSON.
    Unserialisable(String),
    /// The call failed.
    Failed(CallFailure),
}

/// The text with which a degraded answer describes what happened.
pub open spec fn degraded_diagnostic(server_id: Seq<char>, tool_name: Seq<char>) -> Seq<char> {
    "Tool '"@ + tool_name + "' on server '"@ + server_id + "' returned an unexpected response type"@
}

/// The answer that stands in for a response of unexpected shape: a result
/// flagged as an error that carries the diagnostic and the error itself.
pub open spec fn degraded_answer(server_id: Seq<char>, tool_name: Seq<char>, message: Seq<char>)
    -> Seq<char> {
    "{\"content\":[{\"type\":\"text\",\"text\":"@ + json_quoted(
        degraded_diagnostic(server_id, tool_name),
    )
        + "}],\"is_error\":true,\"meta\":{\"error_type\":\"unexpected_response_type\",\"original_error\":"@
        + json_quoted(message) + "}}"@
}

/// The error of a tool execution with the given detail.
pub open spec fn execution_error(detail: Seq<char>) -> ErrorView {
    ErrorView { kind: ErrorKind::ToolExecutionError, detail }
}

/// What a tool call that ended as `outcome` yields: the answer as JSON
/// text, or the error.
///
/// A response of unexpected shape is not an error: it yields the degraded
/// answer. Every other failure is a `ToolExecutionError`.
pub open spec fn call_result(server_id: Seq<char>, tool_name: Seq<char>, outcome: CallOutcome)
    -> Result<Seq<char>, ErrorView> {
    match outcome {
        CallOutcome::Answered(text) => Ok(text@),
        CallOutcome::Unserialisable(message) => Err(
            execution_error("Failed to serialize tool result: "@ + message@),
        ),
        CallOutcome::Failed(failure) => if failure.kind == CallFailureKind::UnexpectedResponse {
            Ok(degraded_answer(server_id, tool_name, failure.message@))
        } else {
            Err(execution_error("Failed to execute tool: "@ + failure.message@))
        },
    }
}

/// The events that close a tool call: the announcement of its success, or
/// nothing.
pub open spec fn call_closing_events(
    server_id: Seq<char>,
    tool_name: Seq<char>,
    outcome: CallOutcome,
) -> Seq<McpEventView> {
    if call_result(server_id, tool_name, outcome) is Ok {
        seq![
            McpEventView::info(
                "Tool '"@ + tool_name + "' executed successfully on server '"@ + server_id + "'"@,
                Some(server_id),
            ),
        ]
    } else {
        Seq::empty()
    }
}

/// What a result holds, as text or as the content of the error.
pub open spec fn answer_of(result: Result<String, Error>) -> Result<Seq<char>, ErrorView> {
    match result {
        Ok(text) => Ok(text@),
        Err(e) => Err(e@),
    }
}

/// The answer of a tool call together with the events that close it.
#[derive(Debug)]
pub struct CallReport {
    /// The answer as JSON text, or the error.
    pub result: Result<String, Error>,
    /// The events to emit, in order.
    pub events: Vec<McpEvent>,
}

/// Writes the answer that stands in for a response of unexpected shape.
fn degraded(server_id: &str, tool_name: &str, message: &str) -> (r: String)
    ensures
        r@ == degraded_answer(server_id@, tool_name@, message@),
{
    let diagnostic = join5(
        "Tool '",
        tool_name,
        "' on server '",
        server_id,
        "' returned an unexpected response type",
    );
    join5(
        "{\"content\":[{\"type\":\"text\",\"text\":",
        quote(diagnostic.as_str()).as_str(),
        "}],\"is_error\":true,\"meta\":{\"error_type\":\"unexpected_response_type\",\"original_error\":",
        quote(message).as_str(),
        "}}",
    )
}

/// Reads the outcome of a tool call.
///
/// An answer is passed on. A response that did not have the expected shape
/// is turned into a degraded answer, flagged as an error in its own
/// payload, and counts as a success. Every other failure is a
/// `ToolExecutionError`. A success is announced by an event.
pub fn conclude_call(server_id: &str, tool_name: &str, outcome: CallOutcome) -> (report: CallReport)
    ensures
        answer_of(report.result) == call_result(server_id@, tool_name@, outcome),
        report.events.deep_view() == call_closing_events(server_id@, tool_name@, outcome),
{
    let result = match outcome {
        CallOutcome::Answered(text) => Ok(text),
        CallOutcome::Unserialisable(message) => Err(
            Error::ToolExecutionError(
                join2("Failed to serialize tool result: ", message.as_str()),
            ),
        ),
        CallOutcome::Failed(failure) => match failure.kind {
            CallFailureKind::UnexpectedResponse => Ok(
                degraded(server_id, tool_name, failure.message.as_str()),
            ),
            _ => Err(
                Error::ToolExecutionError(
                    join2("Failed to execute tool: ", failure.message.as_str()),
                ),
            ),
        },
    };
    let mut events: Vec<McpEvent> = Vec::new();
    if result.is_ok() {
        events.push(
            McpEvent::info(
                join5(
                    "Tool '",
                    tool_name,
                    "' executed successfully on server '",
                    server_id,
                    "'",
                ).as_str(),
                Some(server_id),
            ),
        );
    }
    CallReport { result, events }
}

} // verus!
