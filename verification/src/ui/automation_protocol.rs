//! The JSON-RPC face of UI automation: which tool a call names, how the
//! request envelope is checked, and how failures are reported.
use vstd::prelude::*;
use vstd::string::*;
use crate::text::{concat, str_eq};

verus! {

/// Ways an automation call can fail.
#[derive(Debug, Clone, PartialEq, Eq)]
pub enum UiAutomationProtocolError {
    NoActiveWindow,
    UnknownTool(String),
    InvalidArguments(String),
    InvalidRequest(String),
}

/// The stable code of each failure.
pub open spec fn error_code(e: UiAutomationProtocolError) -> Seq<char> {
    match e {
        UiAutomationProtocolError::NoActiveWindow => "no_active_window"@,
        UiAutomationProtocolError::UnknownTool(_) => "unknown_tool"@,
        UiAutomationProtocolError::InvalidArguments(_) => "invalid_arguments"@,
        UiAutomationProtocolError::InvalidRequest(_) => "invalid_request"@,
    }
}

/// The text of each failure.
pub open spec fn error_message(e: UiAutomationProtocolError) -> Seq<char> {
    match e {
        UiAutomationProtocolError::NoActiveWindow => "no active GTK window is registered for automation"@,
        UiAutomationProtocolError::UnknownTool(name) => "unknown GTK automation tool: "@ + name@,
        UiAutomationProtocolError::InvalidArguments(e) => "invalid GTK automation arguments: "@ + e@,
        UiAutomationProtocolError::InvalidRequest(e) => "invalid GTK automation request: "@ + e@,
    }
}

impl UiAutomationProtocolError {
    /// The stable code of this failure.
    pub fn code(&self) -> (r: &'static str)
        ensures
            r@ == error_code(*self),
    {
        match self {
            UiAutomationProtocolError::NoActiveWindow => "no_active_window",
            UiAutomationProtocolError::UnknownTool(_) => "unknown_tool",
            UiAutomationProtocolError::InvalidArguments(_) => "invalid_arguments",
            UiAutomationProtocolError::InvalidRequest(_) => "invalid_request",
        }
    }

    /// The text of this failure.
    pub fn message(&self) -> (r: String)
        ensures
            r@ == error_message(*self),
    {
        match self {
            UiAutomationProtocolError::NoActiveWindow => String::from_str(
                "no active GTK window is registered for automation",
            ),
            UiAutomationProtocolError::UnknownTool(name) => concat(
                "unknown GTK automation tool: ",
                name.as_str(),
            ),
            UiAutomationProtocolError::InvalidArguments(e) => concat(
                "invalid GTK automation arguments: ",
                e.as_str(),
            ),
            UiAutomationProtocolError::InvalidRequest(e) => concat(
                "invalid GTK automation request: ",
                e.as_str(),
            ),
        }
    }
}

/// The JSON-RPC error code every automation failure is reported with.
pub const JSONRPC_ERROR_CODE: i64 = -32000;

/// The automation tools.
#[derive(Debug, Clone, Copy, PartialEq, Eq, Structural)]
pub enum UiAutomationTool {
    Describe,
    Snapshot,
    Dispatch,
}

/// The tool a call names.
pub open spec fn tool_named(name: Seq<char>) -> Option<UiAutomationTool> {
    if name == "describe_ui_automation"@ {
        Some(UiAutomationTool::Describe)
    } else if name == "get_ui_snapshot"@ {
        Some(UiAutomationTool::Snapshot)
    } else if name == "dispatch_ui_action"@ {
        Some(UiAutomationTool::Dispatch)
    } else {
        None
    }
}

/// The tool a call names, or the failure for an unknown name.
pub fn route_ui_automation_tool(name: &str) -> (r: Result<UiAutomationTool, UiAutomationProtocolError>)
    ensures
        match tool_named(name@) {
            Some(t) => r == Ok::<UiAutomationTool, UiAutomationProtocolError>(t),
            None => r matches Err(UiAutomationProtocolError::UnknownTool(n)) && n@ == name@,
        },
{
    if str_eq(name, "describe_ui_automation") {
        Ok(UiAutomationTool::Describe)
    } else if str_eq(name, "get_ui_snapshot") {
        Ok(UiAutomationTool::Snapshot)
    } else if str_eq(name, "dispatch_ui_action") {
        Ok(UiAutomationTool::Dispatch)
    } else {
        Err(UiAutomationProtocolError::UnknownTool(String::from_str(name)))
    }
}

/// What a registered window answered, or the failure when none is registered.
pub fn require_active_window<T>(answer: Option<T>) -> (r: Result<T, UiAutomationProtocolError>)
    ensures
        match answer {
            Some(v) => r == Ok::<T, UiAutomationProtocolError>(v),
            None => r == Err::<T, UiAutomationProtocolError>(UiAutomationProtocolError::NoActiveWindow),
        },
{
    match answer {
        Some(v) => Ok(v),
        None => Err(UiAutomationProtocolError::NoActiveWindow),
    }
}

/// Checks a request's `jsonrpc` and `method` members: only version `2.0`
/// and the method `tools/call` are served.
pub fn check_jsonrpc_envelope(jsonrpc: &str, method: &str) -> (r: Result<(), UiAutomationProtocolError>)
    ensures
        jsonrpc@ != "2.0"@ ==> (r matches Err(UiAutomationProtocolError::InvalidRequest(m)) && m@
            == "unsupported jsonrpc version "@ + jsonrpc@),
        jsonrpc@ == "2.0"@ && method@ != "tools/call"@ ==> (r matches Err(
            UiAutomationProtocolError::InvalidRequest(m),
        ) && m@ == "unsupported method "@ + method@),
        jsonrpc@ == "2.0"@ && method@ == "tools/call"@ ==> r is Ok,
{
    if !str_eq(jsonrpc, "2.0") {
        return Err(UiAutomationProtocolError::InvalidRequest(concat("unsupported jsonrpc version ", jsonrpc)));
    }
    if !str_eq(method, "tools/call") {
        return Err(UiAutomationProtocolError::InvalidRequest(concat("unsupported method ", method)));
    }
    Ok(())
}

} // verus!
