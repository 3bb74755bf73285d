//! Plain data model of the debugging protocol: the requests the session
//! accepts, the responses and events it emits, and the errors it reports.
//! The transport that frames these messages on a stream stays outside the
//! library; callers hand in a `Request` and write out each `OutboundMessage`.
use vstd::prelude::*;

verus! {

/// The reason attached to a stop notification when execution pauses.
#[derive(Clone, Copy, PartialEq, Eq, Structural, Debug)]
pub enum StopReason {
    Entry,
    Step,
    Breakpoint,
    Pause,
}

/// Arguments of a `Launch` request, already lifted out of the transport's
/// encoding. A field is `None` when the client did not supply it (or supplied
/// it with the wrong shape); both are required for a launch to be accepted.
#[derive(Clone, Debug)]
pub struct LaunchArguments {
    pub src_path: Option<String>,
    pub vm_kind: Option<String>,
}

/// A request dispatched to the session. Breakpoint addresses arrive as the
/// raw line numbers of the request; the table stores them as instruction
/// addresses without translation.
#[derive(Clone, Debug)]
pub enum Request {
    Initialize,
    Launch(LaunchArguments),
    SetBreakpoints(Vec<u64>),
    Next,
    StepIn,
    StepOut,
    Pause,
    Continue,
    Threads,
    Scopes(i64),
    Variables,
    ReadMemory,
    Disconnect,
    SetExceptionBreakpoints,
}

/// The capability descriptor returned by `Initialize`. Both flags are fixed.
#[derive(Clone, Copy, PartialEq, Eq, Structural, Debug)]
pub struct Capabilities {
    pub supports_step_back: bool,
    pub supports_restart_request: bool,
}

/// One reported thread; the session always reports a single fixed thread.
#[derive(Clone, Debug)]
pub struct ThreadInfo {
    pub id: i64,
    pub name: String,
}

/// One scope reported by `Scopes`; `line` carries the current instruction
/// address.
#[derive(Clone, Debug)]
pub struct ScopeInfo {
    pub name: String,
    pub variables_reference: i64,
    pub line: u64,
}

/// One named VM word reported by `Variables`.
#[derive(Clone, Debug)]
pub struct VariableInfo {
    pub name: String,
    pub value: String,
}

/// A response or event owed to the client. The session returns these in the
/// order they are to be written; it performs no writing itself.
#[derive(Clone, Debug)]
pub enum OutboundMessage {
    InitializeResponse(Capabilities),
    ErrorResponse(String),
    AckResponse,
    InitializedEvent,
    StoppedEvent(StopReason),
    ContinueResponse,
    TerminateResponse,
    ThreadsResponse(Vec<ThreadInfo>),
    ScopesResponse(Vec<ScopeInfo>),
    VariablesResponse(Vec<VariableInfo>),
    ReadMemoryResponse(String),
}

/// A fault the session reports to its driver instead of aborting: a request
/// that is not valid in the current state, or a failure reported by the VM.
#[derive(Clone, Debug)]
pub enum DebugError {
    ProtocolViolation,
    VmFailure(String),
}

/// What the session asks its caller to do next when a request cannot be
/// finished from inside the library: a valid `Launch` asks the caller to
/// compile the entry point and hand back a VM.
#[derive(Clone, Debug)]
pub struct LaunchDirective {
    pub src_path: String,
    pub vm_kind: String,
}

/// Whether launch arguments carry everything a launch needs: a launch is
/// accepted exactly when both required arguments are present.
pub open spec fn spec_launch_args_valid(a: LaunchArguments) -> bool {
    a.src_path is Some && a.vm_kind is Some
}

/// The fixed capability descriptor: no step-back, no restart.
pub fn initialize_capabilities() -> (c: Capabilities)
    ensures
        !c.supports_step_back,
        !c.supports_restart_request,
{
    Capabilities { supports_step_back: false, supports_restart_request: false }
}

} // verus!
