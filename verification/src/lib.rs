//! A verified controller for a debug session over a register-based bytecode
//! program: a state machine that dispatches protocol requests, drives a
//! stepping VM one opcode at a time or in a run-to-stop loop, matches
//! breakpoints against the program counter, and maps VM outcomes to protocol
//! responses and events. The VM itself, the compiler that produces bytecode,
//! and the message transport stay outside; the session speaks to them through
//! narrow, documented interfaces.
pub mod breakpoints;
pub mod protocol;
pub mod render;
pub mod session;
pub mod vm;

pub use breakpoints::BreakpointTable;
pub use protocol::{
    Capabilities, DebugError, LaunchArguments, LaunchDirective, OutboundMessage, Request,
    ScopeInfo, StopReason, ThreadInfo, VariableInfo,
};
