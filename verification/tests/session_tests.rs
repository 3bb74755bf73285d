use acvm::brillig_vm::brillig::{HeapArray, MemoryAddress, Opcode};
use acvm::FieldElement;
use brillig_dbg::protocol::{
    DebugError, LaunchArguments, OutboundMessage, Request, StopReason,
};
use brillig_dbg::session::{
    handle_request, launch_completed, launch_failed, new_session, Session, Transition,
};
use brillig_dbg::vm::VmHandle;

fn const_op(address: usize, value: u128) -> Opcode {
    Opcode::Const {
        destination: MemoryAddress(address),
        bit_size: 64,
        value: FieldElement::from(value),
    }
}

fn stop_op() -> Opcode {
    Opcode::Stop { return_data_offset: 0, return_data_size: 0 }
}

/// Opcodes at addresses 0, 1, 2 write constants; address 3 terminates.
fn demo_program() -> Vec<Opcode> {
    vec![const_op(0, 7), const_op(1, 9), const_op(2, 11), stop_op()]
}

fn valid_launch_arguments() -> LaunchArguments {
    LaunchArguments {
        src_path: Some("main.nr".to_string()),
        vm_kind: Some("brillig".to_string()),
    }
}

/// Runs a session up to the Running state on the given program.
fn launched_session(code: Vec<Opcode>) -> Session {
    let s = new_session();
    let t = handle_request(s, Request::Launch(valid_launch_arguments()));
    assert!(t.directive.is_some());
    let vm = VmHandle::with_program(code, Vec::new());
    let t = launch_completed(t.next, vm);
    t.next
}

#[test]
fn initialize_reports_fixed_capabilities() {
    let s = new_session();
    let t = handle_request(s, Request::Initialize);
    assert!(matches!(t.next, Session::Uninitialized));
    assert_eq!(t.messages.len(), 1);
    match &t.messages[0] {
        OutboundMessage::InitializeResponse(c) => {
            assert!(!c.supports_step_back);
            assert!(!c.supports_restart_request);
        },
        _ => panic!("expected an initialize response"),
    }
    assert!(t.fault.is_none());
}

#[test]
fn launch_missing_src_path_keeps_session_uninitialized() {
    let s = new_session();
    let arguments = LaunchArguments { src_path: None, vm_kind: Some("brillig".to_string()) };
    let t = handle_request(s, Request::Launch(arguments));
    assert!(matches!(t.next, Session::Uninitialized));
    assert_eq!(t.messages.len(), 1);
    match &t.messages[0] {
        OutboundMessage::ErrorResponse(m) => assert_eq!(m, "Source file is not provided"),
        _ => panic!("expected an error response"),
    }
    assert!(t.directive.is_none());
    assert!(t.fault.is_none());

    // A later launch with complete arguments must still succeed.
    let t = handle_request(t.next, Request::Launch(valid_launch_arguments()));
    let d = t.directive.expect("expected a launch directive");
    assert_eq!(d.src_path, "main.nr");
    assert_eq!(d.vm_kind, "brillig");
    let vm = VmHandle::with_program(demo_program(), Vec::new());
    let t = launch_completed(t.next, vm);
    assert!(matches!(t.next, Session::Running(_)));
}

#[test]
fn launch_emits_initialized_ack_and_entry_stop() {
    let s = new_session();
    let t = handle_request(s, Request::Launch(valid_launch_arguments()));
    let vm = VmHandle::with_program(demo_program(), Vec::new());
    let t = launch_completed(t.next, vm);
    assert_eq!(t.messages.len(), 3);
    assert!(matches!(t.messages[0], OutboundMessage::InitializedEvent));
    assert!(matches!(t.messages[1], OutboundMessage::AckResponse));
    assert!(matches!(t.messages[2], OutboundMessage::StoppedEvent(StopReason::Entry)));
    match t.next {
        Session::Running(r) => {
            assert_eq!(r.vm.position(), 0);
            assert!(!r.running);
        },
        _ => panic!("expected a running session"),
    }
}

#[test]
fn breakpoint_continue_scenario() {
    // Breakpoint at address 2; entry stop at pc 0.
    let s = launched_session(demo_program());
    let t = handle_request(s, Request::SetBreakpoints(vec![2]));
    assert!(matches!(t.messages[0], OutboundMessage::AckResponse));

    // First continue executes the opcodes at 0 and 1 and pauses with reason
    // Breakpoint at pc 2, not 3.
    let t = handle_request(t.next, Request::Continue);
    assert_eq!(t.messages.len(), 2);
    assert!(matches!(t.messages[0], OutboundMessage::ContinueResponse));
    assert!(matches!(t.messages[1], OutboundMessage::StoppedEvent(StopReason::Breakpoint)));
    let next = t.next;
    match &next {
        Session::Running(r) => assert_eq!(r.vm.position(), 2),
        _ => panic!("expected the session to stay running"),
    }

    // The second continue executes the opcodes at 2 and 3 and terminates.
    let t = handle_request(next, Request::Continue);
    assert_eq!(t.messages.len(), 2);
    assert!(matches!(t.messages[0], OutboundMessage::ContinueResponse));
    assert!(matches!(t.messages[1], OutboundMessage::TerminateResponse));
    assert!(matches!(t.next, Session::Exited));
    assert!(t.fault.is_none());
}

#[test]
fn continue_does_not_stop_at_non_matching_address() {
    // A breakpoint beyond the program is never reached: the run terminates.
    let s = launched_session(demo_program());
    let t = handle_request(s, Request::SetBreakpoints(vec![9]));
    let t = handle_request(t.next, Request::Continue);
    assert!(matches!(t.messages[1], OutboundMessage::TerminateResponse));
    assert!(matches!(t.next, Session::Exited));
}

#[test]
fn set_breakpoints_replaces_instead_of_merging() {
    let s = launched_session(demo_program());
    let t = handle_request(s, Request::SetBreakpoints(vec![1, 3]));
    let t = handle_request(t.next, Request::SetBreakpoints(vec![2]));
    match &t.next {
        Session::Running(r) => {
            assert!(!r.breakpoints.matches(1));
            assert!(!r.breakpoints.matches(3));
            assert!(r.breakpoints.matches(2));
        },
        _ => panic!("expected a running session"),
    }
    // The earlier breakpoint at 1 is disarmed: the run pauses at 2.
    let t = handle_request(t.next, Request::Continue);
    assert!(matches!(t.messages[1], OutboundMessage::StoppedEvent(StopReason::Breakpoint)));
    match &t.next {
        Session::Running(r) => assert_eq!(r.vm.position(), 2),
        _ => panic!("expected the session to stay running"),
    }
}

#[test]
fn step_to_completion_exits_and_later_requests_are_not_dispatched() {
    // The whole program is one terminating opcode.
    let s = launched_session(vec![stop_op()]);
    let t = handle_request(s, Request::Next);
    assert_eq!(t.messages.len(), 1);
    assert!(matches!(t.messages[0], OutboundMessage::TerminateResponse));
    assert!(matches!(t.next, Session::Exited));

    // Nothing in the exited state handles requests any more.
    let t = handle_request(t.next, Request::Next);
    assert!(matches!(t.next, Session::Exited));
    assert!(t.messages.is_empty());
    assert!(t.fault.is_none());
}

#[test]
fn step_emits_step_stop_and_scopes_track_the_counter() {
    let s = launched_session(demo_program());
    let t = handle_request(s, Request::Next);
    assert_eq!(t.messages.len(), 2);
    assert!(matches!(t.messages[0], OutboundMessage::AckResponse));
    assert!(matches!(t.messages[1], OutboundMessage::StoppedEvent(StopReason::Step)));

    let t = handle_request(t.next, Request::Scopes(0));
    match &t.messages[0] {
        OutboundMessage::ScopesResponse(v) => {
            assert_eq!(v.len(), 1);
            assert_eq!(v[0].name, "Locals");
            assert_eq!(v[0].variables_reference, 133);
            assert_eq!(v[0].line, 1);
        },
        _ => panic!("expected a scopes response"),
    }

    let t = handle_request(t.next, Request::Scopes(5));
    match &t.messages[0] {
        OutboundMessage::ScopesResponse(v) => assert!(v.is_empty()),
        _ => panic!("expected a scopes response"),
    }
}

#[test]
fn step_in_and_step_out_also_advance_one_opcode() {
    let s = launched_session(demo_program());
    let t = handle_request(s, Request::StepIn);
    assert!(matches!(t.messages[1], OutboundMessage::StoppedEvent(StopReason::Step)));
    let t = handle_request(t.next, Request::StepOut);
    assert!(matches!(t.messages[1], OutboundMessage::StoppedEvent(StopReason::Step)));
    match &t.next {
        Session::Running(r) => assert_eq!(r.vm.position(), 2),
        _ => panic!("expected a running session"),
    }
}

#[test]
fn pause_acknowledges_and_stops() {
    let s = launched_session(demo_program());
    let t = handle_request(s, Request::Pause);
    assert_eq!(t.messages.len(), 2);
    assert!(matches!(t.messages[0], OutboundMessage::AckResponse));
    assert!(matches!(t.messages[1], OutboundMessage::StoppedEvent(StopReason::Pause)));
    assert!(matches!(t.next, Session::Running(_)));
}

#[test]
fn threads_reports_the_single_main_thread() {
    let s = launched_session(demo_program());
    let t = handle_request(s, Request::Threads);
    match &t.messages[0] {
        OutboundMessage::ThreadsResponse(v) => {
            assert_eq!(v.len(), 1);
            assert_eq!(v[0].id, 0);
            assert_eq!(v[0].name, "main");
        },
        _ => panic!("expected a threads response"),
    }
}

#[test]
fn variables_name_registers_positionally() {
    let s = launched_session(demo_program());
    let t = handle_request(s, Request::Next);
    let t = handle_request(t.next, Request::Next);
    let t = handle_request(t.next, Request::Variables);
    match &t.messages[0] {
        OutboundMessage::VariablesResponse(v) => {
            assert_eq!(v.len(), 2);
            assert_eq!(v[0].name, "Register 0");
            assert_eq!(v[0].value, "7");
            assert_eq!(v[1].name, "Register 1");
            assert_eq!(v[1].value, "9");
        },
        _ => panic!("expected a variables response"),
    }
}

#[test]
fn read_memory_joins_decimal_words() {
    let s = launched_session(demo_program());
    let t = handle_request(s, Request::Next);
    let t = handle_request(t.next, Request::Next);
    let t = handle_request(t.next, Request::ReadMemory);
    match &t.messages[0] {
        OutboundMessage::ReadMemoryResponse(dump) => assert_eq!(dump, "7.9"),
        _ => panic!("expected a read-memory response"),
    }
}

#[test]
fn trap_is_reported_as_a_vm_failure() {
    let s = launched_session(vec![Opcode::Trap { revert_data: HeapArray::default() }]);
    let t = handle_request(s, Request::Next);
    assert!(t.messages.is_empty());
    match t.fault {
        Some(DebugError::VmFailure(m)) => assert_eq!(m, "Trap"),
        _ => panic!("expected a VM failure"),
    }
    assert!(matches!(t.next, Session::Exited));
}

#[test]
fn waiting_foreign_call_on_step_exits() {
    let s = launched_session(vec![Opcode::ForeignCall {
        function: "oracle".to_string(),
        destinations: vec![],
        destination_value_types: vec![],
        inputs: vec![],
        input_value_types: vec![],
    }]);
    let t = handle_request(s, Request::Next);
    assert_eq!(t.messages.len(), 1);
    assert!(matches!(t.messages[0], OutboundMessage::AckResponse));
    assert!(matches!(t.next, Session::Exited));
    assert!(t.fault.is_none());
}

#[test]
fn requests_before_launch_are_protocol_violations() {
    let s = new_session();
    let t = handle_request(s, Request::Next);
    assert!(matches!(t.fault, Some(DebugError::ProtocolViolation)));
    assert!(matches!(t.next, Session::Uninitialized));
    assert!(t.messages.is_empty());
}

#[test]
fn initialize_while_running_is_a_protocol_violation() {
    let s = launched_session(demo_program());
    let t = handle_request(s, Request::Initialize);
    assert!(matches!(t.fault, Some(DebugError::ProtocolViolation)));
    assert!(matches!(t.next, Session::Running(_)));
    assert!(t.messages.is_empty());
}

#[test]
fn disconnect_acknowledges_and_exits() {
    let s = launched_session(demo_program());
    let t = handle_request(s, Request::Disconnect);
    assert_eq!(t.messages.len(), 1);
    assert!(matches!(t.messages[0], OutboundMessage::AckResponse));
    assert!(matches!(t.next, Session::Exited));
}

#[test]
fn set_exception_breakpoints_is_an_acknowledged_noop() {
    let s = launched_session(demo_program());
    let t = handle_request(s, Request::SetExceptionBreakpoints);
    assert_eq!(t.messages.len(), 1);
    assert!(matches!(t.messages[0], OutboundMessage::AckResponse));
    assert!(matches!(t.next, Session::Running(_)));
}

#[test]
fn launch_failed_reports_the_diagnostic() {
    let s = new_session();
    let t = handle_request(s, Request::Launch(valid_launch_arguments()));
    let t = launch_failed(t.next, "entry point does not compile".to_string());
    assert!(matches!(t.next, Session::Uninitialized));
    match &t.messages[0] {
        OutboundMessage::ErrorResponse(m) => assert_eq!(m, "entry point does not compile"),
        _ => panic!("expected an error response"),
    }
}

#[test]
fn transition_trace_is_invisible_to_callers() {
    // The ghost trace carries no runtime data; the rest of the transition is
    // everything a caller acts on.
    let s = launched_session(demo_program());
    let t: Transition = handle_request(s, Request::Threads);
    assert!(t.directive.is_none());
    assert!(t.fault.is_none());
}
