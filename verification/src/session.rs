//! The session state machine and the execution driver. A session moves
//! through three lifecycle states, Uninitialized, Running and Exited, and
//! never backwards; one transition function takes the state and a request
//! and returns the next state together with every message owed to the
//! client, so that all side effects stay in the returned data. The driver
//! advances the VM one opcode per step request, or in an uninterruptible
//! run-to-stop loop for a continue request, matching the program counter
//! against the breakpoint table after every step.
use crate::breakpoints::BreakpointTable;
use crate::protocol::{
    initialize_capabilities, spec_launch_args_valid, DebugError, LaunchDirective, OutboundMessage,
    Request, ScopeInfo, StopReason, ThreadInfo,
};
use crate::render::{
    render_memory, render_variables, variables_ok, words_dump,
};
use crate::vm::{
    failure_message, failure_text, vm_code_len, vm_pc, vm_safe, vm_step_next, vm_step_outcome,
    vm_words, VmHandle, VmOutcome,
};
use vstd::prelude::*;
use vstd::string::StringExecFns;

verus! {

/// The session while a program runs: the VM created at launch, the armed
/// breakpoints, and whether the session was left in a continuing condition.
pub struct RunningSession {
    pub vm: VmHandle,
    pub breakpoints: BreakpointTable,
    pub running: bool,
}

impl RunningSession {
    /// While a session is running, the program counter stays on an opcode -
    /// every transition that would move it off the end leaves the running
    /// state instead - and the program is one the engine can run without
    /// panicking, the warrant the compiler collaborator gives for the
    /// bytecode it emits.
    pub open spec fn wf(self) -> bool {
        &&& vm_pc(self.vm) < vm_code_len(self.vm)
        &&& vm_safe(self.vm)
    }
}

/// The lifecycle of the single live debugging context. Transitions are
/// monotonic: Uninitialized to Running to Exited, and Exited is terminal.
pub enum Session {
    Uninitialized,
    Running(RunningSession),
    Exited,
}

impl Session {
    pub open spec fn wf(self) -> bool {
        match self {
            Session::Running(r) => r.wf(),
            _ => true,
        }
    }

    /// The position of a state in the one-way lifecycle.
    pub open spec fn rank(self) -> int {
        match self {
            Session::Uninitialized => 0,
            Session::Running(_) => 1,
            Session::Exited => 2,
        }
    }
}

/// A fresh session, before any launch.
pub fn new_session() -> (s: Session)
    ensures
        s is Uninitialized,
        s.wf(),
{
    Session::Uninitialized
}

/// One observed execution step: the outcome the VM reported and the program
/// counter it reported right after. Transitions record their steps so that
/// their contracts can speak about the whole run, not only its end.
pub struct StepRecord {
    pub outcome: VmOutcome,
    pub position: usize,
}

/// How a run-to-stop loop ended: paused on an armed breakpoint, finished the
/// program, failed, or yielded after exhausting the cooperative step budget
/// while the session is still continuing.
#[derive(Clone, Debug)]
pub enum ContinueEnd {
    Paused,
    Finished,
    Failed(crate::vm::VmFailure),
    Exhausted,
}

/// How many opcodes one continue request may execute before the driver
/// yields control back to the protocol reader. The verifier demands that
/// every loop provably terminates, and an opaque program need not, so the
/// loop steps cooperatively under this budget; it is far beyond what any
/// session reaches, and a session that exhausts it is simply still
/// continuing, which the stale-continuation guard picks up on the next
/// request.
pub const CONTINUE_BUDGET: u64 = u64::MAX;

/// The handle after `n` engine steps from `v`.
pub open spec fn vm_iterate(v: VmHandle, n: nat) -> VmHandle
    decreases n,
{
    if n == 0 {
        v
    } else {
        vm_step_next(vm_iterate(v, (n - 1) as nat))
    }
}

/// The recorded steps are the engine's own, in order, from the starting
/// handle: step `i` observes the outcome the engine reports for the
/// `i`-times-stepped state, and the program counter of the state it leaves
/// behind. Nothing but running the engine satisfies this.
pub open spec fn trace_follows_engine(v0: VmHandle, steps: Seq<StepRecord>) -> bool {
    forall|i: int|
        0 <= i < steps.len() ==> {
            &&& (#[trigger] steps[i]).outcome == vm_step_outcome(vm_iterate(v0, i as nat))
            &&& steps[i].position as nat == vm_pc(vm_iterate(v0, (i + 1) as nat))
        }
}

/// A step after which the loop keeps running: the VM is still in progress
/// (or waiting on a foreign call) and the new program counter matches no
/// armed breakpoint.
pub open spec fn nonstop_step(table: Seq<u64>, s: StepRecord) -> bool {
    &&& s.outcome is InProgress || s.outcome is WaitingForeignCall
    &&& !table.contains(s.position as u64)
}

/// What a finished run-to-stop loop looks like: at least one step was taken,
/// every step before the last kept running, and the last step alone decided
/// the end - a breakpoint match, completion, or failure.
pub open spec fn continue_trace_ok(table: Seq<u64>, steps: Seq<StepRecord>, end: ContinueEnd) -> bool {
    &&& steps.len() >= 1
    &&& forall|i: int| 0 <= i < steps.len() - 1 ==> nonstop_step(table, #[trigger] steps[i])
    &&& {
        let last = steps[steps.len() - 1];
        match end {
            ContinueEnd::Paused => {
                &&& last.outcome is InProgress || last.outcome is WaitingForeignCall
                &&& table.contains(last.position as u64)
            },
            ContinueEnd::Finished => last.outcome is Finished,
            ContinueEnd::Failed(f) => last.outcome == VmOutcome::Failed(f),
            ContinueEnd::Exhausted => {
                &&& steps.len() == CONTINUE_BUDGET
                &&& nonstop_step(table, last)
            },
        }
    }
}

/// The run-to-stop loop of a continue request. It executes one opcode at a
/// time without yielding control, and ends in exactly one of these ways:
/// paused because the program counter reached an armed breakpoint, finished
/// because the program completed, failed because the VM reported a failure,
/// or - only after the full cooperative budget of steps - yielded while
/// still continuing. It never hands control back on an in-progress or
/// waiting step alone, and it pauses exactly when the counter reaches an
/// armed address, never earlier at a non-matching one: every step before
/// the last lands off the table.
pub fn continue_execution(vm: &mut VmHandle, table: &BreakpointTable) -> (r: (
    ContinueEnd,
    Ghost<Seq<StepRecord>>,
))
    requires
        vm_pc(*old(vm)) < vm_code_len(*old(vm)),
        vm_safe(*old(vm)),
    ensures
        vm_code_len(*final(vm)) == vm_code_len(*old(vm)),
        vm_safe(*final(vm)),
        continue_trace_ok(table@, r.1@, r.0),
        trace_follows_engine(*old(vm), r.1@),
        *final(vm) == vm_iterate(*old(vm), r.1@.len()),
        r.1@.last().position as nat == vm_pc(*final(vm)),
        r.0 is Paused || r.0 is Exhausted ==> vm_pc(*final(vm)) < vm_code_len(*final(vm)),
{
    let ghost mut steps: Seq<StepRecord> = Seq::empty();
    let mut fuel: u64 = CONTINUE_BUDGET;
    while fuel > 0
        invariant
            vm_pc(*vm) < vm_code_len(*vm),
            vm_safe(*vm),
            vm_code_len(*vm) == vm_code_len(*old(vm)),
            steps.len() + fuel == CONTINUE_BUDGET,
            steps.len() > 0 ==> steps.last().position as nat == vm_pc(*vm),
            *vm == vm_iterate(*old(vm), steps.len()),
            trace_follows_engine(*old(vm), steps),
            forall|i: int| 0 <= i < steps.len() ==> nonstop_step(table@, #[trigger] steps[i]),
        decreases fuel,
    {
        fuel = fuel - 1;
        let ghost taken = steps.len();
        let outcome = vm.step();
        let position = vm.position();
        let ghost rec = StepRecord { outcome, position };
        proof {
            assert(vm_iterate(*old(vm), (taken + 1) as nat) == vm_step_next(
                vm_iterate(*old(vm), taken),
            ));
            assert forall|i: int| 0 <= i < steps.push(rec).len() implies {
                &&& (#[trigger] steps.push(rec)[i]).outcome == vm_step_outcome(
                    vm_iterate(*old(vm), i as nat),
                )
                &&& steps.push(rec)[i].position as nat == vm_pc(vm_iterate(*old(vm), (i + 1) as nat))
            } by {
                if i < taken {
                    assert(steps.push(rec)[i] == steps[i]);
                    assert(steps[i].outcome == vm_step_outcome(vm_iterate(*old(vm), i as nat)));
                } else {
                    assert(steps.push(rec)[i] == rec);
                }
            }
            assert(trace_follows_engine(*old(vm), steps.push(rec)));
        }
        match outcome {
            VmOutcome::Finished => {
                return (ContinueEnd::Finished, Ghost(steps.push(rec)));
            },
            VmOutcome::Failed(f) => {
                return (ContinueEnd::Failed(f), Ghost(steps.push(rec)));
            },
            VmOutcome::InProgress | VmOutcome::WaitingForeignCall => {
                if table.matches(position as u64) {
                    return (ContinueEnd::Paused, Ghost(steps.push(rec)));
                }
                proof {
                    steps = steps.push(rec);
                }
            },
        }
    }
    (ContinueEnd::Exhausted, Ghost(steps))
}

/// The scopes reported for a frame: exactly one scope for frame id 0, with
/// the current instruction address as its line, and none for any other
/// frame id.
pub open spec fn scopes_ok(frame_id: int, pc: nat, v: Seq<ScopeInfo>) -> bool {
    if frame_id == 0 {
        &&& v.len() == 1
        &&& v[0].name@ == "Locals"@
        &&& v[0].variables_reference == 133
        &&& v[0].line as nat == pc
    } else {
        v.len() == 0
    }
}

/// The `Scopes` handler: the VM has no call-frame concept beyond the program
/// counter, so only frame id 0 has a scope.
pub fn scopes_for_frame(frame_id: i64, pc: u64) -> (v: Vec<ScopeInfo>)
    ensures
        scopes_ok(frame_id as int, pc as nat, v@),
{
    let mut v: Vec<ScopeInfo> = Vec::new();
    if frame_id == 0 {
        v.push(
            ScopeInfo { name: String::from_str("Locals"), variables_reference: 133, line: pc },
        );
    }
    v
}

/// What one request turned into: the next state, the messages owed to the
/// client in writing order, at most one directive asking the caller for
/// outside work, at most one fault for the driver, and the record of every
/// VM step taken on the way.
pub struct Transition {
    pub next: Session,
    pub messages: Vec<OutboundMessage>,
    pub directive: Option<LaunchDirective>,
    pub fault: Option<DebugError>,
    pub trace: Ghost<Seq<StepRecord>>,
}

/// Whether the stale-continuation guard fires: the session was left
/// continuing and the current instruction address is armed.
pub open spec fn stale_hit(r: RunningSession) -> bool {
    r.running && r.breakpoints@.contains(vm_pc(r.vm) as u64)
}

/// How many messages the stale-continuation guard contributes.
pub open spec fn stale_count(r: RunningSession) -> int {
    if stale_hit(r) {
        1
    } else {
        0
    }
}

/// The running session after the stale-continuation guard, before the
/// request itself is handled.
pub open spec fn after_stale(r: RunningSession) -> RunningSession {
    if stale_hit(r) {
        (RunningSession { running: false, ..r })
    } else {
        r
    }
}

/// A transition that leaves the running session as the guard left it: same
/// VM, same table, same continuing flag.
pub open spec fn keeps_running_state(a: RunningSession, t: Transition) -> bool {
    &&& t.next matches Session::Running(r2) && r2.vm == a.vm && r2.breakpoints@ == a.breakpoints@
        && r2.running == a.running
}

/// What a step request (`Next`, `StepIn`, `StepOut`) turned into: the
/// engine advances exactly one opcode - the one recorded step is the
/// engine's own, on the session's VM - and the outcome decides the rest.
/// An in-progress step acknowledges and stops with reason Step, the session
/// keeping the stepped VM; completion responds with a terminate outcome and
/// exits; a failure is reported as a fault and exits; the unexpected
/// waiting status acknowledges and exits.
pub open spec fn step_post(a: RunningSession, t: Transition, m: Seq<OutboundMessage>) -> bool {
    &&& t.trace@.len() == 1
    &&& t.trace@[0].outcome == vm_step_outcome(a.vm)
    &&& t.trace@[0].position as nat == vm_pc(vm_step_next(a.vm))
    &&& t.directive is None
    &&& match t.trace@[0].outcome {
        VmOutcome::InProgress => {
            &&& t.next matches Session::Running(r2) && r2.vm == vm_step_next(a.vm)
                && r2.breakpoints@ == a.breakpoints@ && !r2.running
            &&& m.len() == 2 && m[0] is AckResponse && m[1] == OutboundMessage::StoppedEvent(
                StopReason::Step,
            )
            &&& t.fault is None
        },
        VmOutcome::Finished => {
            &&& t.next is Exited
            &&& m.len() == 1 && m[0] is TerminateResponse
            &&& t.fault is None
        },
        VmOutcome::WaitingForeignCall => {
            &&& t.next is Exited
            &&& m.len() == 1 && m[0] is AckResponse
            &&& t.fault is None
        },
        VmOutcome::Failed(f) => {
            &&& t.next is Exited
            &&& m.len() == 0
            &&& t.fault matches Some(DebugError::VmFailure(msg)) && msg@ == failure_text(f)
        },
    }
}

/// What a continue request turned into: an immediate continue response,
/// then the run-to-stop loop. The loop's steps are recorded; every step
/// before the last kept running past an unarmed address, and the last one
/// alone ended the run - breakpoint pause (session stays running-state,
/// stopped event), completion (terminate response, session exits), failure
/// (fault, session exits), or the exhausted cooperative budget (session
/// stays running-state and still continuing).
pub open spec fn continue_post(a: RunningSession, t: Transition, m: Seq<OutboundMessage>) -> bool {
    &&& m.len() >= 1 && m[0] is ContinueResponse
    &&& t.directive is None
    &&& t.trace@.len() >= 1
    &&& trace_follows_engine(a.vm, t.trace@)
    &&& forall|i: int| 0 <= i < t.trace@.len() - 1 ==> nonstop_step(
        a.breakpoints@,
        #[trigger] t.trace@[i],
    )
    &&& {
        let last = t.trace@[t.trace@.len() - 1];
        ||| {
            &&& last.outcome is InProgress || last.outcome is WaitingForeignCall
            &&& a.breakpoints@.contains(last.position as u64)
            &&& t.next matches Session::Running(r2) && r2.breakpoints@ == a.breakpoints@
                && !r2.running && r2.vm == vm_iterate(a.vm, t.trace@.len()) && vm_pc(r2.vm)
                == last.position as nat
            &&& m.len() == 2 && m[1] == OutboundMessage::StoppedEvent(StopReason::Breakpoint)
            &&& t.fault is None
        }
        ||| {
            &&& last.outcome is Finished
            &&& t.next is Exited
            &&& m.len() == 2 && m[1] is TerminateResponse
            &&& t.fault is None
        }
        ||| {
            &&& last.outcome matches VmOutcome::Failed(f)
            &&& t.next is Exited
            &&& m.len() == 1
            &&& t.fault matches Some(DebugError::VmFailure(msg)) && msg@ == failure_text(f)
        }
        ||| {
            &&& t.trace@.len() == CONTINUE_BUDGET
            &&& nonstop_step(a.breakpoints@, last)
            &&& t.next matches Session::Running(r2) && r2.breakpoints@ == a.breakpoints@
                && r2.running && r2.vm == vm_iterate(a.vm, t.trace@.len()) && vm_pc(r2.vm)
                == last.position as nat
            &&& m.len() == 1
            &&& t.fault is None
        }
    }
}

/// What each request yields in the running state, after the
/// stale-continuation guard.
pub open spec fn running_post(r: RunningSession, req: Request, t: Transition) -> bool {
    let a = after_stale(r);
    let m = t.messages@.skip(stale_count(r));
    &&& stale_hit(r) ==> t.messages@.len() >= 1 && t.messages@[0] == OutboundMessage::StoppedEvent(
        StopReason::Breakpoint,
    )
    &&& match req {
        Request::Next | Request::StepIn | Request::StepOut => step_post(a, t, m),
        Request::Pause => {
            &&& t.trace@.len() == 0
            &&& t.next matches Session::Running(r2) && r2.vm == a.vm && r2.breakpoints@
                == a.breakpoints@ && !r2.running
            &&& m.len() == 2 && m[0] is AckResponse && m[1] == OutboundMessage::StoppedEvent(
                StopReason::Pause,
            )
            &&& t.fault is None && t.directive is None
        },
        Request::Continue => continue_post(a, t, m),
        Request::Threads => {
            &&& t.trace@.len() == 0
            &&& keeps_running_state(a, t)
            &&& m.len() == 1
            &&& m[0] matches OutboundMessage::ThreadsResponse(v) && v@.len() == 1 && v@[0].id == 0
                && v@[0].name@ == "main"@
            &&& t.fault is None && t.directive is None
        },
        Request::Scopes(frame_id) => {
            &&& t.trace@.len() == 0
            &&& keeps_running_state(a, t)
            &&& m.len() == 1
            &&& m[0] matches OutboundMessage::ScopesResponse(v) && scopes_ok(
                frame_id as int,
                vm_pc(r.vm),
                v@,
            )
            &&& t.fault is None && t.directive is None
        },
        Request::Variables => {
            &&& t.trace@.len() == 0
            &&& keeps_running_state(a, t)
            &&& m.len() == 1
            &&& m[0] matches OutboundMessage::VariablesResponse(v) && variables_ok(
                vm_words(r.vm),
                v@,
            )
            &&& t.fault is None && t.directive is None
        },
        Request::ReadMemory => {
            &&& t.trace@.len() == 0
            &&& keeps_running_state(a, t)
            &&& m.len() == 1
            &&& m[0] matches OutboundMessage::ReadMemoryResponse(s) && s@ == words_dump(
                vm_words(r.vm),
            )
            &&& t.fault is None && t.directive is None
        },
        Request::SetBreakpoints(addresses) => {
            &&& t.trace@.len() == 0
            &&& t.next matches Session::Running(r2) && r2.vm == a.vm && r2.running == a.running
                && r2.breakpoints@ == addresses@
            &&& m.len() == 1 && m[0] is AckResponse
            &&& t.fault is None && t.directive is None
        },
        Request::Disconnect => {
            &&& t.trace@.len() == 0
            &&& t.next is Exited
            &&& m.len() == 1 && m[0] is AckResponse
            &&& t.fault is None && t.directive is None
        },
        Request::SetExceptionBreakpoints => {
            &&& t.trace@.len() == 0
            &&& keeps_running_state(a, t)
            &&& m.len() == 1 && m[0] is AckResponse
            &&& t.fault is None && t.directive is None
        },
        Request::Initialize | Request::Launch(_) => {
            &&& t.trace@.len() == 0
            &&& keeps_running_state(a, t)
            &&& m.len() == 0
            &&& t.fault matches Some(DebugError::ProtocolViolation)
            &&& t.directive is None
        },
    }
}

/// What each request yields before a launch: `Initialize` returns the fixed
/// capabilities; a `Launch` with complete arguments asks the caller to build
/// the VM; one with missing arguments is answered with an error response and
/// the session stays unlaunched; anything else is a protocol violation.
pub open spec fn uninit_post(req: Request, t: Transition) -> bool {
    &&& t.next is Uninitialized
    &&& t.trace@.len() == 0
    &&& match req {
        Request::Initialize => {
            &&& t.messages@.len() == 1
            &&& t.messages@[0] matches OutboundMessage::InitializeResponse(c)
                && !c.supports_step_back && !c.supports_restart_request
            &&& t.fault is None && t.directive is None
        },
        Request::Launch(a) => {
            if spec_launch_args_valid(a) {
                &&& t.messages@.len() == 0
                &&& a.src_path matches Some(p) && a.vm_kind matches Some(k) && t.directive matches
                    Some(d) && d.src_path@ == p@ && d.vm_kind@ == k@
                &&& t.fault is None
            } else {
                &&& t.messages@.len() == 1
                &&& t.messages@[0] matches OutboundMessage::ErrorResponse(msg) && msg@
                    == "Source file is not provided"@
                &&& t.fault is None && t.directive is None
            }
        },
        _ => {
            &&& t.messages@.len() == 0
            &&& t.fault matches Some(DebugError::ProtocolViolation)
            &&& t.directive is None
        },
    }
}

/// Handles one request before a launch.
fn handle_uninitialized(req: Request) -> (t: Transition)
    ensures
        t.next.wf(),
        t.next is Uninitialized,
        uninit_post(req, t),
{
    match req {
        Request::Initialize => {
            let caps = initialize_capabilities();
            let mut messages: Vec<OutboundMessage> = Vec::new();
            messages.push(OutboundMessage::InitializeResponse(caps));
            Transition {
                next: Session::Uninitialized,
                messages,
                directive: None,
                fault: None,
                trace: Ghost(Seq::empty()),
            }
        },
        Request::Launch(a) => {
            match (a.src_path, a.vm_kind) {
                (Some(p), Some(k)) => Transition {
                    next: Session::Uninitialized,
                    messages: Vec::new(),
                    directive: Some(LaunchDirective { src_path: p, vm_kind: k }),
                    fault: None,
                    trace: Ghost(Seq::empty()),
                },
                _ => {
                    let mut messages: Vec<OutboundMessage> = Vec::new();
                    messages.push(
                        OutboundMessage::ErrorResponse(
                            String::from_str("Source file is not provided"),
                        ),
                    );
                    Transition {
                        next: Session::Uninitialized,
                        messages,
                        directive: None,
                        fault: None,
                        trace: Ghost(Seq::empty()),
                    }
                },
            }
        },
        _ => Transition {
            next: Session::Uninitialized,
            messages: Vec::new(),
            directive: None,
            fault: Some(DebugError::ProtocolViolation),
            trace: Ghost(Seq::empty()),
        },
    }
}

/// Handles one request while the program runs: first the stale-continuation
/// guard, then the request itself.
fn handle_running(r: RunningSession, req: Request) -> (t: Transition)
    requires
        r.wf(),
    ensures
        t.next.wf(),
        t.next.rank() >= 1,
        running_post(r, req, t),
{
    let RunningSession { mut vm, mut breakpoints, mut running } = r;
    let mut messages: Vec<OutboundMessage> = Vec::new();
    let pc0: usize = vm.position();
    if running && breakpoints.matches(pc0 as u64) {
        messages.push(OutboundMessage::StoppedEvent(StopReason::Breakpoint));
        running = false;
    }
    proof {
        assert(stale_hit(r) <==> messages@.len() == 1);
        assert(messages@.len() == stale_count(r));
    }
    let ghost c = stale_count(r);
    match req {
        Request::Next | Request::StepIn | Request::StepOut => {
            let outcome = vm.step();
            let position = vm.position();
            let ghost rec = StepRecord { outcome, position };
            let ghost one: Seq<StepRecord> = seq![rec];
            match outcome {
                VmOutcome::InProgress => {
                    messages.push(OutboundMessage::AckResponse);
                    messages.push(OutboundMessage::StoppedEvent(StopReason::Step));
                    running = false;
                    let t = Transition {
                        next: Session::Running(RunningSession { vm, breakpoints, running }),
                        messages,
                        directive: None,
                        fault: None,
                        trace: Ghost(one),
                    };
                    proof {
                        assert(t.messages@.skip(c) =~= seq![
                            OutboundMessage::AckResponse,
                            OutboundMessage::StoppedEvent(StopReason::Step),
                        ]);
                    }
                    t
                },
                VmOutcome::Finished => {
                    messages.push(OutboundMessage::TerminateResponse);
                    let t = Transition {
                        next: Session::Exited,
                        messages,
                        directive: None,
                        fault: None,
                        trace: Ghost(one),
                    };
                    proof {
                        assert(t.messages@.skip(c) =~= seq![OutboundMessage::TerminateResponse]);
                    }
                    t
                },
                VmOutcome::WaitingForeignCall => {
                    messages.push(OutboundMessage::AckResponse);
                    let t = Transition {
                        next: Session::Exited,
                        messages,
                        directive: None,
                        fault: None,
                        trace: Ghost(one),
                    };
                    proof {
                        assert(t.messages@.skip(c) =~= seq![OutboundMessage::AckResponse]);
                    }
                    t
                },
                VmOutcome::Failed(f) => {
                    let text = failure_message(&f);
                    let t = Transition {
                        next: Session::Exited,
                        messages,
                        directive: None,
                        fault: Some(DebugError::VmFailure(text)),
                        trace: Ghost(one),
                    };
                    proof {
                        assert(t.messages@.skip(c) =~= Seq::<OutboundMessage>::empty());
                    }
                    t
                },
            }
        },
        Request::Pause => {
            running = false;
            messages.push(OutboundMessage::AckResponse);
            messages.push(OutboundMessage::StoppedEvent(StopReason::Pause));
            let t = Transition {
                next: Session::Running(RunningSession { vm, breakpoints, running }),
                messages,
                directive: None,
                fault: None,
                trace: Ghost(Seq::empty()),
            };
            proof {
                assert(t.messages@.skip(c) =~= seq![
                    OutboundMessage::AckResponse,
                    OutboundMessage::StoppedEvent(StopReason::Pause),
                ]);
            }
            t
        },
        Request::Continue => {
            running = true;
            messages.push(OutboundMessage::ContinueResponse);
            let (end, tr) = continue_execution(&mut vm, &breakpoints);
            match end {
                ContinueEnd::Paused => {
                    messages.push(OutboundMessage::StoppedEvent(StopReason::Breakpoint));
                    running = false;
                    let t = Transition {
                        next: Session::Running(RunningSession { vm, breakpoints, running }),
                        messages,
                        directive: None,
                        fault: None,
                        trace: tr,
                    };
                    proof {
                        assert(t.messages@.skip(c) =~= seq![
                            OutboundMessage::ContinueResponse,
                            OutboundMessage::StoppedEvent(StopReason::Breakpoint),
                        ]);
                    }
                    t
                },
                ContinueEnd::Finished => {
                    messages.push(OutboundMessage::TerminateResponse);
                    let t = Transition {
                        next: Session::Exited,
                        messages,
                        directive: None,
                        fault: None,
                        trace: tr,
                    };
                    proof {
                        assert(t.messages@.skip(c) =~= seq![
                            OutboundMessage::ContinueResponse,
                            OutboundMessage::TerminateResponse,
                        ]);
                    }
                    t
                },
                ContinueEnd::Failed(f) => {
                    let text = failure_message(&f);
                    let t = Transition {
                        next: Session::Exited,
                        messages,
                        directive: None,
                        fault: Some(DebugError::VmFailure(text)),
                        trace: tr,
                    };
                    proof {
                        assert(t.messages@.skip(c) =~= seq![OutboundMessage::ContinueResponse]);
                    }
                    t
                },
                ContinueEnd::Exhausted => {
                    let t = Transition {
                        next: Session::Running(RunningSession { vm, breakpoints, running }),
                        messages,
                        directive: None,
                        fault: None,
                        trace: tr,
                    };
                    proof {
                        assert(t.messages@.skip(c) =~= seq![OutboundMessage::ContinueResponse]);
                    }
                    t
                },
            }
        },
        Request::Threads => {
            let mut threads: Vec<ThreadInfo> = Vec::new();
            threads.push(ThreadInfo { id: 0, name: String::from_str("main") });
            messages.push(OutboundMessage::ThreadsResponse(threads));
            let t = Transition {
                next: Session::Running(RunningSession { vm, breakpoints, running }),
                messages,
                directive: None,
                fault: None,
                trace: Ghost(Seq::empty()),
            };
            proof {
                assert(t.messages@.skip(c).len() == 1);
            }
            t
        },
        Request::Scopes(frame_id) => {
            let pc: usize = vm.position();
            let scopes = scopes_for_frame(frame_id, pc as u64);
            messages.push(OutboundMessage::ScopesResponse(scopes));
            let t = Transition {
                next: Session::Running(RunningSession { vm, breakpoints, running }),
                messages,
                directive: None,
                fault: None,
                trace: Ghost(Seq::empty()),
            };
            proof {
                assert(t.messages@.skip(c).len() == 1);
            }
            t
        },
        Request::Variables => {
            let words = vm.memory_words();
            let variables = render_variables(&words);
            messages.push(OutboundMessage::VariablesResponse(variables));
            let t = Transition {
                next: Session::Running(RunningSession { vm, breakpoints, running }),
                messages,
                directive: None,
                fault: None,
                trace: Ghost(Seq::empty()),
            };
            proof {
                assert(t.messages@.skip(c).len() == 1);
            }
            t
        },
        Request::ReadMemory => {
            let words = vm.memory_words();
            let dump = render_memory(&words);
            messages.push(OutboundMessage::ReadMemoryResponse(dump));
            let t = Transition {
                next: Session::Running(RunningSession { vm, breakpoints, running }),
                messages,
                directive: None,
                fault: None,
                trace: Ghost(Seq::empty()),
            };
            proof {
                assert(t.messages@.skip(c).len() == 1);
            }
            t
        },
        Request::SetBreakpoints(addresses) => {
            breakpoints.replace(addresses);
            messages.push(OutboundMessage::AckResponse);
            let t = Transition {
                next: Session::Running(RunningSession { vm, breakpoints, running }),
                messages,
                directive: None,
                fault: None,
                trace: Ghost(Seq::empty()),
            };
            proof {
                assert(t.messages@.skip(c) =~= seq![OutboundMessage::AckResponse]);
            }
            t
        },
        Request::Disconnect => {
            messages.push(OutboundMessage::AckResponse);
            let t = Transition {
                next: Session::Exited,
                messages,
                directive: None,
                fault: None,
                trace: Ghost(Seq::empty()),
            };
            proof {
                assert(t.messages@.skip(c) =~= seq![OutboundMessage::AckResponse]);
            }
            t
        },
        Request::SetExceptionBreakpoints => {
            messages.push(OutboundMessage::AckResponse);
            let t = Transition {
                next: Session::Running(RunningSession { vm, breakpoints, running }),
                messages,
                directive: None,
                fault: None,
                trace: Ghost(Seq::empty()),
            };
            proof {
                assert(t.messages@.skip(c) =~= seq![OutboundMessage::AckResponse]);
            }
            t
        },
        Request::Initialize | Request::Launch(_) => {
            let t = Transition {
                next: Session::Running(RunningSession { vm, breakpoints, running }),
                messages,
                directive: None,
                fault: Some(DebugError::ProtocolViolation),
                trace: Ghost(Seq::empty()),
            };
            proof {
                assert(t.messages@.skip(c) =~= Seq::<OutboundMessage>::empty());
            }
            t
        },
    }
}

/// The single transition function of the session: takes the current state
/// and one request, and returns the next state together with every message
/// owed to the client. The lifecycle only ever moves forward, Exited is
/// terminal and handles nothing, and each state answers exactly as its
/// post-condition spells out, request by request.
pub fn handle_request(session: Session, req: Request) -> (t: Transition)
    requires
        session.wf(),
    ensures
        t.next.wf(),
        t.next.rank() >= session.rank(),
        session is Exited ==> t.next is Exited && t.messages@.len() == 0 && t.fault is None
            && t.directive is None && t.trace@.len() == 0,
        session is Uninitialized ==> uninit_post(req, t),
        session matches Session::Running(r) ==> running_post(r, req, t),
{
    match session {
        Session::Uninitialized => handle_uninitialized(req),
        Session::Running(r) => handle_running(r, req),
        Session::Exited => Transition {
            next: Session::Exited,
            messages: Vec::new(),
            directive: None,
            fault: None,
            trace: Ghost(Seq::empty()),
        },
    }
}

/// Completes an accepted launch once the caller has built the VM: the
/// session takes ownership of it, reports that it is initialized,
/// acknowledges the launch, stops with reason Entry, and runs with an empty
/// breakpoint table. The VM is created once here and never replaced. The
/// caller warrants, with the VM it hands over, that the compiled program is
/// one the engine runs without panicking.
pub fn launch_completed(session: Session, vm: VmHandle) -> (t: Transition)
    requires
        session is Uninitialized,
        vm_pc(vm) < vm_code_len(vm),
        vm_safe(vm),
    ensures
        t.trace@.len() == 0,
        t.next.wf(),
        t.next.rank() >= session.rank(),
        t.next matches Session::Running(r2) && r2.vm == vm && r2.breakpoints@ == Seq::<
            u64,
        >::empty() && !r2.running,
        t.messages@.len() == 3,
        t.messages@[0] is InitializedEvent,
        t.messages@[1] is AckResponse,
        t.messages@[2] == OutboundMessage::StoppedEvent(StopReason::Entry),
        t.fault is None,
        t.directive is None,
{
    let mut messages: Vec<OutboundMessage> = Vec::new();
    messages.push(OutboundMessage::InitializedEvent);
    messages.push(OutboundMessage::AckResponse);
    messages.push(OutboundMessage::StoppedEvent(StopReason::Entry));
    Transition {
        next: Session::Running(
            RunningSession { vm, breakpoints: BreakpointTable::empty(), running: false },
        ),
        messages,
        directive: None,
        fault: None,
        trace: Ghost(Seq::empty()),
    }
}

/// Reports a launch whose outside build failed: the diagnostic goes back as
/// an error response and the session stays unlaunched, ready for another
/// attempt.
pub fn launch_failed(session: Session, diagnostic: String) -> (t: Transition)
    requires
        session is Uninitialized,
    ensures
        t.next is Uninitialized,
        t.next.wf(),
        t.messages@.len() == 1,
        t.messages@[0] matches OutboundMessage::ErrorResponse(m) && m@ == diagnostic@,
        t.fault is None,
        t.directive is None,
        t.trace@.len() == 0,
{
    let mut messages: Vec<OutboundMessage> = Vec::new();
    messages.push(OutboundMessage::ErrorResponse(diagnostic));
    Transition {
        next: Session::Uninitialized,
        messages,
        directive: None,
        fault: None,
        trace: Ghost(Seq::empty()),
    }
}

} // verus!
