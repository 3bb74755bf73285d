//! The boundary to the stepping engine: the brillig virtual machine of the
//! `acvm` crate. The VM executes one opcode per step and reports a status;
//! the session only ever asks it to step, to tell its program counter, and
//! to snapshot its memory. Everything the driver decides from those answers
//! is verified; the handful of items in this module that talk to the VM
//! itself are trusted against the engine's source.
use crate::protocol::StopReason;
use acvm::blackbox_solver::StubbedBlackBoxSolver;
use acvm::brillig_vm::brillig::Opcode;
use acvm::brillig_vm::{FailureReason, VMStatus, VM};
use acvm::FieldElement;
use vstd::prelude::*;
use vstd::string::StringExecFns;

verus! {

/// The opcodes a program is made of. The library never looks inside one; it
/// hands them to the VM and observes the reported status.
#[verifier::external_type_specification]
#[verifier::external_body]
pub struct ExOpcode(Opcode);

/// How one execution step failed: a trap opcode was reached, or the engine
/// reported a runtime error.
#[derive(Clone, Debug)]
pub enum VmFailure {
    Trap { revert_data_offset: usize, revert_data_size: usize },
    RuntimeError(String),
}

/// The outcome of one execution step, consumed by the execution driver to
/// decide the next transition.
#[derive(Clone, Debug)]
pub enum VmOutcome {
    InProgress,
    WaitingForeignCall,
    Finished,
    Failed(VmFailure),
}

/// The live VM of one session. The engine borrows its bytecode and its
/// black-box solver for as long as it lives, so the handle parks both in
/// allocations with process lifetime, as the surrounding process would; a
/// session owns exactly one handle, created once on launch and never
/// replaced.
#[verifier::external_body]
pub struct VmHandle {
    inner: VM<'static, StubbedBlackBoxSolver>,
}

/// The number of opcodes of the program the handle was created with.
pub uninterp spec fn vm_code_len(v: VmHandle) -> nat;

/// The current program counter: the address of the next opcode to execute.
pub uninterp spec fn vm_pc(v: VmHandle) -> nat;

/// The VM's memory as plain words, in address order: each value rendered
/// through the engine's own field conversion, low 128 bits.
pub uninterp spec fn vm_words(v: VmHandle) -> Seq<u128>;

/// Whether the engine can run from this state to the end without panicking.
/// The engine trusts the program to be well-typed: a jump or conditional
/// move whose condition cell is not a one-bit integer, a load, store or
/// trap whose pointer cell is not an address-sized integer, a calldata copy
/// reaching past the calldata, or a foreign call with mismatched arities
/// makes it panic instead of reporting a failure (binary arithmetic on
/// ill-typed operands, by contrast, is reported as a failure status). The
/// compiler collaborator that emits the bytecode keeps these typed
/// correctly; this name stands for that guarantee. It is demanded wherever
/// the session steps, and one step preserves it by its meaning: if every
/// run from here is panic-free, so is every run from the next state.
pub uninterp spec fn vm_safe(v: VmHandle) -> bool;

/// The outcome the engine reports for one step of this state. The engine is
/// deterministic in the handle: the black-box solver is stateless and the
/// recorded foreign-call results live inside the VM, so what a step reports
/// is a function of the handle's state alone.
pub uninterp spec fn vm_step_outcome(v: VmHandle) -> VmOutcome;

/// The state the engine leaves behind after one step of this state; a
/// function of the handle's state alone, for the same reason as the
/// outcome.
pub uninterp spec fn vm_step_next(v: VmHandle) -> VmHandle;

impl VmHandle {
    /// Relies on `brillig_vm::VM::new`: the fresh VM starts with program
    /// counter 0, empty memory, and the given bytecode; the bytecode is
    /// never replaced, so its length never changes. A program must hold at
    /// least one opcode, since the engine's step reads the opcode under the
    /// program counter unconditionally.
    #[verifier::external_body]
    pub fn with_program(code: Vec<Opcode>, calldata: Vec<u128>) -> (v: VmHandle)
        requires
            code@.len() > 0,
        ensures
            vm_code_len(v) == code@.len(),
            vm_pc(v) == 0,
            vm_words(v) == Seq::<u128>::empty(),
    {
        let fields: Vec<FieldElement> = calldata.into_iter().map(FieldElement::from).collect();
        let code: &'static [Opcode] = Box::leak(code.into_boxed_slice());
        let solver: &'static StubbedBlackBoxSolver = Box::leak(Box::new(StubbedBlackBoxSolver));
        VmHandle { inner: VM::new(fields, code, Vec::new(), solver) }
    }

    /// Relies on `brillig_vm::VM::process_opcode`: executes exactly one
    /// opcode, deterministically in the handle's state, so the outcome and
    /// the next state go by their names. The engine reads the opcode under
    /// the program counter, which is why the counter must be in bounds, and
    /// it panics on the ill-typed operand forms that `vm_safe` rules out.
    /// Whenever the counter leaves the bytecode, the engine reports
    /// `Finished`, so any other outcome leaves the counter in bounds; the
    /// bytecode itself is shared and never changes length.
    #[verifier::external_body]
    pub(crate) fn step(&mut self) -> (r: VmOutcome)
        requires
            vm_pc(*old(self)) < vm_code_len(*old(self)),
            vm_safe(*old(self)),
        ensures
            r == vm_step_outcome(*old(self)),
            *final(self) == vm_step_next(*old(self)),
            vm_safe(*final(self)),
            vm_code_len(*final(self)) == vm_code_len(*old(self)),
            !(r is Finished) ==> vm_pc(*final(self)) < vm_code_len(*final(self)),
    {
        match self.inner.process_opcode() {
            VMStatus::InProgress => VmOutcome::InProgress,
            VMStatus::Finished { .. } => VmOutcome::Finished,
            VMStatus::ForeignCallWait { .. } => VmOutcome::WaitingForeignCall,
            VMStatus::Failure { reason: FailureReason::RuntimeError { message }, .. } => {
                VmOutcome::Failed(VmFailure::RuntimeError(message))
            },
            VMStatus::Failure {
                reason: FailureReason::Trap { revert_data_offset, revert_data_size },
                ..
            } => {
                VmOutcome::Failed(VmFailure::Trap { revert_data_offset, revert_data_size })
            },
        }
    }

    /// Relies on `brillig_vm::VM::program_counter`: returns the current
    /// program counter, a plain read of the instruction pointer.
    #[verifier::external_body]
    pub fn position(&self) -> (r: usize)
        ensures
            r as nat == vm_pc(*self),
    {
        self.inner.program_counter()
    }

    /// Relies on `brillig_vm::VM::get_memory`: returns the VM's memory in
    /// address order; each value is converted to a plain word through the
    /// engine's `to_field` and the field's `to_u128`.
    #[verifier::external_body]
    pub(crate) fn memory_words(&self) -> (r: Vec<u128>)
        ensures
            r@ == vm_words(*self),
    {
        self.inner.get_memory().iter().map(|m| m.to_field().to_u128()).collect()
    }
}

/// The description text attached to a stop notification: the name of its
/// reason.
pub fn reason_description(reason: StopReason) -> (r: &'static str)
    ensures
        reason is Entry ==> r@ == "Entry"@,
        reason is Step ==> r@ == "Step"@,
        reason is Breakpoint ==> r@ == "Breakpoint"@,
        reason is Pause ==> r@ == "Pause"@,
{
    match reason {
        StopReason::Entry => "Entry",
        StopReason::Step => "Step",
        StopReason::Breakpoint => "Breakpoint",
        StopReason::Pause => "Pause",
    }
}

/// The text the session reports for a failed step: the engine's runtime
/// error message, or the fixed word for a trap.
pub open spec fn failure_text(f: VmFailure) -> Seq<char> {
    match f {
        VmFailure::RuntimeError(m) => m@,
        VmFailure::Trap { .. } => "Trap"@,
    }
}

/// The message text the session reports for a failed step.
pub fn failure_message(f: &VmFailure) -> (r: String)
    ensures
        r@ == failure_text(*f),
{
    match f {
        VmFailure::RuntimeError(m) => m.clone(),
        VmFailure::Trap { .. } => String::from_str("Trap"),
    }
}

} // verus!
