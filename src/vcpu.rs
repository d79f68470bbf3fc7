//! The vCPU worker protocol: the state machine each vCPU thread follows, and the
//! supervisor's reading of the answers it collects from all vCPUs.

use vstd::prelude::*;
use crate::error::{ErrorKind, PauseMicrovmError, ResumeMicrovmError, VmmActionError};
use crate::vmm::VmmData;

verus! {

/// Exit code: success.
pub const FC_EXIT_CODE_OK: u8 = 0;

/// Exit code: generic error.
pub const FC_EXIT_CODE_GENERIC_ERROR: u8 = 1;

/// Exit code: an error that sound program logic cannot produce.
pub const FC_EXIT_CODE_UNEXPECTED_ERROR: u8 = 2;

/// Exit code: a restricted system call was intercepted.
pub const FC_EXIT_CODE_BAD_SYSCALL: u8 = 148;

/// Exit code: `SIGBUS` was intercepted.
pub const FC_EXIT_CODE_SIGBUS: u8 = 149;

/// Exit code: `SIGSEGV` was intercepted.
pub const FC_EXIT_CODE_SIGSEGV: u8 = 150;

/// Exit code: resuming from a snapshot failed.
pub const FC_EXIT_CODE_RESUME_ERROR: u8 = 151;

/// State of one vCPU.
#[derive(Clone, Copy, Debug, PartialEq, Eq, Structural)]
pub enum VcpuState {
    /// Created, not configured.
    Created,
    /// Configured, not running guest code.
    Paused,
    /// Running guest code.
    Running,
    /// The thread is gone.
    Exited,
}

/// Commands the supervisor sends to a vCPU.
#[derive(Clone, Copy, Debug, PartialEq, Eq, Structural)]
pub enum VcpuCommand {
    /// Set up registers for boot.
    Configure,
    /// Run guest code.
    Resume,
    /// Stop running guest code.
    Pause,
    /// Stop running guest code and save the vCPU state.
    PauseToSnapshot,
    /// Load a saved vCPU state.
    Deserialize,
    /// End the thread.
    Exit,
}

/// What a vCPU does after a command, besides changing state.
#[derive(Clone, Copy, Debug, PartialEq, Eq, Structural)]
pub enum VcpuReply {
    /// Nothing to send.
    Silent,
    /// Send `Resumed`.
    Resumed,
    /// Send `Paused`.
    Paused,
    /// Wait at the barrier, save the state, send `PausedToSnapshot` or `SaveStateFailed`.
    SaveState,
    /// Load the state, send `Deserialized`.
    Deserialized,
    /// The command is not accepted in this state: send `NotAllowed`.
    NotAllowed,
}

/// Answers a vCPU sends to the supervisor.
#[derive(Clone, Debug, PartialEq, Eq)]
pub enum VcpuResponse {
    /// Running guest code.
    Resumed,
    /// Stopped.
    Paused,
    /// Stopped, with the saved state.
    PausedToSnapshot(Vec<u8>),
    /// The state could not be saved.
    SaveStateFailed,
    /// The saved state was loaded.
    Deserialized,
    /// The command is not accepted in the current state.
    NotAllowed,
}

/// The command protocol: the state after `cmd` in `s`, and the reply. `Exit` is
/// accepted everywhere; any other command outside its state is refused and changes
/// nothing.
pub open spec fn vcpu_transition(s: VcpuState, cmd: VcpuCommand) -> (VcpuState, VcpuReply) {
    match (cmd, s) {
        (VcpuCommand::Exit, _) => (VcpuState::Exited, VcpuReply::Silent),
        (VcpuCommand::Configure, VcpuState::Created) => (VcpuState::Paused, VcpuReply::Silent),
        (VcpuCommand::Resume, VcpuState::Paused) => (VcpuState::Running, VcpuReply::Resumed),
        (VcpuCommand::Pause, VcpuState::Running) => (VcpuState::Paused, VcpuReply::Paused),
        (VcpuCommand::PauseToSnapshot, VcpuState::Running) => (VcpuState::Paused, VcpuReply::SaveState),
        (VcpuCommand::Deserialize, VcpuState::Paused) => (VcpuState::Paused, VcpuReply::Deserialized),
        _ => (s, VcpuReply::NotAllowed),
    }
}

/// Applies a command to a vCPU state.
pub fn handle_command(s: VcpuState, cmd: VcpuCommand) -> (r: (VcpuState, VcpuReply))
    ensures
        r == vcpu_transition(s, cmd),
{
    match (cmd, s) {
        (VcpuCommand::Exit, _) => (VcpuState::Exited, VcpuReply::Silent),
        (VcpuCommand::Configure, VcpuState::Created) => (VcpuState::Paused, VcpuReply::Silent),
        (VcpuCommand::Resume, VcpuState::Paused) => (VcpuState::Running, VcpuReply::Resumed),
        (VcpuCommand::Pause, VcpuState::Running) => (VcpuState::Paused, VcpuReply::Paused),
        (VcpuCommand::PauseToSnapshot, VcpuState::Running) => (VcpuState::Paused, VcpuReply::SaveState),
        (VcpuCommand::Deserialize, VcpuState::Paused) => (VcpuState::Paused, VcpuReply::Deserialized),
        _ => (s, VcpuReply::NotAllowed),
    }
}

/// Why the in-kernel run call returned.
#[derive(Clone, Copy, Debug, PartialEq, Eq, Structural)]
pub enum VcpuExit {
    /// Port input.
    IoIn,
    /// Port output.
    IoOut,
    /// MMIO read.
    MmioRead,
    /// MMIO write.
    MmioWrite,
    /// The guest halted.
    Hlt,
    /// The guest shut down.
    Shutdown,
    /// Entering the guest failed.
    FailEntry,
    /// A signal interrupted the run.
    Intr,
    /// Any other reason.
    Unhandled,
}

/// What the run loop does after the run call returned.
#[derive(Clone, Copy, Debug, PartialEq, Eq, Structural)]
pub enum RunAction {
    /// Hand the access to the port I/O bus and run again.
    DispatchIo,
    /// Hand the access to the MMIO bus and run again.
    DispatchMmio,
    /// Stop running: the vCPU pauses.
    Pause,
    /// Raise the VM exit event with this exit code; the vCPU exits.
    ExitVm(u8),
    /// Check the command channel, then run again.
    CheckCommands,
}

/// The run loop's reaction to each exit reason, and the vCPU state after it.
pub open spec fn run_transition(e: VcpuExit) -> (RunAction, VcpuState) {
    match e {
        VcpuExit::IoIn | VcpuExit::IoOut => (RunAction::DispatchIo, VcpuState::Running),
        VcpuExit::MmioRead | VcpuExit::MmioWrite => (RunAction::DispatchMmio, VcpuState::Running),
        VcpuExit::Hlt => (RunAction::Pause, VcpuState::Paused),
        VcpuExit::Shutdown | VcpuExit::FailEntry => (RunAction::ExitVm(FC_EXIT_CODE_OK), VcpuState::Exited),
        VcpuExit::Intr => (RunAction::CheckCommands, VcpuState::Running),
        VcpuExit::Unhandled => (RunAction::ExitVm(FC_EXIT_CODE_UNEXPECTED_ERROR), VcpuState::Exited),
    }
}

/// Decides what to do after the run call returned.
pub fn handle_exit(e: VcpuExit) -> (r: (RunAction, VcpuState))
    ensures
        r == run_transition(e),
{
    match e {
        VcpuExit::IoIn | VcpuExit::IoOut => (RunAction::DispatchIo, VcpuState::Running),
        VcpuExit::MmioRead | VcpuExit::MmioWrite => (RunAction::DispatchMmio, VcpuState::Running),
        VcpuExit::Hlt => (RunAction::Pause, VcpuState::Paused),
        VcpuExit::Shutdown | VcpuExit::FailEntry => (RunAction::ExitVm(FC_EXIT_CODE_OK), VcpuState::Exited),
        VcpuExit::Intr => (RunAction::CheckCommands, VcpuState::Running),
        VcpuExit::Unhandled => (RunAction::ExitVm(FC_EXIT_CODE_UNEXPECTED_ERROR), VcpuState::Exited),
    }
}

/// Every vCPU answered `Resumed` in time.
pub open spec fn all_resumed(rs: Seq<Option<VcpuResponse>>) -> bool {
    forall|i: int| 0 <= i < rs.len() ==> #[trigger] rs[i] == Some(VcpuResponse::Resumed)
}

/// Every vCPU answered `Deserialized` in time.
pub open spec fn all_deserialized(rs: Seq<Option<VcpuResponse>>) -> bool {
    forall|i: int| 0 <= i < rs.len() ==> #[trigger] rs[i] == Some(VcpuResponse::Deserialized)
}

/// Reads the answers to a resume fan-out: done when every vCPU answered `Resumed`.
pub fn check_resume_responses(rs: &Vec<Option<VcpuResponse>>) -> (r: Result<VmmData, VmmActionError>)
    ensures
        r is Ok <==> all_resumed(rs@),
        r is Ok ==> r->Ok_0 == VmmData::Empty,
        r is Err ==> r->Err_0 == VmmActionError::ResumeMicrovm(ErrorKind::User, ResumeMicrovmError::VcpuResume),
{
    let n = rs.len();
    let mut i: usize = 0;
    while i < n
        invariant
            n == rs@.len(),
            i <= n,
            forall|k: int| 0 <= k < i ==> #[trigger] rs@[k] == Some(VcpuResponse::Resumed),
        decreases n - i,
    {
        let ok = match &rs[i] {
            Some(VcpuResponse::Resumed) => true,
            _ => false,
        };
        if !ok {
            return Err(VmmActionError::from(ResumeMicrovmError::VcpuResume));
        }
        i = i + 1;
    }
    Ok(VmmData::Empty)
}

/// Reads the acknowledgements of restored vCPU states.
pub fn check_deserialize_responses(rs: &Vec<Option<VcpuResponse>>) -> (r: Result<(), ResumeMicrovmError>)
    ensures
        r is Ok <==> all_deserialized(rs@),
        r is Err ==> r->Err_0 == ResumeMicrovmError::RestoreVcpuState,
{
    let n = rs.len();
    let mut i: usize = 0;
    while i < n
        invariant
            n == rs@.len(),
            i <= n,
            forall|k: int| 0 <= k < i ==> #[trigger] rs@[k] == Some(VcpuResponse::Deserialized),
        decreases n - i,
    {
        let ok = match &rs[i] {
            Some(VcpuResponse::Deserialized) => true,
            _ => false,
        };
        if !ok {
            return Err(ResumeMicrovmError::RestoreVcpuState);
        }
        i = i + 1;
    }
    Ok(())
}

/// The answers to a pause-to-snapshot fan-out all arrived and all carry a saved state.
pub open spec fn all_saved(rs: Seq<Option<VcpuResponse>>) -> bool {
    forall|i: int| 0 <= i < rs.len() ==> (#[trigger] rs[i] matches Some(VcpuResponse::PausedToSnapshot(_)))
}

/// Collects the saved vCPU states, in vCPU order. A missing answer (timeout) fails
/// with `VcpuPause`; otherwise an answer without a state fails with `SaveVcpuState`.
pub fn collect_vcpu_states(rs: Vec<Option<VcpuResponse>>) -> (r: Result<Vec<Vec<u8>>, PauseMicrovmError>)
    ensures
        r is Ok <==> all_saved(rs@),
        r is Ok ==> r->Ok_0@.len() == rs@.len() && forall|i: int| 0 <= i < rs@.len()
            ==> (#[trigger] rs@[i]) == Some(VcpuResponse::PausedToSnapshot(r->Ok_0@[i])),
        (exists|i: int| 0 <= i < rs@.len() && #[trigger] rs@[i] is None)
            ==> r == Err::<Vec<Vec<u8>>, PauseMicrovmError>(PauseMicrovmError::VcpuPause),
        (forall|i: int| 0 <= i < rs@.len() ==> #[trigger] rs@[i] is Some) && !all_saved(rs@)
            ==> r == Err::<Vec<Vec<u8>>, PauseMicrovmError>(PauseMicrovmError::SaveVcpuState),
{
    let n = rs.len();
    let mut i: usize = 0;
    while i < n
        invariant
            n == rs@.len(),
            i <= n,
            forall|k: int| 0 <= k < i ==> #[trigger] rs@[k] is Some,
        decreases n - i,
    {
        if rs[i].is_none() {
            return Err(PauseMicrovmError::VcpuPause);
        }
        i = i + 1;
    }
    let mut states: Vec<Vec<u8>> = Vec::new();
    let ghost orig = rs@;
    let mut rest = rs;
    let mut j: usize = 0;
    while j < n
        invariant
            n == orig.len(),
            orig == rs@,
            j <= n,
            rest@ == orig.subrange(j as int, n as int),
            forall|k: int| 0 <= k < orig.len() ==> #[trigger] orig[k] is Some,
            states@.len() == j,
            forall|k: int| 0 <= k < j ==> (#[trigger] orig[k]) == Some(VcpuResponse::PausedToSnapshot(states@[k])),
        decreases n - j,
    {
        let item = rest.remove(0);
        assert(rest@ =~= orig.subrange(j + 1, n as int));
        match item {
            Some(VcpuResponse::PausedToSnapshot(s)) => {
                states.push(s);
            },
            _ => {
                assert(!(orig[j as int] matches Some(VcpuResponse::PausedToSnapshot(_))));
                assert(!all_saved(orig));
                return Err(PauseMicrovmError::SaveVcpuState);
            },
        }
        j = j + 1;
    }
    Ok(states)
}

/// The exit code with which the VMM ends after a snapshot action: after a successful
/// pause to snapshot the process ends cleanly, after a failed restore it ends with the
/// restore error code; otherwise it goes on.
pub fn snapshot_exit_code(pause: bool, succeeded: bool) -> (r: Option<u8>)
    ensures
        pause && succeeded ==> r == Some(FC_EXIT_CODE_OK),
        !pause && !succeeded ==> r == Some(FC_EXIT_CODE_RESUME_ERROR),
        pause != succeeded ==> r is None,
{
    if pause && succeeded {
        Some(FC_EXIT_CODE_OK)
    } else if !pause && !succeeded {
        Some(FC_EXIT_CODE_RESUME_ERROR)
    } else {
        None
    }
}

} // verus!
