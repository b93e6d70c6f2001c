//! The update hand-off: wait for the caller to exit, back up the installed
//! executable, extract the package, relaunch. Each decision is a function from
//! what was observed to what happens next; the caller performs the work.

use vstd::prelude::*;
use vstd::string::*;

verus! {

/// Where an update run stands.
#[derive(PartialEq, Eq, Structural, Clone, Copy, Debug)]
pub enum Stage {
    Idle,
    WaitingForCaller,
    BackingUp,
    Extracting,
    Relaunching,
    Done,
    Aborted,
}

/// What the work of the current stage turned out to be.
#[derive(PartialEq, Eq, Structural, Clone, Copy, Debug)]
pub enum Event {
    /// The run begins; a caller PID of zero means there is nobody to wait for.
    Started { caller_pid: u32 },
    CallerExited,
    CallerStillRunning,
    BackupMade,
    BackupNotNeeded,
    BackupFailed,
    Extracted,
    ExtractionFailed,
    Relaunched,
    RelaunchFailed,
}

/// The work that a stage asks for.
#[derive(PartialEq, Eq, Structural, Clone, Copy, Debug)]
pub enum Action {
    Start,
    WaitForCaller,
    Backup,
    Extract,
    Relaunch,
    Exit { code: i32 },
}

/// The stage after an event. An event that does not belong to the stage
/// leaves it as it is; the two terminal stages never change.
pub open spec fn next_stage(stage: Stage, event: Event) -> Stage {
    match (stage, event) {
        (Stage::Idle, Event::Started { caller_pid }) => if caller_pid != 0 {
            Stage::WaitingForCaller
        } else {
            Stage::BackingUp
        },
        (Stage::WaitingForCaller, Event::CallerExited) => Stage::BackingUp,
        (Stage::WaitingForCaller, Event::CallerStillRunning) => Stage::Aborted,
        (Stage::BackingUp, Event::BackupMade) => Stage::Extracting,
        (Stage::BackingUp, Event::BackupNotNeeded) => Stage::Extracting,
        (Stage::BackingUp, Event::BackupFailed) => Stage::Aborted,
        (Stage::Extracting, Event::Extracted) => Stage::Relaunching,
        (Stage::Extracting, Event::ExtractionFailed) => Stage::Aborted,
        (Stage::Relaunching, Event::Relaunched) => Stage::Done,
        (Stage::Relaunching, Event::RelaunchFailed) => Stage::Done,
        _ => stage,
    }
}

pub open spec fn action_of(stage: Stage) -> Action {
    match stage {
        Stage::Idle => Action::Start,
        Stage::WaitingForCaller => Action::WaitForCaller,
        Stage::BackingUp => Action::Backup,
        Stage::Extracting => Action::Extract,
        Stage::Relaunching => Action::Relaunch,
        Stage::Done => Action::Exit { code: 0 },
        Stage::Aborted => Action::Exit { code: 1 },
    }
}

/// Moves the run on by one event. A failed relaunch still ends in `Done`: the
/// files were updated, only the automatic start failed.
pub fn advance(stage: Stage, event: Event) -> (r: Stage)
    ensures
        r == next_stage(stage, event),
{
    match (stage, event) {
        (Stage::Idle, Event::Started { caller_pid }) => if caller_pid != 0 {
            Stage::WaitingForCaller
        } else {
            Stage::BackingUp
        },
        (Stage::WaitingForCaller, Event::CallerExited) => Stage::BackingUp,
        (Stage::WaitingForCaller, Event::CallerStillRunning) => Stage::Aborted,
        (Stage::BackingUp, Event::BackupMade) => Stage::Extracting,
        (Stage::BackingUp, Event::BackupNotNeeded) => Stage::Extracting,
        (Stage::BackingUp, Event::BackupFailed) => Stage::Aborted,
        (Stage::Extracting, Event::Extracted) => Stage::Relaunching,
        (Stage::Extracting, Event::ExtractionFailed) => Stage::Aborted,
        (Stage::Relaunching, Event::Relaunched) => Stage::Done,
        (Stage::Relaunching, Event::RelaunchFailed) => Stage::Done,
        _ => stage,
    }
}

/// The work to do in a stage; the terminal stages exit, with 0 for `Done` only.
pub fn action_for(stage: Stage) -> (r: Action)
    ensures
        r == action_of(stage),
{
    match stage {
        Stage::Idle => Action::Start,
        Stage::WaitingForCaller => Action::WaitForCaller,
        Stage::BackingUp => Action::Backup,
        Stage::Extracting => Action::Extract,
        Stage::Relaunching => Action::Relaunch,
        Stage::Done => Action::Exit { code: 0 },
        Stage::Aborted => Action::Exit { code: 1 },
    }
}

/// The process exit code of a run that stopped in this stage.
pub fn exit_code(stage: Stage) -> (r: i32)
    ensures
        r == 0 <==> stage == Stage::Done,
        r == 0 || r == 1,
{
    match stage {
        Stage::Done => 0,
        _ => 1,
    }
}

/// A missing executable needs no backup, and the run goes on to extraction.
pub proof fn lemma_missing_executable_is_no_error()
    ensures
        next_stage(Stage::BackingUp, Event::BackupNotNeeded) == Stage::Extracting,
        action_of(next_stage(Stage::BackingUp, Event::BackupNotNeeded)) == Action::Extract,
{
}

/// What one look at the caller's process decides.
#[derive(PartialEq, Eq, Structural, Clone, Copy, Debug)]
pub enum WaitVerdict {
    /// The caller's process is gone.
    Exited,
    /// The PID now names this very process: the caller has already exited.
    Inherited,
    /// Still running: sleep and look again.
    KeepWaiting,
    /// Every retry is used up and the caller is still there.
    TimedOut,
}

/// The verdict at retry `attempt` (counted from 0), given the PID that the
/// process table shows under the caller's PID, if any.
pub open spec fn wait_verdict(
    caller_pid: u32,
    self_pid: u32,
    observed: Option<u32>,
    attempt: nat,
    max_retries: nat,
) -> WaitVerdict {
    if caller_pid == self_pid {
        WaitVerdict::Inherited
    } else if attempt >= max_retries {
        WaitVerdict::TimedOut
    } else {
        match observed {
            None => WaitVerdict::Exited,
            Some(pid) => if pid == self_pid {
                WaitVerdict::Inherited
            } else {
                WaitVerdict::KeepWaiting
            },
        }
    }
}

/// Decides one retry of the wait for the caller to exit.
pub fn wait_step(
    caller_pid: u32,
    self_pid: u32,
    observed: Option<u32>,
    attempt: usize,
    max_retries: usize,
) -> (r: WaitVerdict)
    ensures
        r == wait_verdict(caller_pid, self_pid, observed, attempt as nat, max_retries as nat),
{
    if caller_pid == self_pid {
        WaitVerdict::Inherited
    } else if attempt >= max_retries {
        WaitVerdict::TimedOut
    } else {
        match observed {
            None => WaitVerdict::Exited,
            Some(pid) => if pid == self_pid {
                WaitVerdict::Inherited
            } else {
                WaitVerdict::KeepWaiting
            },
        }
    }
}

/// Whether the verdict of a retry depends on the process table at all; where it
/// does not, the table need not be looked at.
pub fn needs_observation(caller_pid: u32, self_pid: u32, attempt: usize, max_retries: usize) -> (r: bool)
    ensures
        r == (caller_pid != self_pid && attempt < max_retries),
        !r ==> forall|a: Option<u32>, b: Option<u32>|
            #[trigger] wait_verdict(caller_pid, self_pid, a, attempt as nat, max_retries as nat)
                == #[trigger] wait_verdict(caller_pid, self_pid, b, attempt as nat, max_retries as nat),
{
    caller_pid != self_pid && attempt < max_retries
}

/// Whether a verdict ends the wait with the caller gone.
pub open spec fn wait_succeeded(v: WaitVerdict) -> bool {
    v == WaitVerdict::Exited || v == WaitVerdict::Inherited
}

/// A whole wait from retry `attempt` on, where `observations[i]` is what retry
/// `i` sees: the final verdict and the number of retries that said to keep waiting.
pub open spec fn wait_run(
    caller_pid: u32,
    self_pid: u32,
    observations: Seq<Option<u32>>,
    attempt: nat,
    max_retries: nat,
) -> (WaitVerdict, nat)
    decreases max_retries - attempt,
{
    let v = wait_verdict(caller_pid, self_pid, observations[attempt as int], attempt, max_retries);
    if v == WaitVerdict::KeepWaiting && attempt < max_retries {
        let rest = wait_run(caller_pid, self_pid, observations, attempt + 1, max_retries);
        (rest.0, rest.1 + 1)
    } else {
        (v, 0)
    }
}

/// When the caller's PID is this process's own, the wait succeeds at once,
/// whatever the process table shows.
pub proof fn lemma_own_pid_ends_wait(
    pid: u32,
    observations: Seq<Option<u32>>,
    max_retries: nat,
)
    ensures
        wait_run(pid, pid, observations, 0, max_retries) == (WaitVerdict::Inherited, 0nat),
{
}

/// When the caller stays in the process table under a PID other than this
/// process's, the wait fails after exactly `max_retries` retries.
pub proof fn lemma_wait_times_out(
    caller_pid: u32,
    self_pid: u32,
    observations: Seq<Option<u32>>,
    max_retries: nat,
)
    requires
        caller_pid != self_pid,
        forall|i: int|
            0 <= i < max_retries ==> (#[trigger] observations[i] matches Some(p) && p != self_pid),
    ensures
        wait_run(caller_pid, self_pid, observations, 0, max_retries) == (
            WaitVerdict::TimedOut,
            max_retries,
        ),
{
    lemma_wait_times_out_from(caller_pid, self_pid, observations, 0, max_retries);
}

proof fn lemma_wait_times_out_from(
    caller_pid: u32,
    self_pid: u32,
    observations: Seq<Option<u32>>,
    attempt: nat,
    max_retries: nat,
)
    requires
        caller_pid != self_pid,
        attempt <= max_retries,
        forall|i: int|
            0 <= i < max_retries ==> (#[trigger] observations[i] matches Some(p) && p != self_pid),
    ensures
        wait_run(caller_pid, self_pid, observations, attempt, max_retries) == (
            WaitVerdict::TimedOut,
            (max_retries - attempt) as nat,
        ),
    decreases max_retries - attempt,
{
    if attempt < max_retries {
        assert(observations[attempt as int] matches Some(p) && p != self_pid);
        lemma_wait_times_out_from(caller_pid, self_pid, observations, attempt + 1, max_retries);
    }
}

/// The name the installed executable is moved to before an update.
pub open spec fn backup_name_of(exe_name: Seq<char>, windows: bool) -> Seq<char> {
    if windows {
        exe_name + seq!['.', 'o', 'l', 'd']
    } else {
        exe_name + seq!['_', 'o', 'l', 'd']
    }
}

/// The backup name of an executable: `<name>.old` on Windows, `<name>_old` elsewhere.
pub fn backup_name(exe_name: &str, windows: bool) -> (r: String)
    ensures
        r@ == backup_name_of(exe_name@, windows),
{
    let mut name = String::from_str(exe_name);
    if windows {
        name.append(".old");
        proof {
            reveal_strlit(".old");
        }
    } else {
        name.append("_old");
        proof {
            reveal_strlit("_old");
        }
    }
    proof {
        assert(name@ =~= backup_name_of(exe_name@, windows));
    }
    name
}

} // verus!
