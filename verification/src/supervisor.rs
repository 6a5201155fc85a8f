//! Supervision of the one automation script that a session may have running.
//!
//! The supervisor decides and keeps track; the operating system work lies
//! with its caller. Before a launch the caller asks `prepare_launch` for the
//! path, tries to start the script there, and hands what happened to
//! `launch`. Before a termination it asks `prepare_terminate` for the line to
//! send, writes it to the script's input stream, and hands what happened to
//! `terminate`. The caller also keeps the operating system's handle of the
//! process, of which the supervisor holds the description.

use vstd::prelude::*;
use vstd::string::StringExecFns;
use crate::error::{SessionError, SessionErrorView};
use crate::messages::{script_path_spec, Choice};

verus! {

/// The program that runs the scripts; a script's path is its one argument.
pub const INTERPRETER: &'static str = "python";

/// The line that asks a running script to stop.
pub const SENTINEL: &'static str = "rs202300219928scenarioDONE";

/// The sentinel line as it is written to the script: the sentinel and a line
/// terminator.
pub open spec fn sentinel_line() -> Seq<char> {
    SENTINEL@ + "\n"@
}

/// The script process that is tracked.
#[derive(Debug, Clone, PartialEq, Eq)]
pub struct ProcessHandle {
    pub script_path: String,
    pub running: bool,
}

/// A tracked process, with its path as a sequence of characters.
pub struct ProcessHandleView {
    pub script_path: Seq<char>,
    pub running: bool,
}

impl View for ProcessHandle {
    type V = ProcessHandleView;

    open spec fn view(&self) -> ProcessHandleView {
        ProcessHandleView { script_path: self.script_path@, running: self.running }
    }
}

/// What came of an attempt to start a script.
#[derive(Debug, Clone, PartialEq, Eq)]
pub enum SpawnOutcome {
    /// No file exists at the script's path; nothing was started.
    Missing,
    /// The operating system refused to start the process, for the reason
    /// given.
    Failed(String),
    /// The process runs, with an input stream that can be written to.
    Spawned,
}

/// The outcome of a start, with its text as a sequence of characters.
pub enum SpawnOutcomeView {
    Missing,
    Failed(Seq<char>),
    Spawned,
}

impl View for SpawnOutcome {
    type V = SpawnOutcomeView;

    open spec fn view(&self) -> SpawnOutcomeView {
        match self {
            SpawnOutcome::Missing => SpawnOutcomeView::Missing,
            SpawnOutcome::Failed(cause) => SpawnOutcomeView::Failed(cause@),
            SpawnOutcome::Spawned => SpawnOutcomeView::Spawned,
        }
    }
}

/// What came of an attempt to write the sentinel line to the script.
#[derive(Debug, Clone, PartialEq, Eq)]
pub enum SignalOutcome {
    /// The line was written.
    Written,
    /// The process has no input stream to write to.
    NoStdin,
    /// The write failed, for the reason given.
    Failed(String),
}

/// The outcome of a write, with its text as a sequence of characters.
pub enum SignalOutcomeView {
    Written,
    NoStdin,
    Failed(Seq<char>),
}

impl View for SignalOutcome {
    type V = SignalOutcomeView;

    open spec fn view(&self) -> SignalOutcomeView {
        match self {
            SignalOutcome::Written => SignalOutcomeView::Written,
            SignalOutcome::NoStdin => SignalOutcomeView::NoStdin,
            SignalOutcome::Failed(cause) => SignalOutcomeView::Failed(cause@),
        }
    }
}

/// What a supervisor holds: the directory of the scripts and the tracked
/// process, if there is one.
pub struct SupervisorView {
    pub base_dir: Seq<char>,
    pub handle: Option<ProcessHandleView>,
}

/// A path or a failure, with the texts as sequences of characters.
pub open spec fn path_result_view(result: Result<String, SessionError>) -> Result<
    Seq<char>,
    SessionErrorView,
> {
    match result {
        Ok(path) => Ok(path@),
        Err(error) => Err(error@),
    }
}

/// Success or a failure, with the texts as sequences of characters.
pub open spec fn unit_result_view(result: Result<(), SessionError>) -> Result<
    (),
    SessionErrorView,
> {
    match result {
        Ok(done) => Ok(()),
        Err(error) => Err(error@),
    }
}

impl SupervisorView {
    /// The path of the script that a launch would start.
    pub open spec fn script_path(self, scenario: Choice, is_normal: bool) -> Seq<char> {
        script_path_spec(self.base_dir, scenario, is_normal)
    }

    /// Whether a launch may be tried, and on which path.
    pub open spec fn launch_plan(self, scenario: Choice, is_normal: bool) -> Result<
        Seq<char>,
        SessionErrorView,
    > {
        if self.handle is Some {
            Err(SessionErrorView::AlreadyRunning)
        } else {
            Ok(self.script_path(scenario, is_normal))
        }
    }

    /// What a launch returns.
    pub open spec fn launch_result(
        self,
        scenario: Choice,
        is_normal: bool,
        outcome: SpawnOutcomeView,
    ) -> Result<Seq<char>, SessionErrorView> {
        if self.handle is Some {
            Err(SessionErrorView::AlreadyRunning)
        } else {
            match outcome {
                SpawnOutcomeView::Missing => Err(
                    SessionErrorView::ScriptNotFound(self.script_path(scenario, is_normal)),
                ),
                SpawnOutcomeView::Failed(cause) => Err(SessionErrorView::LaunchError(cause)),
                SpawnOutcomeView::Spawned => Ok(self.script_path(scenario, is_normal)),
            }
        }
    }

    /// The supervisor after a launch: it tracks the new process where the
    /// launch succeeded, and is unchanged where it failed.
    pub open spec fn after_launch(
        self,
        scenario: Choice,
        is_normal: bool,
        outcome: SpawnOutcomeView,
    ) -> SupervisorView {
        if self.handle is None && outcome is Spawned {
            SupervisorView {
                base_dir: self.base_dir,
                handle: Some(
                    ProcessHandleView {
                        script_path: self.script_path(scenario, is_normal),
                        running: true,
                    },
                ),
            }
        } else {
            self
        }
    }

    /// Whether a termination may be tried, and with which line.
    pub open spec fn terminate_plan(self) -> Result<Seq<char>, SessionErrorView> {
        if self.handle is None {
            Err(SessionErrorView::NoProcessRunning)
        } else {
            Ok(sentinel_line())
        }
    }

    /// What a termination returns.
    pub open spec fn terminate_result(self, outcome: SignalOutcomeView) -> Result<
        (),
        SessionErrorView,
    > {
        if self.handle is None {
            Err(SessionErrorView::NoProcessRunning)
        } else {
            match outcome {
                SignalOutcomeView::Written => Ok(()),
                SignalOutcomeView::NoStdin => Err(SessionErrorView::StdinUnavailable),
                SignalOutcomeView::Failed(cause) => Err(SessionErrorView::TerminationError(cause)),
            }
        }
    }

    /// The supervisor after a termination: it tracks nothing once the line
    /// was written, and is unchanged otherwise.
    pub open spec fn after_terminate(self, outcome: SignalOutcomeView) -> SupervisorView {
        if self.handle is Some && outcome is Written {
            SupervisorView { base_dir: self.base_dir, handle: None }
        } else {
            self
        }
    }
}

/// Keeps track of at most one script process.
pub struct ProcessSupervisor {
    base_dir: String,
    handle: Option<ProcessHandle>,
}

impl View for ProcessSupervisor {
    type V = SupervisorView;

    closed spec fn view(&self) -> SupervisorView {
        SupervisorView {
            base_dir: self.base_dir@,
            handle: match self.handle {
                Some(handle) => Some(handle@),
                None => None,
            },
        }
    }
}

impl ProcessSupervisor {
    /// A supervisor that looks for scripts under `base_dir` and tracks no
    /// process.
    pub fn new(base_dir: &str) -> (supervisor: ProcessSupervisor)
        ensures
            supervisor@ == (SupervisorView { base_dir: base_dir@, handle: None }),
    {
        ProcessSupervisor { base_dir: String::from_str(base_dir), handle: None }
    }

    /// Whether a process is tracked.
    pub fn is_tracking(&self) -> (tracking: bool)
        ensures
            tracking == (self@.handle is Some),
    {
        self.handle.is_some()
    }

    /// The tracked process, if there is one.
    pub fn current(&self) -> (handle: Option<&ProcessHandle>)
        ensures
            handle is Some == self@.handle is Some,
            handle is Some ==> handle->0@ == self@.handle->0,
    {
        self.handle.as_ref()
    }

    /// The directory under which scripts are looked up.
    pub fn base_dir(&self) -> (dir: &str)
        ensures
            dir@ == self@.base_dir,
    {
        self.base_dir.as_str()
    }

    /// The path of the script for `scenario` in the given mode.
    pub fn resolve(&self, scenario: Choice, is_normal: bool) -> (path: String)
        ensures
            path@ == self@.script_path(scenario, is_normal),
    {
        scenario.script_path_in(self.base_dir.as_str(), is_normal)
    }

    /// Decides whether a launch may be tried: refused while a process is
    /// tracked, else to be tried on the path returned.
    pub fn prepare_launch(&self, scenario: Choice, is_normal: bool) -> (plan: Result<
        String,
        SessionError,
    >)
        ensures
            path_result_view(plan) == self@.launch_plan(scenario, is_normal),
    {
        if self.handle.is_some() {
            Err(SessionError::AlreadyRunning)
        } else {
            Ok(self.resolve(scenario, is_normal))
        }
    }

    /// Completes a launch, given what came of starting the script.
    ///
    /// While a process is tracked the launch fails with `AlreadyRunning`,
    /// whatever the outcome says, and nothing changes. Otherwise a missing
    /// script gives `ScriptNotFound` with the path, a refused start gives
    /// `LaunchError` with the reason, and a started process is tracked from
    /// now on, under the path that is returned.
    pub fn launch(&mut self, scenario: Choice, is_normal: bool, outcome: SpawnOutcome) -> (result:
        Result<String, SessionError>)
        ensures
            path_result_view(result) == old(self)@.launch_result(scenario, is_normal, outcome@),
            final(self)@ == old(self)@.after_launch(scenario, is_normal, outcome@),
            old(self)@.handle is Some ==> result == Err::<String, SessionError>(
                SessionError::AlreadyRunning,
            ) && final(self)@ == old(self)@,
    {
        if self.handle.is_some() {
            return Err(SessionError::AlreadyRunning);
        }
        let path = self.resolve(scenario, is_normal);
        match outcome {
            SpawnOutcome::Missing => Err(SessionError::ScriptNotFound(path)),
            SpawnOutcome::Failed(cause) => Err(SessionError::LaunchError(cause)),
            SpawnOutcome::Spawned => {
                self.handle = Some(ProcessHandle { script_path: path.clone(), running: true });
                Ok(path)
            },
        }
    }

    /// Decides whether a termination may be tried: refused while no process
    /// is tracked, else to be tried by writing the line returned.
    pub fn prepare_terminate(&self) -> (plan: Result<String, SessionError>)
        ensures
            path_result_view(plan) == self@.terminate_plan(),
    {
        if self.handle.is_none() {
            Err(SessionError::NoProcessRunning)
        } else {
            Ok(String::from_str(SENTINEL).concat("\n"))
        }
    }

    /// Completes a termination, given what came of writing the sentinel line.
    ///
    /// While no process is tracked the termination fails with
    /// `NoProcessRunning`, whatever the outcome says. Otherwise a written
    /// line ends the tracking at once, without waiting for the process to
    /// exit; a missing input stream gives `StdinUnavailable` and a failed
    /// write gives `TerminationError` with the reason, and both leave the
    /// process tracked.
    pub fn terminate(&mut self, outcome: SignalOutcome) -> (result: Result<(), SessionError>)
        ensures
            unit_result_view(result) == old(self)@.terminate_result(outcome@),
            final(self)@ == old(self)@.after_terminate(outcome@),
            old(self)@.handle is None ==> result == Err::<(), SessionError>(
                SessionError::NoProcessRunning,
            ) && final(self)@ == old(self)@,
    {
        if self.handle.is_none() {
            return Err(SessionError::NoProcessRunning);
        }
        match outcome {
            SignalOutcome::Written => {
                self.handle = None;
                Ok(())
            },
            SignalOutcome::NoStdin => Err(SessionError::StdinUnavailable),
            SignalOutcome::Failed(cause) => Err(SessionError::TerminationError(cause)),
        }
    }

    /// Reserved for the day on which the exit of the process is observed.
    /// Today it changes nothing.
    pub fn handle_completion(&mut self, success: bool, message: &str)
        ensures
            final(self)@ == old(self)@,
    {
    }
}

} // verus!
