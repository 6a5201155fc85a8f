//! The failures that a session can meet. None of them ends the session: the
//! controller turns each into a line of the log.

use vstd::prelude::*;
use vstd::string::StringExecFns;

verus! {

/// A failure of the event channel or of process supervision.
#[derive(Debug, Clone, PartialEq, Eq)]
pub enum SessionError {
    /// The consuming side of the event channel is gone.
    ChannelClosed,
    /// No script exists at the path, which is carried along.
    ScriptNotFound(String),
    /// A process is tracked already.
    AlreadyRunning,
    /// No process is tracked.
    NoProcessRunning,
    /// The operating system could not start the script; its reason is
    /// carried along.
    LaunchError(String),
    /// The sentinel line could not be written; the operating system's reason
    /// is carried along.
    TerminationError(String),
    /// The tracked process has no input stream to write to.
    StdinUnavailable,
}

/// A failure, with its texts as sequences of characters.
pub enum SessionErrorView {
    ChannelClosed,
    ScriptNotFound(Seq<char>),
    AlreadyRunning,
    NoProcessRunning,
    LaunchError(Seq<char>),
    TerminationError(Seq<char>),
    StdinUnavailable,
}

impl View for SessionError {
    type V = SessionErrorView;

    open spec fn view(&self) -> SessionErrorView {
        match self {
            SessionError::ChannelClosed => SessionErrorView::ChannelClosed,
            SessionError::ScriptNotFound(path) => SessionErrorView::ScriptNotFound(path@),
            SessionError::AlreadyRunning => SessionErrorView::AlreadyRunning,
            SessionError::NoProcessRunning => SessionErrorView::NoProcessRunning,
            SessionError::LaunchError(cause) => SessionErrorView::LaunchError(cause@),
            SessionError::TerminationError(cause) => SessionErrorView::TerminationError(cause@),
            SessionError::StdinUnavailable => SessionErrorView::StdinUnavailable,
        }
    }
}

impl SessionErrorView {
    /// The sentence that tells the user of the failure.
    pub open spec fn describe(self) -> Seq<char> {
        match self {
            SessionErrorView::ChannelClosed => {
                "Failed to send data through channel: sending on a closed channel"@
            },
            SessionErrorView::ScriptNotFound(path) => "Script file not found: "@ + path,
            SessionErrorView::AlreadyRunning => "Another script is already running. Please wait."@,
            SessionErrorView::NoProcessRunning => "No running script to terminate"@,
            SessionErrorView::LaunchError(cause) => "Failed to execute script: "@ + cause,
            SessionErrorView::TerminationError(cause) => "Failed to send termination signal: "@
                + cause,
            SessionErrorView::StdinUnavailable => "Failed to get stdin handle"@,
        }
    }
}

impl SessionError {
    /// The sentence that tells the user of the failure.
    pub fn describe(&self) -> (text: String)
        ensures
            text@ == self@.describe(),
    {
        match self {
            SessionError::ChannelClosed => {
                String::from_str("Failed to send data through channel: sending on a closed channel")
            },
            SessionError::ScriptNotFound(path) => {
                String::from_str("Script file not found: ").concat(path.as_str())
            },
            SessionError::AlreadyRunning => {
                String::from_str("Another script is already running. Please wait.")
            },
            SessionError::NoProcessRunning => String::from_str("No running script to terminate"),
            SessionError::LaunchError(cause) => {
                String::from_str("Failed to execute script: ").concat(cause.as_str())
            },
            SessionError::TerminationError(cause) => {
                String::from_str("Failed to send termination signal: ").concat(cause.as_str())
            },
            SessionError::StdinUnavailable => String::from_str("Failed to get stdin handle"),
        }
    }
}

} // verus!
