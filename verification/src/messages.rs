//! The vocabulary of the session: commands, log classifications and the
//! scenario choices, with the script naming convention of the scenarios.

use vstd::prelude::*;
use vstd::string::StringExecFns;

verus! {

/// Directory under which the automation scripts are looked up by default.
pub const DEFAULT_BASE_DIR: &'static str = "D:\\Dev.Space\\python\\default\\automation_script\\";

/// Origin tag of a log entry.
#[derive(Clone, Copy, Debug, PartialEq, Eq, Structural)]
pub enum LogType {
    /// Produced by the controller itself, or carrying no origin marker.
    Normal,
    /// Carries the serial marker.
    SerialSource,
    /// Carries the server marker.
    NetworkSource,
}

/// A command to the session controller. Commands come from the user, from
/// the poll timer, from the completion of a launch or a termination, and from
/// the controller itself, which queues the follow-ups of a command behind
/// whatever waits already.
#[derive(Debug, Clone, PartialEq, Eq)]
pub enum Message {
    /// Start the chosen scenario's script in normal mode.
    NormalCreation,
    /// Start the chosen scenario's script in abnormal mode.
    AbnormalCreation,
    /// Take in what the event channel holds.
    IncomingDataPoll,
    /// The user moved the viewport to the offset given, in thousandths.
    ViewportMoved(u32),
    /// Flip between following the newest entry and manual scrolling.
    ToggleAutoFollow,
    /// Deliver a snap to the end to the presentation layer.
    SnapToEnd,
    /// Choose a scenario.
    SelectScenario(Choice),
    /// Open or close the scenario dropdown.
    ToggleDropdown,
    /// Close the scenario dropdown.
    DropdownDismiss,
    /// Ask the running script to stop.
    TerminateRequested,
    /// A launch succeeded, on the path given.
    LaunchSucceeded(String),
    /// A launch failed, for the reason given.
    LaunchFailed(String),
    /// The stop request was delivered.
    TerminateSucceeded,
    /// The stop request could not be made or delivered, for the reason given.
    TerminateFailed(String),
}

/// A command, with its texts as sequences of characters.
pub enum MessageView {
    NormalCreation,
    AbnormalCreation,
    IncomingDataPoll,
    ViewportMoved(u32),
    ToggleAutoFollow,
    SnapToEnd,
    SelectScenario(Choice),
    ToggleDropdown,
    DropdownDismiss,
    TerminateRequested,
    LaunchSucceeded(Seq<char>),
    LaunchFailed(Seq<char>),
    TerminateSucceeded,
    TerminateFailed(Seq<char>),
}

impl View for Message {
    type V = MessageView;

    open spec fn view(&self) -> MessageView {
        match self {
            Message::NormalCreation => MessageView::NormalCreation,
            Message::AbnormalCreation => MessageView::AbnormalCreation,
            Message::IncomingDataPoll => MessageView::IncomingDataPoll,
            Message::ViewportMoved(offset) => MessageView::ViewportMoved(*offset),
            Message::ToggleAutoFollow => MessageView::ToggleAutoFollow,
            Message::SnapToEnd => MessageView::SnapToEnd,
            Message::SelectScenario(choice) => MessageView::SelectScenario(*choice),
            Message::ToggleDropdown => MessageView::ToggleDropdown,
            Message::DropdownDismiss => MessageView::DropdownDismiss,
            Message::TerminateRequested => MessageView::TerminateRequested,
            Message::LaunchSucceeded(path) => MessageView::LaunchSucceeded(path@),
            Message::LaunchFailed(reason) => MessageView::LaunchFailed(reason@),
            Message::TerminateSucceeded => MessageView::TerminateSucceeded,
            Message::TerminateFailed(reason) => MessageView::TerminateFailed(reason@),
        }
    }
}

/// Work that the controller asks of its host: the presentation layer and
/// the operating system.
#[derive(Debug, Clone, PartialEq, Eq)]
pub enum Directive {
    /// Move the log's viewport to the newest entry.
    SnapToEnd,
    /// Start the script at `path`, with an input stream that can be written
    /// to, and report what came of it together with `scenario` and
    /// `is_normal`.
    Spawn { scenario: Choice, is_normal: bool, path: String },
    /// Write `line` to the input stream of the running script, and report
    /// what came of it.
    SendLine { line: String },
}

/// A directive, with its texts as sequences of characters.
pub enum DirectiveView {
    SnapToEnd,
    Spawn { scenario: Choice, is_normal: bool, path: Seq<char> },
    SendLine { line: Seq<char> },
}

impl View for Directive {
    type V = DirectiveView;

    open spec fn view(&self) -> DirectiveView {
        match self {
            Directive::SnapToEnd => DirectiveView::SnapToEnd,
            Directive::Spawn { scenario, is_normal, path } => DirectiveView::Spawn {
                scenario: *scenario,
                is_normal: *is_normal,
                path: path@,
            },
            Directive::SendLine { line } => DirectiveView::SendLine { line: line@ },
        }
    }
}

/// A directive or none, with its texts as sequences of characters.
pub open spec fn directive_view(directive: Option<Directive>) -> Option<DirectiveView> {
    match directive {
        Some(d) => Some(d@),
        None => None,
    }
}

/// One of the eight predefined automation scenarios.
#[derive(Clone, Copy, Debug, PartialEq, Eq, Structural, Default)]
pub enum Choice {
    #[default]
    Scenario1,
    Scenario2,
    Scenario3,
    Scenario4,
    Scenario5,
    Scenario6,
    Scenario7,
    Scenario8,
}

impl Choice {
    /// The scenario's number, from 1 to 8.
    pub open spec fn number_spec(self) -> int {
        match self {
            Choice::Scenario1 => 1,
            Choice::Scenario2 => 2,
            Choice::Scenario3 => 3,
            Choice::Scenario4 => 4,
            Choice::Scenario5 => 5,
            Choice::Scenario6 => 6,
            Choice::Scenario7 => 7,
            Choice::Scenario8 => 8,
        }
    }

    /// The name shown to the user, such as `Scenario 3`.
    pub open spec fn label_spec(self) -> Seq<char> {
        match self {
            Choice::Scenario1 => "Scenario 1"@,
            Choice::Scenario2 => "Scenario 2"@,
            Choice::Scenario3 => "Scenario 3"@,
            Choice::Scenario4 => "Scenario 4"@,
            Choice::Scenario5 => "Scenario 5"@,
            Choice::Scenario6 => "Scenario 6"@,
            Choice::Scenario7 => "Scenario 7"@,
            Choice::Scenario8 => "Scenario 8"@,
        }
    }

    /// The identifier that starts the scenario's script file names, such as
    /// `scenario3`.
    pub open spec fn script_name_spec(self) -> Seq<char> {
        match self {
            Choice::Scenario1 => "scenario1"@,
            Choice::Scenario2 => "scenario2"@,
            Choice::Scenario3 => "scenario3"@,
            Choice::Scenario4 => "scenario4"@,
            Choice::Scenario5 => "scenario5"@,
            Choice::Scenario6 => "scenario6"@,
            Choice::Scenario7 => "scenario7"@,
            Choice::Scenario8 => "scenario8"@,
        }
    }

    /// The scenario's number, from 1 to 8.
    pub fn number(&self) -> (n: u8)
        ensures
            n == self.number_spec(),
            1 <= n <= 8,
    {
        match self {
            Choice::Scenario1 => 1,
            Choice::Scenario2 => 2,
            Choice::Scenario3 => 3,
            Choice::Scenario4 => 4,
            Choice::Scenario5 => 5,
            Choice::Scenario6 => 6,
            Choice::Scenario7 => 7,
            Choice::Scenario8 => 8,
        }
    }

    /// The name shown to the user, such as `Scenario 3`.
    pub fn label(&self) -> (name: &'static str)
        ensures
            name@ == self.label_spec(),
    {
        match self {
            Choice::Scenario1 => "Scenario 1",
            Choice::Scenario2 => "Scenario 2",
            Choice::Scenario3 => "Scenario 3",
            Choice::Scenario4 => "Scenario 4",
            Choice::Scenario5 => "Scenario 5",
            Choice::Scenario6 => "Scenario 6",
            Choice::Scenario7 => "Scenario 7",
            Choice::Scenario8 => "Scenario 8",
        }
    }

    /// The name shown to the user, as an owned text.
    pub fn to_string(&self) -> (name: String)
        ensures
            name@ == self.label_spec(),
    {
        String::from_str(self.label())
    }

    /// The identifier that starts the scenario's script file names.
    pub fn script_name(&self) -> (name: &'static str)
        ensures
            name@ == self.script_name_spec(),
    {
        match self {
            Choice::Scenario1 => "scenario1",
            Choice::Scenario2 => "scenario2",
            Choice::Scenario3 => "scenario3",
            Choice::Scenario4 => "scenario4",
            Choice::Scenario5 => "scenario5",
            Choice::Scenario6 => "scenario6",
            Choice::Scenario7 => "scenario7",
            Choice::Scenario8 => "scenario8",
        }
    }

    /// The path of the scenario's script under `base_dir`: the directory,
    /// the script name, an underscore, the mode suffix and `.py`.
    pub fn script_path_in(&self, base_dir: &str, is_normal: bool) -> (path: String)
        ensures
            path@ == script_path_spec(base_dir@, *self, is_normal),
    {
        let mut path = String::from_str(base_dir);
        path.append(self.script_name());
        path.append("_");
        path.append(mode_suffix(is_normal));
        path.append(".py");
        path
    }

    /// The path of the scenario's script under the default directory.
    pub fn get_script_path(&self, is_normal: bool) -> (path: String)
        ensures
            path@ == script_path_spec(DEFAULT_BASE_DIR@, *self, is_normal),
    {
        self.script_path_in(DEFAULT_BASE_DIR, is_normal)
    }
}

/// The part of a script's file name that tells the two modes apart.
pub open spec fn mode_suffix_spec(is_normal: bool) -> Seq<char> {
    if is_normal {
        "auto"@
    } else {
        "abnormal"@
    }
}

/// The path that the naming convention gives a scenario's script.
pub open spec fn script_path_spec(base_dir: Seq<char>, choice: Choice, is_normal: bool) -> Seq<
    char,
> {
    base_dir + choice.script_name_spec() + "_"@ + mode_suffix_spec(is_normal) + ".py"@
}

/// The part of a script's file name that tells the two modes apart: `auto`
/// for the normal mode, `abnormal` otherwise.
pub fn mode_suffix(is_normal: bool) -> (suffix: &'static str)
    ensures
        suffix@ == mode_suffix_spec(is_normal),
{
    if is_normal {
        "auto"
    } else {
        "abnormal"
    }
}

/// The eight scenarios, in the order in which they are offered.
pub fn choices() -> (all: Vec<Choice>)
    ensures
        all@ == seq![
            Choice::Scenario1,
            Choice::Scenario2,
            Choice::Scenario3,
            Choice::Scenario4,
            Choice::Scenario5,
            Choice::Scenario6,
            Choice::Scenario7,
            Choice::Scenario8,
        ],
{
    vec![
        Choice::Scenario1,
        Choice::Scenario2,
        Choice::Scenario3,
        Choice::Scenario4,
        Choice::Scenario5,
        Choice::Scenario6,
        Choice::Scenario7,
        Choice::Scenario8,
    ]
}

} // verus!
