//! The session controller: the one owner of a session's state, which takes
//! commands from a queue, one at a time and in their order, and applies each
//! to the log, the scroll policy, the scenario selection and the process
//! supervisor.
//!
//! The controller does no operating system work and shows nothing. Where a
//! command needs either, the step that handles it returns a `Directive`, and
//! the host that runs the controller carries it out: it snaps the viewport,
//! or starts the script and reports through `complete_launch`, or writes the
//! line and reports through `complete_terminate`. Whatever follows from a
//! command inside the controller is queued behind the commands that wait
//! already.

use vstd::prelude::*;
use vstd::string::StringExecFns;
use std::collections::VecDeque;
use crate::channel::EventChannel;
use crate::clock::now_stamp;
use crate::error::SessionErrorView;
use crate::log_store::{
    append_spec,
    classified,
    classified_all,
    plain,
    retain_recent,
    texts_of,
    views_of,
    LogEntry,
    LogEntryView,
    LogStore,
    CAPACITY,
};
use crate::messages::{directive_view, Choice, Directive, DirectiveView, Message, MessageView};
use crate::scroll::{ScrollState, OFFSET_END};
use crate::selection::SelectionState;
use crate::supervisor::{
    ProcessSupervisor,
    SignalOutcome,
    SignalOutcomeView,
    SpawnOutcome,
    SpawnOutcomeView,
    SupervisorView,
};

verus! {

/// The time between two polls of the event channel, in milliseconds.
pub const POLL_PERIOD_MS: u64 = 100;

/// The line with which every session's log starts.
pub const STARTUP_LINE: &'static str = "Application started";

/// A line of the controller's own: the time stamp, a blank, and what is
/// reported.
pub open spec fn stamped(stamp: Seq<char>, body: Seq<char>) -> Seq<char> {
    stamp + " "@ + body
}

/// What is reported of a creation command.
pub open spec fn creation_text(is_normal: bool) -> Seq<char> {
    if is_normal {
        "Normal Creation button is pressed."@
    } else {
        "Abnormal Creation button is pressed."@
    }
}

/// What is reported of the choice of a scenario.
pub open spec fn selection_text(choice: Choice) -> Seq<char> {
    choice.label_spec() + " is selected."@
}

/// What is reported before the running script is asked to stop.
pub open spec fn terminate_intent_text() -> Seq<char> {
    "Attempting to terminate current scenario..."@
}

/// What is reported of a launch that succeeded on `path`.
pub open spec fn launch_success_text(path: Seq<char>) -> Seq<char> {
    "Successfully started script: "@ + path
}

/// What is reported of a stop request that was delivered.
pub open spec fn terminate_success_text() -> Seq<char> {
    "Termination signal sent successfully"@
}

/// What is reported of a failure with the given reason.
pub open spec fn failure_text(reason: Seq<char>) -> Seq<char> {
    "Error: "@ + reason
}

/// The state of a session, as its commands change it.
pub struct SessionView {
    /// The log, oldest entry first.
    pub log: Seq<LogEntryView>,
    /// The scroll policy.
    pub scroll: ScrollState,
    /// The scenario choice and its dropdown.
    pub selection: SelectionState,
    /// The process supervisor.
    pub supervisor: SupervisorView,
    /// Whether the last creation command asked for the normal mode.
    pub mode_is_normal: bool,
    /// The running indicator that is shown to the user.
    pub running: bool,
    /// The commands that wait, the next one first.
    pub queue: Seq<MessageView>,
}

/// What a step leaves: the state, and the work that it asks of the host.
pub struct Outcome {
    pub state: SessionView,
    pub directive: Option<DirectiveView>,
}

/// The commands of a queue, with their texts as sequences of characters.
pub open spec fn messages_of(queue: Seq<Message>) -> Seq<MessageView> {
    queue.map_values(|m: Message| m@)
}

/// The state in which a session starts: the startup line in the log,
/// following the newest entry, the first scenario chosen, no process, and
/// nothing queued.
pub open spec fn initial_view(base_dir: Seq<char>) -> SessionView {
    SessionView {
        log: seq![plain(STARTUP_LINE@)],
        scroll: ScrollState { auto_follow: true, last_offset: OFFSET_END },
        selection: SelectionState { choice: Choice::Scenario1, dropdown_open: false },
        supervisor: SupervisorView { base_dir, handle: None },
        mode_is_normal: true,
        running: false,
        queue: Seq::empty(),
    }
}

impl SessionView {
    /// The log is within its capacity and the scroll offset within the
    /// scrollable height.
    pub open spec fn wf(self) -> bool {
        &&& self.log.len() <= CAPACITY
        &&& self.scroll.wf()
    }

    /// The state with one more line of the controller's own in the log.
    pub open spec fn noted(self, line: Seq<char>) -> SessionView {
        SessionView { log: append_spec(self.log, plain(line)), ..self }
    }

    /// The state with one more command at the tail of the queue.
    pub open spec fn queued(self, message: MessageView) -> SessionView {
        SessionView { queue: self.queue.push(message), ..self }
    }

    /// The state after the scroll policy was told of `appended` new entries:
    /// a snap to the end is queued where it asks for one.
    pub open spec fn snapped(self, appended: nat) -> SessionView {
        if self.scroll.after_append_spec(appended) is Some {
            self.queued(MessageView::SnapToEnd)
        } else {
            self
        }
    }

    /// This state, with nothing asked of the host.
    pub open spec fn quiet(self) -> Outcome {
        Outcome { state: self, directive: None }
    }

    /// A creation command: the press is logged and the mode noted; then a
    /// launch of the chosen scenario is asked of the host, or, while a
    /// process is tracked, its refusal is queued.
    pub open spec fn created(self, is_normal: bool, stamp: Seq<char>) -> Outcome {
        let noted = SessionView {
            mode_is_normal: is_normal,
            ..self.noted(stamped(stamp, creation_text(is_normal)))
        };
        match noted.supervisor.launch_plan(noted.selection.choice, is_normal) {
            Ok(path) => Outcome {
                state: noted.snapped(1),
                directive: Some(
                    DirectiveView::Spawn { scenario: noted.selection.choice, is_normal, path },
                ),
            },
            Err(error) => noted.queued(MessageView::LaunchFailed(error.describe())).snapped(
                1,
            ).quiet(),
        }
    }

    /// A poll: the lines that the channel held go into the log, each with
    /// its classification.
    pub open spec fn ingested(self, texts: Seq<Seq<char>>) -> Outcome {
        SessionView {
            log: retain_recent(self.log + classified_all(texts), CAPACITY as nat),
            ..self
        }.snapped(texts.len()).quiet()
    }

    /// The auto-follow switch: the mode flips, and a snap to the end is
    /// queued where the following mode is entered.
    pub open spec fn follow_toggled(self) -> Outcome {
        let flipped = SessionView { scroll: self.scroll.toggled(), ..self };
        if flipped.scroll.auto_follow {
            flipped.queued(MessageView::SnapToEnd).quiet()
        } else {
            flipped.quiet()
        }
    }

    /// The choice of a scenario: it is the current one, the dropdown closes,
    /// and the choice is logged.
    pub open spec fn scenario_selected(self, choice: Choice, stamp: Seq<char>) -> Outcome {
        SessionView { selection: self.selection.selected(choice), ..self }.noted(
            stamped(stamp, selection_text(choice)),
        ).snapped(1).quiet()
    }

    /// A request to stop the script: nothing while the running indicator is
    /// off; else the intent is logged, and the sentinel line is handed to the
    /// host, or, while no process is tracked, the refusal is queued.
    pub open spec fn terminate_requested(self, stamp: Seq<char>) -> Outcome {
        if !self.running {
            self.quiet()
        } else {
            let noted = self.noted(stamped(stamp, terminate_intent_text()));
            match noted.supervisor.terminate_plan() {
                Ok(line) => Outcome {
                    state: noted.snapped(1),
                    directive: Some(DirectiveView::SendLine { line }),
                },
                Err(error) => noted.queued(
                    MessageView::TerminateFailed(error.describe()),
                ).snapped(1).quiet(),
            }
        }
    }

    /// The report of something that happened: it is logged.
    pub open spec fn reported(self, stamp: Seq<char>, body: Seq<char>) -> Outcome {
        self.noted(stamped(stamp, body)).snapped(1).quiet()
    }

    /// The state and the directive that one command leaves, given the time
    /// stamp of the moment and, for a poll, the lines that the channel held.
    pub open spec fn update(self, message: MessageView, stamp: Seq<char>, texts: Seq<Seq<char>>)
        -> Outcome {
        match message {
            MessageView::NormalCreation => self.created(true, stamp),
            MessageView::AbnormalCreation => self.created(false, stamp),
            MessageView::IncomingDataPoll => self.ingested(texts),
            MessageView::ViewportMoved(offset) => SessionView {
                scroll: self.scroll.moved(offset),
                ..self
            }.quiet(),
            MessageView::ToggleAutoFollow => self.follow_toggled(),
            MessageView::SnapToEnd => Outcome {
                state: self,
                directive: Some(DirectiveView::SnapToEnd),
            },
            MessageView::SelectScenario(choice) => self.scenario_selected(choice, stamp),
            MessageView::ToggleDropdown => SessionView {
                selection: self.selection.dropdown_toggled(),
                ..self
            }.quiet(),
            MessageView::DropdownDismiss => SessionView {
                selection: self.selection.dismissed(),
                ..self
            }.quiet(),
            MessageView::TerminateRequested => self.terminate_requested(stamp),
            MessageView::LaunchSucceeded(path) => self.reported(stamp, launch_success_text(path)),
            MessageView::LaunchFailed(reason) => self.reported(stamp, failure_text(reason)),
            MessageView::TerminateSucceeded => SessionView {
                running: self.supervisor.handle is Some,
                ..self
            }.reported(stamp, terminate_success_text()),
            MessageView::TerminateFailed(reason) => self.reported(stamp, failure_text(reason)),
        }
    }

    /// The state and the directive that the next step leaves: the command at
    /// the head of the queue is taken off and applied; with nothing queued,
    /// nothing happens.
    pub open spec fn step(self, stamp: Seq<char>, texts: Seq<Seq<char>>) -> Outcome {
        if self.queue.len() == 0 {
            self.quiet()
        } else {
            SessionView { queue: self.queue.drop_first(), ..self }.update(
                self.queue[0],
                stamp,
                texts,
            )
        }
    }

    /// The state after the host reported what came of starting a script: the
    /// supervisor completes the launch, the running indicator follows it,
    /// and the result is queued as a command.
    pub open spec fn launch_completed(
        self,
        scenario: Choice,
        is_normal: bool,
        outcome: SpawnOutcomeView,
    ) -> SessionView {
        let supervisor = self.supervisor.after_launch(scenario, is_normal, outcome);
        let settled = SessionView { supervisor, running: supervisor.handle is Some, ..self };
        match self.supervisor.launch_result(scenario, is_normal, outcome) {
            Ok(path) => settled.queued(MessageView::LaunchSucceeded(path)),
            Err(error) => settled.queued(MessageView::LaunchFailed(error.describe())),
        }
    }

    /// The state after the host reported what came of writing the sentinel
    /// line: the supervisor completes the termination, and the result is
    /// queued as a command.
    pub open spec fn terminate_completed(self, outcome: SignalOutcomeView) -> SessionView {
        let settled = SessionView {
            supervisor: self.supervisor.after_terminate(outcome),
            ..self
        };
        match self.supervisor.terminate_result(outcome) {
            Ok(done) => settled.queued(MessageView::TerminateSucceeded),
            Err(error) => settled.queued(MessageView::TerminateFailed(error.describe())),
        }
    }
}

/// What the presentation layer is shown of a session. It can be read and
/// nothing else.
pub struct Snapshot<'a> {
    /// The log entries, oldest first.
    pub entries: &'a Vec<LogEntry>,
    /// Whether the view follows the newest entry.
    pub auto_follow: bool,
    /// The running indicator.
    pub running: bool,
    /// The scenario that is chosen.
    pub selection: Choice,
    /// Whether the scenario dropdown is open.
    pub dropdown_open: bool,
}

/// The controller of one session.
pub struct SessionController {
    log: LogStore,
    scroll: ScrollState,
    selection: SelectionState,
    supervisor: ProcessSupervisor,
    mode_is_normal: bool,
    running: bool,
    queue: VecDeque<Message>,
    channel: EventChannel,
}

impl View for SessionController {
    type V = SessionView;

    closed spec fn view(&self) -> SessionView {
        SessionView {
            log: self.log@,
            scroll: self.scroll,
            selection: self.selection,
            supervisor: self.supervisor@,
            mode_is_normal: self.mode_is_normal,
            running: self.running,
            queue: messages_of(self.queue@),
        }
    }
}

/// A line of the controller's own: the time stamp, a blank, and what is
/// reported.
pub fn stamped_line(stamp: &str, body: &str) -> (line: String)
    ensures
        line@ == stamped(stamp@, body@),
{
    let mut line = String::from_str(stamp);
    line.append(" ");
    line.append(body);
    line
}

impl SessionController {
    /// The log is within its capacity and the scroll offset within the
    /// scrollable height. Every controller that this module hands out is so,
    /// and every operation keeps it so.
    pub open spec fn wf(&self) -> bool {
        self@.wf()
    }

    /// A controller at the start of a session, which reads events from
    /// `channel` and looks for scripts under `base_dir`.
    pub fn new(channel: EventChannel, base_dir: &str) -> (controller: SessionController)
        ensures
            controller@ == initial_view(base_dir@),
            controller.wf(),
    {
        let mut log = LogStore::new();
        log.append_entry(LogEntry::normal(String::from_str(STARTUP_LINE)));
        let controller = SessionController {
            log,
            scroll: ScrollState::new(),
            selection: SelectionState::new(),
            supervisor: ProcessSupervisor::new(base_dir),
            mode_is_normal: true,
            running: false,
            queue: VecDeque::new(),
            channel,
        };
        proof {
            assert(controller@.log =~= seq![plain(STARTUP_LINE@)]);
            assert(controller@.queue =~= Seq::<MessageView>::empty());
        }
        controller
    }

    /// Appends a line of the controller's own to the log.
    fn note(&mut self, line: String)
        ensures
            final(self)@ == old(self)@.noted(line@),
    {
        self.log.append_entry(LogEntry::normal(line));
    }

    /// Puts a command at the tail of the queue.
    fn enqueue(&mut self, message: Message)
        ensures
            final(self)@ == old(self)@.queued(message@),
    {
        self.queue.push_back(message);
        proof {
            assert(messages_of(self.queue@) =~= messages_of(old(self).queue@).push(message@));
        }
    }

    /// Tells the scroll policy of `appended` new entries, and queues the snap
    /// to the end that it may ask for.
    fn snap_after(&mut self, appended: usize)
        ensures
            final(self)@ == old(self)@.snapped(appended as nat),
    {
        if self.scroll.after_append(appended).is_some() {
            self.enqueue(Message::SnapToEnd);
        }
    }

    /// Logs what is reported, under the time stamp.
    fn report(&mut self, stamp: &str, body: &str)
        ensures
            final(self)@ == old(self)@.reported(stamp@, body@).state,
    {
        self.note(stamped_line(stamp, body));
        self.snap_after(1);
    }

    /// Handles a creation command.
    fn create(&mut self, is_normal: bool, stamp: &str) -> (directive: Option<Directive>)
        ensures
            final(self)@ == old(self)@.created(is_normal, stamp@).state,
            directive_view(directive) == old(self)@.created(is_normal, stamp@).directive,
    {
        let body = if is_normal {
            "Normal Creation button is pressed."
        } else {
            "Abnormal Creation button is pressed."
        };
        self.note(stamped_line(stamp, body));
        self.mode_is_normal = is_normal;
        let scenario = self.selection.choice;
        match self.supervisor.prepare_launch(scenario, is_normal) {
            Ok(path) => {
                self.snap_after(1);
                Some(Directive::Spawn { scenario, is_normal, path })
            },
            Err(error) => {
                self.enqueue(Message::LaunchFailed(error.describe()));
                self.snap_after(1);
                None
            },
        }
    }

    /// Handles a poll that found `batch` in the channel.
    fn ingest(&mut self, batch: Vec<String>)
        requires
            old(self).wf(),
        ensures
            final(self)@ == old(self)@.ingested(texts_of(batch@)).state,
    {
        let count = batch.len();
        self.log.append_batch(batch);
        self.snap_after(count);
    }

    /// Handles the auto-follow switch.
    fn toggle_follow(&mut self)
        ensures
            final(self)@ == old(self)@.follow_toggled().state,
    {
        if self.scroll.toggle_auto_follow().is_some() {
            self.enqueue(Message::SnapToEnd);
        }
    }

    /// Handles the choice of a scenario.
    fn select_scenario(&mut self, choice: Choice, stamp: &str)
        ensures
            final(self)@ == old(self)@.scenario_selected(choice, stamp@).state,
    {
        self.selection.select(choice);
        let body = String::from_str(choice.label()).concat(" is selected.");
        self.report(stamp, body.as_str());
    }

    /// Handles a request to stop the script.
    fn request_terminate(&mut self, stamp: &str) -> (directive: Option<Directive>)
        ensures
            final(self)@ == old(self)@.terminate_requested(stamp@).state,
            directive_view(directive) == old(self)@.terminate_requested(stamp@).directive,
    {
        if !self.running {
            return None;
        }
        self.note(stamped_line(stamp, "Attempting to terminate current scenario..."));
        match self.supervisor.prepare_terminate() {
            Ok(line) => {
                self.snap_after(1);
                Some(Directive::SendLine { line })
            },
            Err(error) => {
                self.enqueue(Message::TerminateFailed(error.describe()));
                self.snap_after(1);
                None
            },
        }
    }

    /// Handles the news that a launch succeeded on `path`.
    fn launch_succeeded(&mut self, path: &str, stamp: &str)
        ensures
            final(self)@ == old(self)@.reported(stamp@, launch_success_text(path@)).state,
    {
        let body = String::from_str("Successfully started script: ").concat(path);
        self.report(stamp, body.as_str());
        self.supervisor.handle_completion(true, body.as_str());
    }

    /// Handles the news that a launch failed for `reason`.
    fn launch_failed(&mut self, reason: &str, stamp: &str)
        ensures
            final(self)@ == old(self)@.reported(stamp@, failure_text(reason@)).state,
    {
        let body = String::from_str("Error: ").concat(reason);
        self.report(stamp, body.as_str());
        self.supervisor.handle_completion(false, reason);
    }

    /// Handles the news that the stop request was delivered: the running
    /// indicator follows the supervisor.
    fn terminate_succeeded(&mut self, stamp: &str)
        ensures
            final(self)@ == (SessionView {
                running: old(self)@.supervisor.handle is Some,
                ..old(self)@
            }).reported(stamp@, terminate_success_text()).state,
    {
        self.running = self.supervisor.is_tracking();
        self.report(stamp, "Termination signal sent successfully");
    }

    /// Handles the news that the stop request failed for `reason`.
    fn terminate_failed(&mut self, reason: &str, stamp: &str)
        ensures
            final(self)@ == old(self)@.reported(stamp@, failure_text(reason@)).state,
    {
        let body = String::from_str("Error: ").concat(reason);
        self.report(stamp, body.as_str());
    }

    /// Queues a command behind those that wait.
    pub fn post(&mut self, message: Message)
        ensures
            final(self)@ == old(self)@.queued(message@),
            old(self).wf() ==> final(self).wf(),
    {
        self.enqueue(message);
    }

    /// The number of commands that wait.
    pub fn pending(&self) -> (count: usize)
        ensures
            count == self@.queue.len(),
    {
        self.queue.len()
    }

    /// Whether any command waits.
    pub fn has_pending(&self) -> (waiting: bool)
        ensures
            waiting == (self@.queue.len() > 0),
    {
        self.queue.len() > 0
    }

    /// Whether the next command in the queue is a poll.
    pub fn poll_is_next(&self) -> (poll: bool)
        ensures
            poll == (self@.queue.len() > 0 && self@.queue[0] == MessageView::IncomingDataPoll),
    {
        if self.queue.len() == 0 {
            return false;
        }
        match &self.queue[0] {
            Message::IncomingDataPoll => true,
            _ => false,
        }
    }

    /// Applies one command, given the time stamp of the moment and, for a
    /// poll, the lines that the channel held. What follows from the command
    /// is queued behind the commands that wait; what it asks of the host is
    /// returned.
    pub fn update(&mut self, message: Message, stamp: &str, batch: Vec<String>) -> (directive:
        Option<Directive>)
        requires
            old(self).wf(),
        ensures
            final(self)@ == old(self)@.update(message@, stamp@, texts_of(batch@)).state,
            directive_view(directive) == old(self)@.update(
                message@,
                stamp@,
                texts_of(batch@),
            ).directive,
            final(self).wf(),
    {
        match message {
            Message::NormalCreation => self.create(true, stamp),
            Message::AbnormalCreation => self.create(false, stamp),
            Message::IncomingDataPoll => {
                self.ingest(batch);
                None
            },
            Message::ViewportMoved(offset) => {
                self.scroll.viewport_moved(offset);
                None
            },
            Message::ToggleAutoFollow => {
                self.toggle_follow();
                None
            },
            Message::SnapToEnd => Some(Directive::SnapToEnd),
            Message::SelectScenario(choice) => {
                self.select_scenario(choice, stamp);
                None
            },
            Message::ToggleDropdown => {
                self.selection.toggle_dropdown();
                None
            },
            Message::DropdownDismiss => {
                self.selection.dismiss();
                None
            },
            Message::TerminateRequested => self.request_terminate(stamp),
            Message::LaunchSucceeded(path) => {
                self.launch_succeeded(path.as_str(), stamp);
                None
            },
            Message::LaunchFailed(reason) => {
                self.launch_failed(reason.as_str(), stamp);
                None
            },
            Message::TerminateSucceeded => {
                self.terminate_succeeded(stamp);
                None
            },
            Message::TerminateFailed(reason) => {
                self.terminate_failed(reason.as_str(), stamp);
                None
            },
        }
    }

    /// Takes the next command off the queue and applies it, given the time
    /// stamp of the moment and, for a poll, the lines that the channel held.
    /// With nothing queued, nothing happens.
    pub fn step_with(&mut self, stamp: &str, batch: Vec<String>) -> (directive: Option<Directive>)
        requires
            old(self).wf(),
        ensures
            final(self)@ == old(self)@.step(stamp@, texts_of(batch@)).state,
            directive_view(directive) == old(self)@.step(stamp@, texts_of(batch@)).directive,
            final(self).wf(),
    {
        match self.queue.pop_front() {
            None => None,
            Some(message) => {
                proof {
                    assert(messages_of(self.queue@) =~= old(self)@.queue.drop_first());
                }
                self.update(message, stamp, batch)
            },
        }
    }

    /// Takes the next command off the queue and applies it, with the time
    /// stamp read from the clock and, for a poll, the lines drained from the
    /// event channel. The step is the one that `step_with` makes for some
    /// time stamp and some batch of lines; for a command other than a poll
    /// the batch is empty.
    pub fn step(&mut self) -> (directive: Option<Directive>)
        requires
            old(self).wf(),
        ensures
            exists|stamp: Seq<char>, texts: Seq<Seq<char>>|
                {
                    &&& #[trigger] old(self)@.step(stamp, texts).state == final(self)@
                    &&& old(self)@.step(stamp, texts).directive == directive_view(directive)
                    &&& texts.len() > 0 ==> old(self)@.queue.len() > 0 && old(self)@.queue[0]
                        == MessageView::IncomingDataPoll
                },
            final(self).wf(),
    {
        let stamp = now_stamp();
        let batch = if self.poll_is_next() {
            self.channel.drain()
        } else {
            Vec::new()
        };
        let ghost texts = texts_of(batch@);
        let directive = self.step_with(stamp.as_str(), batch);
        proof {
            assert(old(self)@.step(stamp@, texts).state == self@);
        }
        directive
    }

    /// Takes the host's report of what came of starting the script for
    /// `scenario` in the given mode. The supervisor completes the launch, the
    /// running indicator follows it, and the result is queued as
    /// `LaunchSucceeded` with the path or as `LaunchFailed` with the reason.
    /// It returns whether the launch succeeded, that is, whether the process
    /// that the host reports is the one tracked from now on.
    pub fn complete_launch(
        &mut self,
        scenario: Choice,
        is_normal: bool,
        outcome: SpawnOutcome,
    ) -> (accepted: bool)
        ensures
            final(self)@ == old(self)@.launch_completed(scenario, is_normal, outcome@),
            accepted == old(self)@.supervisor.launch_result(scenario, is_normal, outcome@) is Ok,
            old(self).wf() ==> final(self).wf(),
    {
        let result = self.supervisor.launch(scenario, is_normal, outcome);
        self.running = self.supervisor.is_tracking();
        match result {
            Ok(path) => {
                self.enqueue(Message::LaunchSucceeded(path));
                true
            },
            Err(error) => {
                self.enqueue(Message::LaunchFailed(error.describe()));
                false
            },
        }
    }

    /// Takes the host's report of what came of writing the sentinel line. The
    /// supervisor completes the termination, and the result is queued as
    /// `TerminateSucceeded` or as `TerminateFailed` with the reason.
    /// It returns whether the termination succeeded, that is, whether the
    /// process is no longer tracked and the host may let go of it.
    pub fn complete_terminate(&mut self, outcome: SignalOutcome) -> (released: bool)
        ensures
            final(self)@ == old(self)@.terminate_completed(outcome@),
            released == old(self)@.supervisor.terminate_result(outcome@) is Ok,
            old(self).wf() ==> final(self).wf(),
    {
        match self.supervisor.terminate(outcome) {
            Ok(()) => {
                self.enqueue(Message::TerminateSucceeded);
                true
            },
            Err(error) => {
                self.enqueue(Message::TerminateFailed(error.describe()));
                false
            },
        }
    }

    /// The log entries, oldest first.
    pub fn entries(&self) -> (all: &Vec<LogEntry>)
        ensures
            views_of(all@) == self@.log,
    {
        self.log.entries()
    }

    /// Whether the view follows the newest entry.
    pub fn auto_follow(&self) -> (following: bool)
        ensures
            following == self@.scroll.auto_follow,
    {
        self.scroll.auto_follow
    }

    /// The scroll policy's state.
    pub fn scroll(&self) -> (state: ScrollState)
        ensures
            state == self@.scroll,
    {
        self.scroll
    }

    /// The running indicator that is shown to the user.
    pub fn is_running(&self) -> (running: bool)
        ensures
            running == self@.running,
    {
        self.running
    }

    /// Whether the last creation command asked for the normal mode.
    pub fn mode_is_normal(&self) -> (normal: bool)
        ensures
            normal == self@.mode_is_normal,
    {
        self.mode_is_normal
    }

    /// The scenario that is chosen.
    pub fn selected(&self) -> (choice: Choice)
        ensures
            choice == self@.selection.choice,
    {
        self.selection.choice
    }

    /// Whether the scenario dropdown is open.
    pub fn dropdown_open(&self) -> (open: bool)
        ensures
            open == self@.selection.dropdown_open,
    {
        self.selection.dropdown_open
    }

    /// The process supervisor, to be read.
    pub fn supervisor(&self) -> (supervisor: &ProcessSupervisor)
        ensures
            supervisor@ == self@.supervisor,
    {
        &self.supervisor
    }

    /// What the presentation layer shows of the session.
    pub fn snapshot(&self) -> (shown: Snapshot<'_>)
        ensures
            views_of(shown.entries@) == self@.log,
            shown.auto_follow == self@.scroll.auto_follow,
            shown.running == self@.running,
            shown.selection == self@.selection.choice,
            shown.dropdown_open == self@.selection.dropdown_open,
    {
        Snapshot {
            entries: self.log.entries(),
            auto_follow: self.scroll.auto_follow,
            running: self.running,
            selection: self.selection.choice,
            dropdown_open: self.selection.dropdown_open,
        }
    }
}

/// The creation command of a mode.
pub open spec fn creation_message(is_normal: bool) -> MessageView {
    if is_normal {
        MessageView::NormalCreation
    } else {
        MessageView::AbnormalCreation
    }
}

/// A creation command that arrives while a process is tracked starts
/// nothing: the supervisor is left as it was, nothing is asked of the host,
/// and the refusal is queued behind the commands that wait. Once that
/// refusal is applied, at whatever moment, the newest log entry is the
/// diagnostic, tagged as normal, and the supervisor is still as it was.
pub proof fn lemma_creation_while_tracking(
    state: SessionView,
    is_normal: bool,
    stamp: Seq<char>,
    later: Seq<char>,
    texts: Seq<Seq<char>>,
)
    requires
        state.supervisor.handle is Some,
    ensures
        ({
            let refusal = MessageView::LaunchFailed(SessionErrorView::AlreadyRunning.describe());
            let after = state.update(creation_message(is_normal), stamp, texts);
            let logged = after.state.update(refusal, later, texts);
            &&& after.directive is None
            &&& after.state.supervisor == state.supervisor
            &&& after.state.queue.len() > state.queue.len()
            &&& after.state.queue.take(state.queue.len() as int) == state.queue
            &&& after.state.queue[state.queue.len() as int] == refusal
            &&& logged.state.supervisor == state.supervisor
            &&& logged.state.log.len() > 0
            &&& logged.state.log.last() == plain(
                stamped(later, failure_text(SessionErrorView::AlreadyRunning.describe())),
            )
        }),
{
    let refusal = MessageView::LaunchFailed(SessionErrorView::AlreadyRunning.describe());
    let after = state.update(creation_message(is_normal), stamp, texts);
    assert(after.state.queue.take(state.queue.len() as int) =~= state.queue);
}

/// Whatever a step puts into the queue goes behind the commands that waited
/// already: after the step the queue starts with those that waited behind the
/// command that was taken, in their order.
pub proof fn lemma_follow_ups_go_to_the_tail(
    state: SessionView,
    stamp: Seq<char>,
    texts: Seq<Seq<char>>,
)
    requires
        state.queue.len() > 0,
    ensures
        ({
            let waiting = state.queue.drop_first();
            let after = state.step(stamp, texts).state.queue;
            &&& after.len() >= waiting.len()
            &&& after.take(waiting.len() as int) == waiting
        }),
{
    let waiting = state.queue.drop_first();
    let after = state.step(stamp, texts).state.queue;
    assert(after.len() >= waiting.len());
    assert(after.take(waiting.len() as int) =~= waiting);
}

/// Switching the following mode on queues exactly one snap to the end,
/// behind the commands that wait, whatever offset the manual mode had kept;
/// switching it off queues nothing.
pub proof fn lemma_toggle_snaps_once(
    state: SessionView,
    stamp: Seq<char>,
    texts: Seq<Seq<char>>,
)
    ensures
        ({
            let after = state.update(MessageView::ToggleAutoFollow, stamp, texts);
            &&& after.directive is None
            &&& after.state.scroll.auto_follow == !state.scroll.auto_follow
            &&& after.state.scroll.last_offset == state.scroll.last_offset
            &&& !state.scroll.auto_follow ==> after.state.queue == state.queue.push(
                MessageView::SnapToEnd,
            )
            &&& state.scroll.auto_follow ==> after.state.queue == state.queue
        }),
{
}

/// No command takes the log beyond its capacity or the scroll offset beyond
/// the scrollable height.
pub proof fn lemma_update_keeps_bounds(
    state: SessionView,
    message: MessageView,
    stamp: Seq<char>,
    texts: Seq<Seq<char>>,
)
    requires
        state.wf(),
    ensures
        state.update(message, stamp, texts).state.wf(),
{
}

/// A poll changes the log and nothing else of what is shown: the lines that
/// the channel held come behind the entries that were there, in their order
/// and each tagged by its markers, and the oldest entries leave where the
/// capacity is passed. The last line of the batch is the newest entry.
pub proof fn lemma_poll_takes_the_batch_in(
    state: SessionView,
    stamp: Seq<char>,
    texts: Seq<Seq<char>>,
)
    ensures
        ({
            let after = state.update(MessageView::IncomingDataPoll, stamp, texts);
            &&& after.directive is None
            &&& after.state.log == retain_recent(
                state.log + classified_all(texts),
                CAPACITY as nat,
            )
            &&& texts.len() > 0 ==> after.state.log.len() > 0 && after.state.log.last()
                == classified(texts.last())
            &&& after.state.scroll == state.scroll
            &&& after.state.selection == state.selection
            &&& after.state.supervisor == state.supervisor
            &&& after.state.running == state.running
            &&& after.state.mode_is_normal == state.mode_is_normal
        }),
{
}

/// The most steps that a command can cause: one for itself, and one for
/// each command that may follow from it, with what may follow from those.
pub open spec fn weight(message: MessageView) -> nat {
    match message {
        MessageView::NormalCreation => 4,
        MessageView::AbnormalCreation => 4,
        MessageView::TerminateRequested => 4,
        MessageView::IncomingDataPoll => 2,
        MessageView::ToggleAutoFollow => 2,
        MessageView::SelectScenario(choice) => 2,
        MessageView::LaunchSucceeded(path) => 2,
        MessageView::LaunchFailed(reason) => 2,
        MessageView::TerminateSucceeded => 2,
        MessageView::TerminateFailed(reason) => 2,
        MessageView::ViewportMoved(offset) => 1,
        MessageView::SnapToEnd => 1,
        MessageView::ToggleDropdown => 1,
        MessageView::DropdownDismiss => 1,
    }
}

/// The most steps that a queue can take to empty, if nothing is posted
/// meanwhile.
pub open spec fn work(queue: Seq<MessageView>) -> nat
    decreases queue.len(),
{
    if queue.len() == 0 {
        0
    } else {
        work(queue.drop_last()) + weight(queue.last())
    }
}

/// The work of a queue is that of its head and that of the rest.
pub proof fn lemma_work_of_head_and_rest(queue: Seq<MessageView>)
    requires
        queue.len() > 0,
    ensures
        work(queue) == weight(queue[0]) + work(queue.drop_first()),
    decreases queue.len(),
{
    if queue.len() == 1 {
        assert(queue.drop_last() =~= queue.drop_first());
        assert(work(queue.drop_first()) == 0);
    } else {
        lemma_work_of_head_and_rest(queue.drop_last());
        assert(queue.drop_last().drop_first() =~= queue.drop_first().drop_last());
        assert(queue.drop_first().last() == queue.last());
    }
}

/// A command at the tail adds its weight to the work of a queue.
pub proof fn lemma_work_of_push(queue: Seq<MessageView>, message: MessageView)
    ensures
        work(queue.push(message)) == work(queue) + weight(message),
{
    assert(queue.push(message).drop_last() =~= queue);
}

/// Every step takes work off the queue: what a command puts there weighs
/// less than the command did. So a host that steps until nothing waits, and
/// posts nothing meanwhile, comes to an end, after no more steps than the
/// work of the queue it started with.
pub proof fn lemma_step_reduces_work(state: SessionView, stamp: Seq<char>, texts: Seq<Seq<char>>)
    requires
        state.queue.len() > 0,
    ensures
        work(state.step(stamp, texts).state.queue) < work(state.queue),
{
    let head = state.queue[0];
    let rest = state.queue.drop_first();
    let taken = SessionView { queue: rest, ..state };
    lemma_work_of_head_and_rest(state.queue);
    let snap = MessageView::SnapToEnd;
    lemma_work_of_push(rest, snap);
    assert forall|first: MessageView| #![trigger rest.push(first)]
        work(rest.push(first)) == work(rest) + weight(first) && work(rest.push(first).push(snap))
            == work(rest) + weight(first) + 1 by {
        lemma_work_of_push(rest, first);
        lemma_work_of_push(rest.push(first), snap);
    }
}

} // verus!
