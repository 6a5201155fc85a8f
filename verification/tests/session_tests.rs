use project_iot::{
    Choice, Directive, EventChannel, EventSender, LogType, Message, ProcessHandle, SessionController, SignalOutcome,
    SpawnOutcome,
};

const STAMP: &str = "[2024.05.17-09:30:00]";

fn session() -> (SessionController, EventSender) {
    let (sender, channel) = EventChannel::open();
    (SessionController::new(channel, "/scripts/"), sender)
}

/// Applies queued commands with a fixed time stamp until none waits, and
/// collects what was asked of the host.
fn settle(controller: &mut SessionController) -> Vec<Directive> {
    let mut asked = Vec::new();
    let mut steps = 0;
    while controller.has_pending() {
        if let Some(directive) = controller.step_with(STAMP, Vec::new()) {
            asked.push(directive);
        }
        steps += 1;
        assert!(steps < 100);
    }
    asked
}

fn lines(controller: &SessionController) -> Vec<(String, LogType)> {
    let mut out = Vec::new();
    for entry in controller.entries() {
        out.push((entry.content.clone(), entry.classification));
    }
    out
}

fn last_line(controller: &SessionController) -> (String, LogType) {
    lines(controller).pop().unwrap()
}

fn running_session() -> (SessionController, EventSender) {
    let (mut controller, sender) = session();
    controller.post(Message::NormalCreation);
    let asked = settle(&mut controller);
    assert_eq!(asked.len(), 2);
    assert!(controller.complete_launch(Choice::Scenario1, true, SpawnOutcome::Spawned));
    settle(&mut controller);
    assert!(controller.is_running());
    (controller, sender)
}

#[test]
fn session_starts_with_the_startup_line() {
    let (controller, _sender) = session();
    assert_eq!(lines(&controller), vec![(String::from("Application started"), LogType::Normal)]);
    assert!(controller.auto_follow());
    assert_eq!(controller.scroll().last_offset, 1000);
    assert!(!controller.is_running());
    assert!(controller.mode_is_normal());
    assert_eq!(controller.selected(), Choice::Scenario1);
    assert!(!controller.dropdown_open());
    assert!(!controller.supervisor().is_tracking());
    assert_eq!(controller.supervisor().base_dir(), "/scripts/");
    assert_eq!(controller.pending(), 0);
    assert!(!controller.has_pending());
}

#[test]
fn snapshot_shows_the_state() {
    let (mut controller, _sender) = session();
    controller.post(Message::SelectScenario(Choice::Scenario4));
    controller.post(Message::ToggleDropdown);
    controller.post(Message::ToggleAutoFollow);
    settle(&mut controller);
    let shown = controller.snapshot();
    assert_eq!(shown.entries.len(), 2);
    assert_eq!(shown.entries[1].content, "[2024.05.17-09:30:00] Scenario 4 is selected.");
    assert!(!shown.auto_follow);
    assert!(!shown.running);
    assert_eq!(shown.selection, Choice::Scenario4);
    assert!(shown.dropdown_open);
}

#[test]
fn step_without_commands_does_nothing() {
    let (mut controller, _sender) = session();
    assert_eq!(controller.step_with(STAMP, vec![String::from("ignored")]), None);
    assert_eq!(controller.step(), None);
    assert_eq!(lines(&controller).len(), 1);
    assert_eq!(controller.pending(), 0);
}

#[test]
fn commands_are_applied_in_the_order_of_posting() {
    let (mut controller, _sender) = session();
    controller.post(Message::SelectScenario(Choice::Scenario2));
    controller.post(Message::SelectScenario(Choice::Scenario5));
    assert_eq!(controller.pending(), 2);
    assert_eq!(controller.step_with(STAMP, Vec::new()), None);
    assert_eq!(controller.selected(), Choice::Scenario2);
    assert_eq!(controller.pending(), 2);
    assert_eq!(controller.step_with(STAMP, Vec::new()), None);
    assert_eq!(controller.selected(), Choice::Scenario5);
    assert_eq!(controller.pending(), 2);
    assert_eq!(controller.step_with(STAMP, Vec::new()), Some(Directive::SnapToEnd));
    assert_eq!(controller.step_with(STAMP, Vec::new()), Some(Directive::SnapToEnd));
    assert_eq!(controller.pending(), 0);
}

#[test]
fn follow_ups_wait_behind_queued_commands() {
    let (mut controller, _sender) = session();
    controller.post(Message::ToggleAutoFollow);
    controller.post(Message::ToggleAutoFollow);
    controller.post(Message::ToggleDropdown);
    assert_eq!(controller.step_with(STAMP, Vec::new()), None);
    assert!(!controller.auto_follow());
    assert_eq!(controller.pending(), 2);
    assert_eq!(controller.step_with(STAMP, Vec::new()), None);
    assert!(controller.auto_follow());
    assert_eq!(controller.pending(), 2);
    assert!(!controller.dropdown_open());
    assert_eq!(controller.step_with(STAMP, Vec::new()), None);
    assert!(controller.dropdown_open());
    assert_eq!(controller.pending(), 1);
    assert_eq!(controller.step_with(STAMP, Vec::new()), Some(Directive::SnapToEnd));
    assert_eq!(controller.pending(), 0);
}

#[test]
fn poll_is_next_looks_at_the_head_only() {
    let (mut controller, _sender) = session();
    assert!(!controller.poll_is_next());
    controller.post(Message::ToggleDropdown);
    controller.post(Message::IncomingDataPoll);
    assert!(!controller.poll_is_next());
    controller.step_with(STAMP, Vec::new());
    assert!(controller.poll_is_next());
}

#[test]
fn normal_creation_logs_and_asks_for_a_spawn() {
    let (mut controller, _sender) = session();
    controller.post(Message::AbnormalCreation);
    settle(&mut controller);
    controller.post(Message::NormalCreation);
    let first = controller.step_with(STAMP, Vec::new());
    assert_eq!(
        first,
        Some(Directive::Spawn {
            scenario: Choice::Scenario1,
            is_normal: true,
            path: String::from("/scripts/scenario1_auto.py"),
        })
    );
    assert!(controller.mode_is_normal());
    assert_eq!(
        last_line(&controller),
        (String::from("[2024.05.17-09:30:00] Normal Creation button is pressed."), LogType::Normal)
    );
    assert!(!controller.is_running());
    assert!(!controller.supervisor().is_tracking());
    assert_eq!(settle(&mut controller), vec![Directive::SnapToEnd]);
}

#[test]
fn abnormal_creation_logs_and_asks_for_a_spawn() {
    let (mut controller, _sender) = session();
    controller.post(Message::AbnormalCreation);
    let first = controller.step_with(STAMP, Vec::new());
    assert_eq!(
        first,
        Some(Directive::Spawn {
            scenario: Choice::Scenario1,
            is_normal: false,
            path: String::from("/scripts/scenario1_abnormal.py"),
        })
    );
    assert!(!controller.mode_is_normal());
    assert_eq!(
        last_line(&controller),
        (String::from("[2024.05.17-09:30:00] Abnormal Creation button is pressed."), LogType::Normal)
    );
}

#[test]
fn selected_scenario_decides_the_script_path() {
    let (mut controller, _sender) = session();
    controller.post(Message::SelectScenario(Choice::Scenario3));
    controller.post(Message::NormalCreation);
    let asked = settle(&mut controller);
    assert_eq!(
        asked[0],
        Directive::Spawn {
            scenario: Choice::Scenario3,
            is_normal: true,
            path: String::from("/scripts/scenario3_auto.py"),
        }
    );
    controller.post(Message::AbnormalCreation);
    let asked = settle(&mut controller);
    assert_eq!(
        asked[0],
        Directive::Spawn {
            scenario: Choice::Scenario3,
            is_normal: false,
            path: String::from("/scripts/scenario3_abnormal.py"),
        }
    );
}

#[test]
fn selected_scenario_launches_under_its_path() {
    let (mut controller, _sender) = session();
    controller.post(Message::SelectScenario(Choice::Scenario3));
    controller.post(Message::NormalCreation);
    settle(&mut controller);
    controller.complete_launch(Choice::Scenario3, true, SpawnOutcome::Spawned);
    assert_eq!(
        controller.supervisor().current(),
        Some(&ProcessHandle { script_path: String::from("/scripts/scenario3_auto.py"), running: true })
    );
    assert!(controller.is_running());
    settle(&mut controller);
    assert_eq!(
        last_line(&controller),
        (
            String::from("[2024.05.17-09:30:00] Successfully started script: /scripts/scenario3_auto.py"),
            LogType::Normal
        )
    );
}

#[test]
fn missing_script_is_logged_and_nothing_runs() {
    let (mut controller, _sender) = session();
    controller.post(Message::AbnormalCreation);
    settle(&mut controller);
    assert!(!controller.complete_launch(Choice::Scenario1, false, SpawnOutcome::Missing));
    assert!(!controller.is_running());
    assert_eq!(controller.pending(), 1);
    settle(&mut controller);
    assert_eq!(
        last_line(&controller),
        (
            String::from("[2024.05.17-09:30:00] Error: Script file not found: /scripts/scenario1_abnormal.py"),
            LogType::Normal
        )
    );
    assert!(!controller.supervisor().is_tracking());
}

#[test]
fn refused_start_is_logged_with_its_reason() {
    let (mut controller, _sender) = session();
    controller.post(Message::NormalCreation);
    settle(&mut controller);
    controller.complete_launch(Choice::Scenario1, true, SpawnOutcome::Failed(String::from("program not found")));
    settle(&mut controller);
    assert_eq!(
        last_line(&controller),
        (String::from("[2024.05.17-09:30:00] Error: Failed to execute script: program not found"), LogType::Normal)
    );
    assert!(!controller.is_running());
}

#[test]
fn creation_while_running_logs_the_refusal_and_keeps_the_handle() {
    let (mut controller, _sender) = running_session();
    let before = controller.supervisor().current().cloned();
    controller.post(Message::SelectScenario(Choice::Scenario6));
    controller.post(Message::NormalCreation);
    let asked = settle(&mut controller);
    assert!(asked.iter().all(|d| *d == Directive::SnapToEnd));
    let all = lines(&controller);
    assert_eq!(
        all[all.len() - 2],
        (String::from("[2024.05.17-09:30:00] Normal Creation button is pressed."), LogType::Normal)
    );
    assert_eq!(
        all[all.len() - 1],
        (
            String::from("[2024.05.17-09:30:00] Error: Another script is already running. Please wait."),
            LogType::Normal
        )
    );
    assert_eq!(controller.supervisor().current().cloned(), before);
    assert_eq!(
        before,
        Some(ProcessHandle { script_path: String::from("/scripts/scenario1_auto.py"), running: true })
    );
    assert!(controller.is_running());
}

#[test]
fn late_spawn_report_while_running_is_refused() {
    let (mut controller, _sender) = running_session();
    assert!(!controller.complete_launch(Choice::Scenario2, false, SpawnOutcome::Spawned));
    settle(&mut controller);
    assert_eq!(
        last_line(&controller).0,
        "[2024.05.17-09:30:00] Error: Another script is already running. Please wait."
    );
    assert_eq!(controller.supervisor().current().unwrap().script_path, "/scripts/scenario1_auto.py");
}

#[test]
fn terminate_request_without_a_running_script_does_nothing() {
    let (mut controller, _sender) = session();
    controller.post(Message::TerminateRequested);
    assert_eq!(settle(&mut controller), Vec::<Directive>::new());
    assert_eq!(lines(&controller).len(), 1);
}

#[test]
fn terminate_request_logs_and_hands_out_the_sentinel_line() {
    let (mut controller, _sender) = running_session();
    controller.post(Message::TerminateRequested);
    let first = controller.step_with(STAMP, Vec::new());
    assert_eq!(first, Some(Directive::SendLine { line: String::from("rs202300219928scenarioDONE\n") }));
    assert_eq!(
        last_line(&controller),
        (String::from("[2024.05.17-09:30:00] Attempting to terminate current scenario..."), LogType::Normal)
    );
    assert!(controller.supervisor().is_tracking());
    assert!(controller.is_running());
}

#[test]
fn delivered_sentinel_clears_the_handle_then_the_indicator() {
    let (mut controller, _sender) = running_session();
    controller.post(Message::TerminateRequested);
    settle(&mut controller);
    assert!(controller.complete_terminate(SignalOutcome::Written));
    assert!(!controller.supervisor().is_tracking());
    assert!(controller.is_running());
    settle(&mut controller);
    assert!(!controller.is_running());
    assert_eq!(
        last_line(&controller),
        (String::from("[2024.05.17-09:30:00] Termination signal sent successfully"), LogType::Normal)
    );
}

#[test]
fn failed_write_is_logged_and_the_handle_stays() {
    let (mut controller, _sender) = running_session();
    controller.post(Message::TerminateRequested);
    settle(&mut controller);
    assert!(!controller.complete_terminate(SignalOutcome::Failed(String::from("broken pipe"))));
    settle(&mut controller);
    assert_eq!(
        last_line(&controller),
        (
            String::from("[2024.05.17-09:30:00] Error: Failed to send termination signal: broken pipe"),
            LogType::Normal
        )
    );
    assert!(controller.supervisor().is_tracking());
    assert!(controller.is_running());
    controller.post(Message::TerminateRequested);
    let asked = settle(&mut controller);
    assert_eq!(asked[0], Directive::SendLine { line: String::from("rs202300219928scenarioDONE\n") });
}

#[test]
fn missing_input_stream_is_logged_and_the_handle_stays() {
    let (mut controller, _sender) = running_session();
    controller.complete_terminate(SignalOutcome::NoStdin);
    settle(&mut controller);
    assert_eq!(last_line(&controller).0, "[2024.05.17-09:30:00] Error: Failed to get stdin handle");
    assert!(controller.supervisor().is_tracking());
}

#[test]
fn terminate_report_without_a_process_is_logged() {
    let (mut controller, _sender) = session();
    controller.complete_terminate(SignalOutcome::Written);
    settle(&mut controller);
    assert_eq!(last_line(&controller).0, "[2024.05.17-09:30:00] Error: No running script to terminate");
}

#[test]
fn terminate_request_after_the_handle_is_gone_queues_the_refusal() {
    let (mut controller, _sender) = running_session();
    controller.complete_terminate(SignalOutcome::Written);
    controller.post(Message::TerminateRequested);
    assert_eq!(controller.step_with(STAMP, Vec::new()), None);
    assert!(!controller.is_running());
    assert_eq!(controller.step_with(STAMP, Vec::new()), None);
    assert_eq!(lines(&controller).len(), 4);
}

#[test]
fn diagnostics_are_normal_even_with_a_marker_in_the_reason() {
    let (mut controller, _sender) = session();
    controller.post(Message::LaunchFailed(String::from("[Serial] line busy")));
    controller.post(Message::TerminateFailed(String::from("[Server] gone")));
    controller.post(Message::LaunchSucceeded(String::from("/x/[Serial].py")));
    settle(&mut controller);
    let all = lines(&controller);
    assert_eq!(all[1], (String::from("[2024.05.17-09:30:00] Error: [Serial] line busy"), LogType::Normal));
    assert_eq!(all[2], (String::from("[2024.05.17-09:30:00] Error: [Server] gone"), LogType::Normal));
    assert_eq!(
        all[3],
        (String::from("[2024.05.17-09:30:00] Successfully started script: /x/[Serial].py"), LogType::Normal)
    );
}

#[test]
fn toggling_follow_on_queues_one_snap() {
    let (mut controller, _sender) = session();
    controller.post(Message::ToggleAutoFollow);
    assert_eq!(settle(&mut controller), Vec::<Directive>::new());
    assert!(!controller.auto_follow());
    controller.post(Message::ViewportMoved(123));
    settle(&mut controller);
    controller.post(Message::ToggleAutoFollow);
    assert_eq!(controller.step_with(STAMP, Vec::new()), None);
    assert_eq!(controller.pending(), 1);
    assert_eq!(settle(&mut controller), vec![Directive::SnapToEnd]);
    assert!(controller.auto_follow());
    assert_eq!(controller.scroll().last_offset, 123);
}

#[test]
fn viewport_movement_is_kept_in_manual_mode_only() {
    let (mut controller, _sender) = session();
    controller.post(Message::ViewportMoved(10));
    assert_eq!(settle(&mut controller), Vec::<Directive>::new());
    assert_eq!(controller.scroll().last_offset, 1000);
    assert!(controller.auto_follow());
    controller.post(Message::ToggleAutoFollow);
    controller.post(Message::ViewportMoved(10));
    controller.post(Message::ViewportMoved(5000));
    controller.step_with(STAMP, Vec::new());
    controller.step_with(STAMP, Vec::new());
    assert_eq!(controller.scroll().last_offset, 10);
    controller.step_with(STAMP, Vec::new());
    assert_eq!(controller.scroll().last_offset, 1000);
    assert!(!controller.auto_follow());
}

#[test]
fn manual_mode_does_not_snap_on_new_lines() {
    let (mut controller, _sender) = session();
    controller.post(Message::ToggleAutoFollow);
    controller.post(Message::IncomingDataPoll);
    controller.step_with(STAMP, Vec::new());
    assert_eq!(controller.step_with(STAMP, vec![String::from("a"), String::from("b")]), None);
    assert_eq!(controller.pending(), 0);
    assert_eq!(lines(&controller).len(), 3);
}

#[test]
fn poll_with_lines_snaps_while_following() {
    let (mut controller, _sender) = session();
    controller.post(Message::IncomingDataPoll);
    let batch = vec![String::from("[Server] up"), String::from("note"), String::from("[Serial] t=1")];
    assert_eq!(controller.step_with(STAMP, batch), None);
    assert_eq!(
        lines(&controller),
        vec![
            (String::from("Application started"), LogType::Normal),
            (String::from("[Server] up"), LogType::NetworkSource),
            (String::from("note"), LogType::Normal),
            (String::from("[Serial] t=1"), LogType::SerialSource),
        ]
    );
    assert_eq!(settle(&mut controller), vec![Directive::SnapToEnd]);
}

#[test]
fn poll_without_lines_asks_for_nothing() {
    let (mut controller, _sender) = session();
    controller.post(Message::IncomingDataPoll);
    assert_eq!(settle(&mut controller), Vec::<Directive>::new());
    assert_eq!(lines(&controller).len(), 1);
}

#[test]
fn poll_snaps_also_when_the_log_is_full() {
    let (mut controller, _sender) = session();
    let mut batch = Vec::new();
    for i in 0..1000 {
        batch.push(format!("{}", i));
    }
    controller.post(Message::IncomingDataPoll);
    controller.step_with(STAMP, batch);
    settle(&mut controller);
    assert_eq!(lines(&controller).len(), 1000);
    controller.post(Message::IncomingDataPoll);
    assert_eq!(controller.step_with(STAMP, vec![String::from("more")]), None);
    assert_eq!(lines(&controller).len(), 1000);
    assert_eq!(settle(&mut controller), vec![Directive::SnapToEnd]);
}

#[test]
fn other_commands_ignore_the_batch() {
    let (mut controller, _sender) = session();
    controller.post(Message::ToggleDropdown);
    controller.step_with(STAMP, vec![String::from("stray")]);
    assert_eq!(lines(&controller).len(), 1);
    assert!(controller.dropdown_open());
}

#[test]
fn dropdown_commands_open_and_close() {
    let (mut controller, _sender) = session();
    controller.post(Message::DropdownDismiss);
    settle(&mut controller);
    assert!(!controller.dropdown_open());
    controller.post(Message::ToggleDropdown);
    settle(&mut controller);
    assert!(controller.dropdown_open());
    controller.post(Message::DropdownDismiss);
    settle(&mut controller);
    assert!(!controller.dropdown_open());
    controller.post(Message::ToggleDropdown);
    controller.post(Message::ToggleDropdown);
    settle(&mut controller);
    assert!(!controller.dropdown_open());
    assert_eq!(lines(&controller).len(), 1);
}

#[test]
fn selecting_a_scenario_closes_the_dropdown_and_logs() {
    let (mut controller, _sender) = session();
    controller.post(Message::ToggleDropdown);
    controller.post(Message::SelectScenario(Choice::Scenario7));
    let asked = settle(&mut controller);
    assert_eq!(asked, vec![Directive::SnapToEnd]);
    assert_eq!(controller.selected(), Choice::Scenario7);
    assert!(!controller.dropdown_open());
    assert_eq!(
        last_line(&controller),
        (String::from("[2024.05.17-09:30:00] Scenario 7 is selected."), LogType::Normal)
    );
}

#[test]
fn update_applies_a_command_that_was_never_queued() {
    let (mut controller, _sender) = session();
    controller.post(Message::ToggleDropdown);
    let asked = controller.update(Message::SelectScenario(Choice::Scenario2), "[t]", Vec::new());
    assert_eq!(asked, None);
    assert_eq!(controller.selected(), Choice::Scenario2);
    assert_eq!(last_line(&controller).0, "[t] Scenario 2 is selected.");
    assert_eq!(controller.pending(), 2);
    assert_eq!(controller.update(Message::SnapToEnd, "[t]", Vec::new()), Some(Directive::SnapToEnd));
    assert_eq!(controller.pending(), 2);
}

#[test]
fn controller_lines_are_evicted_like_any_other() {
    let (mut controller, _sender) = session();
    for i in 0..1000 {
        controller.post(Message::LaunchFailed(format!("{}", i)));
        settle(&mut controller);
    }
    let all = lines(&controller);
    assert_eq!(all.len(), 1000);
    assert_eq!(all[0].0, "[2024.05.17-09:30:00] Error: 0");
    assert_eq!(all[999].0, "[2024.05.17-09:30:00] Error: 999");
}

#[test]
fn submitted_serial_line_becomes_the_tail_entry() {
    let (mut controller, sender) = session();
    sender.submit(String::from("[Serial] sensorA=12"));
    controller.post(Message::IncomingDataPoll);
    assert_eq!(controller.step(), None);
    assert_eq!(
        lines(&controller),
        vec![
            (String::from("Application started"), LogType::Normal),
            (String::from("[Serial] sensorA=12"), LogType::SerialSource),
        ]
    );
    assert_eq!(controller.step(), Some(Directive::SnapToEnd));
    assert_eq!(controller.step(), None);
    controller.post(Message::IncomingDataPoll);
    assert_eq!(controller.step(), None);
    assert_eq!(lines(&controller).len(), 2);
    assert_eq!(controller.pending(), 0);
}

#[test]
fn a_thousand_and_one_lines_evict_the_first() {
    let (mut controller, sender) = session();
    for i in 0..1001 {
        sender.submit(format!("line {}", i));
        if i % 7 == 0 || i == 1000 {
            controller.post(Message::IncomingDataPoll);
            while controller.has_pending() {
                controller.step();
            }
        }
        assert!(lines(&controller).len() <= 1000);
    }
    let all = lines(&controller);
    assert_eq!(all.len(), 1000);
    assert!(all.iter().all(|(text, _)| text != "line 0" && text != "Application started"));
    for (k, (text, kind)) in all.iter().enumerate() {
        assert_eq!(text, &format!("line {}", k + 1));
        assert_eq!(*kind, LogType::Normal);
    }
}

#[test]
fn lines_stay_in_the_channel_until_a_poll_is_applied() {
    let (mut controller, sender) = session();
    sender.submit(String::from("early"));
    controller.post(Message::ToggleDropdown);
    controller.post(Message::IncomingDataPoll);
    controller.step();
    assert_eq!(lines(&controller).len(), 1);
    controller.step();
    assert_eq!(last_line(&controller), (String::from("early"), LogType::Normal));
}

#[test]
fn step_stamps_its_lines_with_the_clock() {
    let (mut controller, _sender) = session();
    controller.post(Message::NormalCreation);
    let asked = controller.step();
    assert_eq!(
        asked,
        Some(Directive::Spawn {
            scenario: Choice::Scenario1,
            is_normal: true,
            path: String::from("/scripts/scenario1_auto.py"),
        })
    );
    let (text, kind) = last_line(&controller);
    assert_eq!(kind, LogType::Normal);
    assert!(text.starts_with('['));
    assert!(text.ends_with("] Normal Creation button is pressed."));
    assert_eq!(text.chars().count(), 21 + " Normal Creation button is pressed.".len());
}

fn steps_to_settle(controller: &mut SessionController) -> usize {
    let mut steps = 0;
    while controller.has_pending() {
        controller.step_with(STAMP, vec![String::from("x")]);
        steps += 1;
        assert!(steps < 100);
    }
    steps
}

#[test]
fn refused_creation_settles_in_four_steps() {
    let (mut controller, _sender) = running_session();
    controller.post(Message::NormalCreation);
    assert_eq!(controller.pending(), 1);
    controller.step_with(STAMP, Vec::new());
    assert_eq!(controller.pending(), 2);
    controller.step_with(STAMP, Vec::new());
    assert_eq!(controller.pending(), 2);
    controller.step_with(STAMP, Vec::new());
    assert_eq!(controller.pending(), 1);
    controller.step_with(STAMP, Vec::new());
    assert_eq!(controller.pending(), 0);
}

#[test]
fn every_command_settles_within_its_weight() {
    let cases = vec![
        (Message::NormalCreation, 4),
        (Message::AbnormalCreation, 4),
        (Message::TerminateRequested, 4),
        (Message::IncomingDataPoll, 2),
        (Message::ToggleAutoFollow, 2),
        (Message::SelectScenario(Choice::Scenario2), 2),
        (Message::LaunchSucceeded(String::from("p")), 2),
        (Message::LaunchFailed(String::from("r")), 2),
        (Message::TerminateSucceeded, 2),
        (Message::TerminateFailed(String::from("r")), 2),
        (Message::ViewportMoved(5), 1),
        (Message::SnapToEnd, 1),
        (Message::ToggleDropdown, 1),
        (Message::DropdownDismiss, 1),
    ];
    for (message, weight) in cases {
        let (mut idle, _sender) = session();
        idle.post(message.clone());
        assert!(steps_to_settle(&mut idle) <= weight, "{:?} while idle", message);
        let (mut busy, _sender) = running_session();
        busy.post(message.clone());
        assert!(steps_to_settle(&mut busy) <= weight, "{:?} while running", message);
        let (mut manual, _sender) = session();
        manual.post(Message::ToggleAutoFollow);
        steps_to_settle(&mut manual);
        manual.post(message.clone());
        assert!(steps_to_settle(&mut manual) <= weight, "{:?} in manual mode", message);
    }
}
