use cargo_icmd::demos::decimal_string;
use cargo_icmd::demos::{publish_worker_step, PUBLISH_LOG_CAP};
use cargo_icmd::demos::record_command;
use cargo_icmd::demos::focus_pane;
use cargo_icmd::shell::Key;
use cargo_icmd::demos::{ledger_line, LedgerEvent};
use cargo_icmd::demos::{
    lifecycle_phases, event_phases, publish_tick, push_bounded, reversed, Checklist, PublishAction,
    PublishPhase, WidthMode, INDEX_WIDTH, RAIL_WIDTH,
};

#[test]
fn bounded_log_never_exceeds_its_cap() {
    let mut log = Vec::new();
    for index in 0..25 {
        push_bounded(&mut log, format!("entry {index}"), 8);
    }
    assert_eq!(log.len(), 8);
    assert_eq!(log.first().map(String::as_str), Some("entry 17"));
    assert_eq!(log.last().map(String::as_str), Some("entry 24"));
}

#[test]
fn bounded_log_keeps_everything_under_the_cap() {
    let mut log = Vec::new();
    push_bounded(&mut log, String::from("only"), 4);
    assert_eq!(log, vec![String::from("only")]);
}

#[test]
fn bounded_log_with_a_zero_cap_keeps_the_newest_entry() {
    let mut log = vec![String::from("a"), String::from("b")];
    push_bounded(&mut log, String::from("c"), 0);
    assert_eq!(log, vec![String::from("c")]);
}

#[test]
fn reversing_preserves_identity_of_each_item() {
    let items = vec!["a", "b", "c"];
    let next = reversed(&items);
    assert_eq!(next, vec!["c", "b", "a"]);
    assert_eq!(items, vec!["a", "b", "c"]);
    let mut sorted = next.clone();
    sorted.sort_unstable();
    let mut original = items.clone();
    original.sort_unstable();
    assert_eq!(sorted, original);
}

#[test]
fn reversing_twice_restores_the_order() {
    let items = vec![3, 1, 4, 1, 5];
    assert_eq!(reversed(&reversed(&items)), items);
    let empty: Vec<u8> = Vec::new();
    assert!(reversed(&empty).is_empty());
}

#[test]
fn publish_phase_transitions_are_total_and_completion_is_sticky() {
    for action in [
        PublishAction::Start,
        PublishAction::Pause,
        PublishAction::Reset,
    ] {
        assert_eq!(PublishPhase::Done.apply(action), PublishPhase::Done);
    }
    assert_eq!(
        PublishPhase::Idle.apply(PublishAction::Start),
        PublishPhase::Running
    );
    assert_eq!(
        PublishPhase::Running.apply(PublishAction::Pause),
        PublishPhase::Paused
    );
    assert_eq!(
        PublishPhase::Paused.apply(PublishAction::Start),
        PublishPhase::Running
    );
    assert_eq!(
        PublishPhase::Running.apply(PublishAction::Reset),
        PublishPhase::Idle
    );
    assert_eq!(
        PublishPhase::Paused.apply(PublishAction::Reset),
        PublishPhase::Idle
    );
    assert_eq!(
        PublishPhase::Idle.apply(PublishAction::Pause),
        PublishPhase::Idle
    );
}

#[test]
fn publish_phase_labels_and_default() {
    assert_eq!(PublishPhase::default(), PublishPhase::Idle);
    assert_eq!(PublishPhase::Idle.label(), "idle");
    assert_eq!(PublishPhase::Running.label(), "publishing");
    assert_eq!(PublishPhase::Paused.label(), "paused");
    assert_eq!(PublishPhase::Running.apply(PublishAction::Start), PublishPhase::Running);
    assert_eq!(PublishPhase::Paused.apply(PublishAction::Pause), PublishPhase::Paused);
    assert_eq!(PublishPhase::Idle.apply(PublishAction::Reset), PublishPhase::Idle);
}

#[test]
fn publish_tick_clamps_progress_and_completes_exactly_once() {
    let mut progress = 0;
    let mut phase = PublishPhase::Idle;
    for tick in 1..=20 {
        let next = publish_tick(tick, progress, 5, 20);
        progress = next.progress;
        phase = next.phase;
        assert!(progress <= 100);
    }
    assert_eq!(progress, 100);
    assert_eq!(phase, PublishPhase::Done);
    let beyond = publish_tick(21, progress, 5, 20);
    assert_eq!(beyond.phase, PublishPhase::Done);
    assert_eq!(beyond.progress, 100);
    assert_eq!(PublishPhase::Done.label(), "published");
    assert!(PublishPhase::Running.is_running());
    assert!(!PublishPhase::Paused.is_running());
}

#[test]
fn publish_tick_exact_values() {
    let next = publish_tick(3, 10, 5, 20);
    assert_eq!(next.phase, PublishPhase::Running);
    assert_eq!(next.progress, 15);
    assert_eq!(next.frame, 3);
    let saturated = publish_tick(1, u64::MAX, 7, 20);
    assert_eq!(saturated.progress, 100);
    // a total of zero completes on the first tick
    assert_eq!(publish_tick(0, 0, 1, 0).phase, PublishPhase::Running);
    assert_eq!(publish_tick(1, 0, 1, 0).phase, PublishPhase::Done);
    assert_eq!(publish_tick(19, 0, 1, 20).phase, PublishPhase::Running);
}

#[test]
fn checklist_reducer_is_bounded_and_resettable() {
    let mut checklist = Checklist::new(4);
    assert_eq!(checklist.total(), 4);
    assert_eq!(checklist.completed(), 0);
    assert_eq!(checklist.percent(), 0);
    checklist.toggle(1);
    checklist.toggle(3);
    assert!(checklist.is_done(1));
    assert!(!checklist.is_done(0));
    assert_eq!(checklist.completed(), 2);
    assert_eq!(checklist.percent(), 50);
    checklist.toggle(99);
    assert_eq!(checklist.completed(), 2);
    checklist.reset();
    assert_eq!(checklist.completed(), 0);
    assert_eq!(Checklist::default().percent(), 0);
}

#[test]
fn checklist_toggle_twice_restores_and_percent_rounds_down() {
    let mut checklist = Checklist::new(3);
    checklist.toggle(2);
    assert_eq!(checklist.percent(), 33);
    checklist.toggle(2);
    assert!(!checklist.is_done(2));
    assert_eq!(checklist.completed(), 0);
    checklist.toggle(0);
    checklist.toggle(1);
    checklist.toggle(2);
    assert_eq!(checklist.percent(), 100);
    checklist.reset();
    assert_eq!(checklist.total(), 3);
    assert!(!checklist.is_done(7));
}

#[test]
fn width_mode_matches_the_documented_breakpoints() {
    assert_eq!(WidthMode::for_width(140, false), WidthMode::Wide);
    assert_eq!(WidthMode::for_width(140, true), WidthMode::Mixed);
    assert_eq!(WidthMode::for_width(110, false), WidthMode::Wide);
    assert_eq!(WidthMode::for_width(109, false), WidthMode::Mixed);
    assert_eq!(WidthMode::for_width(72, false), WidthMode::Mixed);
    assert_eq!(WidthMode::for_width(71, false), WidthMode::Narrow);
    assert_eq!(WidthMode::Wide.reserved_width(), INDEX_WIDTH);
    assert_eq!(WidthMode::Mixed.reserved_width(), RAIL_WIDTH);
    assert_eq!(WidthMode::Narrow.reserved_width(), 0);
    assert!(!WidthMode::Narrow.label().is_empty());
}

#[test]
fn width_mode_labels_and_timelines() {
    assert_eq!(WidthMode::Wide.label(), "wide · expanded index");
    assert_eq!(WidthMode::Mixed.label(), "medium · compact rail");
    assert_eq!(WidthMode::Narrow.label(), "narrow · content only");
    assert_eq!(INDEX_WIDTH, 30);
    assert_eq!(RAIL_WIDTH, 7);
    assert_eq!(lifecycle_phases(), ["Boot", "Mount", "Ready", "Unmount", "Exit"]);
    assert_eq!(event_phases(), ["capture", "target", "bubble"]);
}

#[test]
fn decimal_strings_match_display() {
    for n in [0usize, 7, 10, 42, 1000, 98765, usize::MAX] {
        assert_eq!(decimal_string(n), n.to_string());
    }
}

#[test]
fn the_publish_worker_verifies_chunks_and_publishes_once() {
    let mut tick = 0;
    let mut progress = 0;
    let mut log: Vec<String> = Vec::new();
    let mut finished_at = None;
    while finished_at.is_none() {
        let step = publish_worker_step(tick, progress);
        tick = step.tick;
        progress = step.state.progress;
        for line in step.log {
            push_bounded(&mut log, line, PUBLISH_LOG_CAP);
        }
        if step.state.phase == PublishPhase::Done {
            finished_at = Some(tick);
        }
    }
    assert_eq!(finished_at, Some(20));
    assert_eq!(progress, 100);
    assert_eq!(
        log,
        vec![
            "chunk 1 verified",
            "chunk 2 verified",
            "chunk 3 verified",
            "chunk 4 verified",
            "chunk 5 verified",
            "release published",
        ]
    );
    let resumed = publish_worker_step(6, 30);
    assert_eq!(resumed.tick, 7);
    assert_eq!(resumed.state.progress, 35);
    assert!(resumed.log.is_empty());
}

#[test]
fn submitted_commands_are_trimmed_and_bounded() {
    let mut log = Vec::new();
    record_command(&mut log, "   ");
    assert!(log.is_empty());
    record_command(&mut log, "  build --release ");
    assert_eq!(log, vec![String::from("ran build --release")]);
    for index in 0..10 {
        record_command(&mut log, &format!("job {index}"));
    }
    assert_eq!(log.len(), 8);
    assert_eq!(log[0], "ran job 2");
    assert_eq!(log[7], "ran job 9");
}

#[test]
fn the_focusable_panel_moves_within_its_panes() {
    assert_eq!(focus_pane(0, Key::Left), (0, true));
    assert_eq!(focus_pane(1, Key::Left), (0, true));
    assert_eq!(focus_pane(0, Key::Right), (1, true));
    assert_eq!(focus_pane(2, Key::Right), (2, true));
    assert_eq!(focus_pane(1, Key::Enter), (1, true));
    assert_eq!(focus_pane(1, Key::Char(' ')), (1, true));
    assert_eq!(focus_pane(1, Key::Char('x')), (1, false));
    assert_eq!(focus_pane(1, Key::Up), (1, false));
}

#[test]
fn ledger_lines_name_the_control_and_value() {
    assert_eq!(ledger_line(LedgerEvent::Telemetry(true)), "checkbox → telemetry true");
    assert_eq!(ledger_line(LedgerEvent::Telemetry(false)), "checkbox → telemetry false");
    assert_eq!(ledger_line(LedgerEvent::Verbose(true)), "switch → verbose true");
    assert_eq!(ledger_line(LedgerEvent::Stable), "radio → stable");
    assert_eq!(ledger_line(LedgerEvent::Nightly), "radio → nightly");
}

#[test]
fn checking_an_entry_sets_it_exactly() {
    let mut checklist = Checklist::new(2);
    checklist.apply_check(0, true);
    checklist.apply_check(0, true);
    assert!(checklist.is_done(0));
    checklist.apply_check(0, false);
    assert!(!checklist.is_done(0));
    checklist.apply_check(5, true);
    assert_eq!(checklist.completed(), 0);
}
