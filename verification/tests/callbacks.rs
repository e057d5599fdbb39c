use lovr_rs::lovr::callbacks::{
    begin_frame, step, FrameAction, FrameOutcome, FramePhase, RunCommand,
};

/// Runs a frame with the given outcomes and returns every action it asked for.
fn drive(outcomes: &[FrameOutcome]) -> Vec<FrameAction> {
    let (mut phase, mut action) = begin_frame();
    let mut actions = vec![action];
    for outcome in outcomes {
        assert!(phase.accepts(outcome), "{:?} cannot take {:?}", phase, outcome);
        let (next_phase, next_action) = step(phase, *outcome);
        phase = next_phase;
        action = next_action;
        actions.push(action);
    }
    actions
}

#[test]
fn quiet_frame_with_window_submits_and_presents() {
    let actions = drive(&[
        FrameOutcome::Done,
        FrameOutcome::NoEvent,
        FrameOutcome::Done,
        FrameOutcome::WindowPass(true),
        FrameOutcome::Answer(false),
        FrameOutcome::Done,
        FrameOutcome::Done,
    ]);
    assert_eq!(
        actions,
        vec![
            FrameAction::PollSystemEvents,
            FrameAction::PollEvent,
            FrameAction::Update,
            FrameAction::GetWindowPass,
            FrameAction::Mirror,
            FrameAction::Submit,
            FrameAction::Present,
            FrameAction::Finish(RunCommand::Continue),
        ]
    );
}

#[test]
fn frame_without_window_pass_presents_directly() {
    let actions = drive(&[
        FrameOutcome::Done,
        FrameOutcome::NoEvent,
        FrameOutcome::Done,
        FrameOutcome::WindowPass(false),
        FrameOutcome::Done,
    ]);
    assert_eq!(actions[4], FrameAction::Present);
    assert_eq!(actions[5], FrameAction::Finish(RunCommand::Continue));
}

#[test]
fn mirror_returning_true_skips_submit() {
    let actions = drive(&[
        FrameOutcome::Done,
        FrameOutcome::NoEvent,
        FrameOutcome::Done,
        FrameOutcome::WindowPass(true),
        FrameOutcome::Answer(true),
    ]);
    assert_eq!(actions[5], FrameAction::Present);
    assert!(!actions.contains(&FrameAction::Submit));
}

#[test]
fn events_are_dispatched_before_update() {
    let actions = drive(&[
        FrameOutcome::Done,
        FrameOutcome::OtherEvent,
        FrameOutcome::Done,
        FrameOutcome::OtherEvent,
        FrameOutcome::Done,
        FrameOutcome::NoEvent,
    ]);
    assert_eq!(
        actions,
        vec![
            FrameAction::PollSystemEvents,
            FrameAction::PollEvent,
            FrameAction::Dispatch,
            FrameAction::PollEvent,
            FrameAction::Dispatch,
            FrameAction::PollEvent,
            FrameAction::Update,
        ]
    );
}

#[test]
fn confirmed_quit_ends_frame_with_exit_code() {
    let actions = drive(&[
        FrameOutcome::Done,
        FrameOutcome::QuitEvent(7),
        FrameOutcome::Answer(false),
    ]);
    assert_eq!(actions[2], FrameAction::CallQuit);
    assert_eq!(actions[3], FrameAction::Finish(RunCommand::Quit(7)));
}

#[test]
fn aborted_quit_keeps_polling() {
    let actions = drive(&[
        FrameOutcome::Done,
        FrameOutcome::QuitEvent(1),
        FrameOutcome::Answer(true),
        FrameOutcome::NoEvent,
    ]);
    assert_eq!(actions[3], FrameAction::PollEvent);
    assert_eq!(actions[4], FrameAction::Update);
}

#[test]
fn callback_error_ends_frame() {
    let actions = drive(&[FrameOutcome::Done, FrameOutcome::OtherEvent, FrameOutcome::Failed]);
    assert_eq!(actions[3], FrameAction::Fail);
    let actions = drive(&[FrameOutcome::Done, FrameOutcome::NoEvent, FrameOutcome::Failed]);
    assert_eq!(actions[3], FrameAction::Fail);
}

#[test]
fn present_error_ends_frame() {
    let actions = drive(&[
        FrameOutcome::Done,
        FrameOutcome::NoEvent,
        FrameOutcome::Done,
        FrameOutcome::WindowPass(false),
        FrameOutcome::Failed,
    ]);
    assert_eq!(actions[5], FrameAction::Fail);
}

#[test]
fn phases_accept_only_their_outcomes() {
    assert!(FramePhase::PollingSystem.accepts(&FrameOutcome::Done));
    assert!(!FramePhase::PollingSystem.accepts(&FrameOutcome::Failed));
    assert!(!FramePhase::PollingEvents.accepts(&FrameOutcome::Done));
    assert!(FramePhase::PollingEvents.accepts(&FrameOutcome::QuitEvent(0)));
    assert!(FramePhase::Mirroring.accepts(&FrameOutcome::Answer(true)));
    assert!(!FramePhase::Mirroring.accepts(&FrameOutcome::WindowPass(true)));
    assert!(!FramePhase::Finished.accepts(&FrameOutcome::Done));
    assert!(!FramePhase::Finished.accepts(&FrameOutcome::Failed));
}

#[test]
fn frame_starts_by_polling_the_system() {
    assert_eq!(begin_frame(), (FramePhase::PollingSystem, FrameAction::PollSystemEvents));
}

use lovr_rs::lovr::callbacks::{begin_run, start_step, StartAction, StartPhase};

#[test]
fn run_starts_with_timer_then_load() {
    let (phase, action) = begin_run();
    assert_eq!((phase, action), (StartPhase::SteppingTimer, StartAction::StepTimer));
    let (phase, action) = start_step(phase, FrameOutcome::Done);
    assert_eq!(action, StartAction::Load);
    let (phase, action) = start_step(phase, FrameOutcome::Done);
    assert_eq!((phase, action), (StartPhase::Over, StartAction::BeginFrames));
    assert!(!phase.accepts(&FrameOutcome::Done));
}

#[test]
fn load_error_stops_the_run() {
    let (phase, _) = begin_run();
    let (phase, _) = start_step(phase, FrameOutcome::Done);
    assert!(phase.accepts(&FrameOutcome::Failed));
    assert_eq!(start_step(phase, FrameOutcome::Failed), (StartPhase::Over, StartAction::Fail));
    assert!(!StartPhase::SteppingTimer.accepts(&FrameOutcome::Failed));
}

#[test]
fn continuing_frame_updates_and_presents_once() {
    let actions = drive(&[
        FrameOutcome::Done,
        FrameOutcome::OtherEvent,
        FrameOutcome::Done,
        FrameOutcome::QuitEvent(2),
        FrameOutcome::Answer(true),
        FrameOutcome::NoEvent,
        FrameOutcome::Done,
        FrameOutcome::WindowPass(true),
        FrameOutcome::Answer(false),
        FrameOutcome::Done,
        FrameOutcome::Done,
    ]);
    assert_eq!(actions.last(), Some(&FrameAction::Finish(RunCommand::Continue)));
    assert_eq!(actions.iter().filter(|a| **a == FrameAction::Update).count(), 1);
    assert_eq!(actions.iter().filter(|a| **a == FrameAction::Present).count(), 1);
}

#[test]
fn quitting_frame_neither_updates_nor_presents() {
    let actions = drive(&[
        FrameOutcome::Done,
        FrameOutcome::OtherEvent,
        FrameOutcome::Done,
        FrameOutcome::QuitEvent(5),
        FrameOutcome::Answer(false),
    ]);
    assert_eq!(actions.last(), Some(&FrameAction::Finish(RunCommand::Quit(5))));
    assert!(!actions.contains(&FrameAction::Update));
    assert!(!actions.contains(&FrameAction::Present));
}
