//! The decisions of one frame of the run loop.
//!
//! A frame polls the system, drains the event queue (asking the `quit`
//! callback before honouring a quit request and handing every other event to
//! its callback), steps the timer and calls `update`, mirrors the window pass
//! when there is one (submitting it unless `mirror` asks not to), and
//! presents. Any callback or graphics error ends the frame with that error.
//!
//! The frame is a state machine: [`begin_frame`] gives the first action, and
//! [`step`] takes the phase and the outcome of the last action and gives the
//! next phase and action. The host performs the actions. Before the first
//! frame, the start of the run (one timer step, then `load`) is a second,
//! smaller machine: [`begin_run`] and [`start_step`].
use vstd::prelude::*;

verus! {

/// What a frame tells the host: run another frame, or quit with an exit code.
#[derive(Clone, Copy, Debug, PartialEq, Eq, Structural)]
pub enum RunCommand {
    Continue,
    Quit(i32),
}

/// Where a frame stands; each phase waits for the outcome of the action
/// that was issued on entering it.
#[derive(Clone, Copy, Debug, PartialEq, Eq, Structural)]
pub enum FramePhase {
    /// Waiting for the system to pump its events.
    PollingSystem,
    /// Waiting for the next queued event.
    PollingEvents,
    /// Waiting for the `quit` callback's answer to a quit request.
    AskingQuit { exit_code: i32 },
    /// Waiting for the callback of a polled event.
    Dispatching,
    /// Waiting for the timer step and the `update` callback.
    Updating,
    /// Waiting for the window pass.
    AcquiringPass,
    /// Waiting for the `mirror` callback on the window pass.
    Mirroring,
    /// Waiting for the window pass to be submitted.
    Submitting,
    /// Waiting for the window to be presented.
    Presenting,
    /// The frame has ended; no outcome is expected.
    Finished,
}

/// What the host is asked to do next.
#[derive(Clone, Copy, Debug, PartialEq, Eq, Structural)]
pub enum FrameAction {
    /// Pump the system's events.
    PollSystemEvents,
    /// Take the next event from the queue.
    PollEvent,
    /// Call the `quit` callback.
    CallQuit,
    /// Hand the event just polled to its callback.
    Dispatch,
    /// Step the timer and call `update` with the elapsed time.
    Update,
    /// Fetch the window's render pass.
    GetWindowPass,
    /// Call `mirror` on the window pass.
    Mirror,
    /// Submit the window pass.
    Submit,
    /// Present the window.
    Present,
    /// End the frame with this command.
    Finish(RunCommand),
    /// End the frame with the error of the last action.
    Fail,
}

/// What the host reports after performing an action.
#[derive(Clone, Copy, Debug, PartialEq, Eq, Structural)]
pub enum FrameOutcome {
    /// The action completed.
    Done,
    /// The action returned an error.
    Failed,
    /// The event queue is empty.
    NoEvent,
    /// A quit request with its exit code was polled.
    QuitEvent(i32),
    /// Some other event was polled.
    OtherEvent,
    /// A callback answered with this flag (`quit`: keep running; `mirror`: skip submitting).
    Answer(bool),
    /// The window pass was fetched; the flag says whether there is one.
    WindowPass(bool),
}

/// The outcomes that a phase can receive.
pub open spec fn accepts(phase: FramePhase, outcome: FrameOutcome) -> bool {
    match phase {
        FramePhase::PollingSystem => outcome == FrameOutcome::Done,
        FramePhase::PollingEvents => outcome matches FrameOutcome::NoEvent
            || outcome matches FrameOutcome::QuitEvent(_)
            || outcome matches FrameOutcome::OtherEvent,
        FramePhase::AskingQuit { .. } => outcome matches FrameOutcome::Answer(_)
            || outcome == FrameOutcome::Failed,
        FramePhase::Dispatching => outcome == FrameOutcome::Done || outcome == FrameOutcome::Failed,
        FramePhase::Updating => outcome == FrameOutcome::Done || outcome == FrameOutcome::Failed,
        FramePhase::AcquiringPass => outcome matches FrameOutcome::WindowPass(_)
            || outcome == FrameOutcome::Failed,
        FramePhase::Mirroring => outcome matches FrameOutcome::Answer(_)
            || outcome == FrameOutcome::Failed,
        FramePhase::Submitting => outcome == FrameOutcome::Done || outcome == FrameOutcome::Failed,
        FramePhase::Presenting => outcome == FrameOutcome::Done || outcome == FrameOutcome::Failed,
        FramePhase::Finished => false,
    }
}

/// The transition of the frame: the next phase and the action to perform.
pub open spec fn next(phase: FramePhase, outcome: FrameOutcome) -> (FramePhase, FrameAction) {
    if outcome == FrameOutcome::Failed {
        (FramePhase::Finished, FrameAction::Fail)
    } else {
        match phase {
            FramePhase::PollingSystem => (FramePhase::PollingEvents, FrameAction::PollEvent),
            FramePhase::PollingEvents => match outcome {
                FrameOutcome::QuitEvent(exit_code) => (
                    FramePhase::AskingQuit { exit_code },
                    FrameAction::CallQuit,
                ),
                FrameOutcome::OtherEvent => (FramePhase::Dispatching, FrameAction::Dispatch),
                _ => (FramePhase::Updating, FrameAction::Update),
            },
            FramePhase::AskingQuit { exit_code } => if outcome == FrameOutcome::Answer(true) {
                (FramePhase::PollingEvents, FrameAction::PollEvent)
            } else {
                (FramePhase::Finished, FrameAction::Finish(RunCommand::Quit(exit_code)))
            },
            FramePhase::Dispatching => (FramePhase::PollingEvents, FrameAction::PollEvent),
            FramePhase::Updating => (FramePhase::AcquiringPass, FrameAction::GetWindowPass),
            FramePhase::AcquiringPass => if outcome == FrameOutcome::WindowPass(true) {
                (FramePhase::Mirroring, FrameAction::Mirror)
            } else {
                (FramePhase::Presenting, FrameAction::Present)
            },
            FramePhase::Mirroring => if outcome == FrameOutcome::Answer(false) {
                (FramePhase::Submitting, FrameAction::Submit)
            } else {
                (FramePhase::Presenting, FrameAction::Present)
            },
            FramePhase::Submitting => (FramePhase::Presenting, FrameAction::Present),
            FramePhase::Presenting => (FramePhase::Finished, FrameAction::Finish(RunCommand::Continue)),
            FramePhase::Finished => (FramePhase::Finished, FrameAction::Fail),
        }
    }
}

/// The phase and action that start a frame: pump the system's events.
pub fn begin_frame() -> (r: (FramePhase, FrameAction))
    ensures
        r == (begin_frame_phase(), FrameAction::PollSystemEvents),
{
    (FramePhase::PollingSystem, FrameAction::PollSystemEvents)
}

impl FramePhase {
    /// Whether this phase can receive `outcome`.
    pub fn accepts(&self, outcome: &FrameOutcome) -> (r: bool)
        ensures
            r == accepts(*self, *outcome),
    {
        match self {
            FramePhase::PollingSystem => match outcome {
                FrameOutcome::Done => true,
                _ => false,
            },
            FramePhase::PollingEvents => match outcome {
                FrameOutcome::NoEvent | FrameOutcome::QuitEvent(_) | FrameOutcome::OtherEvent => true,
                _ => false,
            },
            FramePhase::AskingQuit { .. } | FramePhase::Mirroring => match outcome {
                FrameOutcome::Answer(_) | FrameOutcome::Failed => true,
                _ => false,
            },
            FramePhase::AcquiringPass => match outcome {
                FrameOutcome::WindowPass(_) | FrameOutcome::Failed => true,
                _ => false,
            },
            FramePhase::Dispatching | FramePhase::Updating | FramePhase::Submitting
            | FramePhase::Presenting => match outcome {
                FrameOutcome::Done | FrameOutcome::Failed => true,
                _ => false,
            },
            FramePhase::Finished => false,
        }
    }
}

/// Advances the frame by the outcome of the last action.
pub fn step(phase: FramePhase, outcome: FrameOutcome) -> (r: (FramePhase, FrameAction))
    requires
        accepts(phase, outcome),
    ensures
        r == next(phase, outcome),
{
    if let FrameOutcome::Failed = outcome {
        return (FramePhase::Finished, FrameAction::Fail);
    }
    match phase {
        FramePhase::PollingSystem => (FramePhase::PollingEvents, FrameAction::PollEvent),
        FramePhase::PollingEvents => match outcome {
            FrameOutcome::QuitEvent(exit_code) => (
                FramePhase::AskingQuit { exit_code },
                FrameAction::CallQuit,
            ),
            FrameOutcome::OtherEvent => (FramePhase::Dispatching, FrameAction::Dispatch),
            _ => (FramePhase::Updating, FrameAction::Update),
        },
        FramePhase::AskingQuit { exit_code } => match outcome {
            FrameOutcome::Answer(true) => (FramePhase::PollingEvents, FrameAction::PollEvent),
            _ => (FramePhase::Finished, FrameAction::Finish(RunCommand::Quit(exit_code))),
        },
        FramePhase::Dispatching => (FramePhase::PollingEvents, FrameAction::PollEvent),
        FramePhase::Updating => (FramePhase::AcquiringPass, FrameAction::GetWindowPass),
        FramePhase::AcquiringPass => match outcome {
            FrameOutcome::WindowPass(true) => (FramePhase::Mirroring, FrameAction::Mirror),
            _ => (FramePhase::Presenting, FrameAction::Present),
        },
        FramePhase::Mirroring => match outcome {
            FrameOutcome::Answer(false) => (FramePhase::Submitting, FrameAction::Submit),
            _ => (FramePhase::Presenting, FrameAction::Present),
        },
        FramePhase::Submitting => (FramePhase::Presenting, FrameAction::Present),
        FramePhase::Presenting => (FramePhase::Finished, FrameAction::Finish(RunCommand::Continue)),
        FramePhase::Finished => (FramePhase::Finished, FrameAction::Fail),
    }
}


/// Whether an action ends the frame.
pub open spec fn is_terminal(action: FrameAction) -> bool {
    action matches FrameAction::Finish(_) || action == FrameAction::Fail
}

/// The actions that a frame starting in `phase` issues when the actions it
/// asks for have the outcomes `outcomes`, in order; `None` when some outcome
/// is not one that the phase of the moment can receive.
pub open spec fn run(phase: FramePhase, outcomes: Seq<FrameOutcome>) -> Option<Seq<FrameAction>>
    decreases outcomes.len(),
{
    if outcomes.len() == 0 {
        Some(Seq::empty())
    } else if !accepts(phase, outcomes[0]) {
        None
    } else {
        let (phase2, action) = next(phase, outcomes[0]);
        match run(phase2, outcomes.drop_first()) {
            Some(rest) => Some(seq![action] + rest),
            None => None,
        }
    }
}

/// An error from a callback or from the graphics module ends the frame at
/// once: whatever phase receives it, the frame finishes and reports the error.
pub proof fn lemma_errors_end_the_frame(phase: FramePhase)
    requires
        accepts(phase, FrameOutcome::Failed),
    ensures
        next(phase, FrameOutcome::Failed) == (FramePhase::Finished, FrameAction::Fail),
{
}

/// A quit request is honoured exactly when the `quit` callback does not
/// abort it: the frame then ends with the request's exit code; otherwise
/// polling goes on.
pub proof fn lemma_quit_request(exit_code: i32, keep_running: bool)
    ensures
        next(FramePhase::PollingEvents, FrameOutcome::QuitEvent(exit_code)) == (
            FramePhase::AskingQuit { exit_code },
            FrameAction::CallQuit,
        ),
        next(FramePhase::AskingQuit { exit_code }, FrameOutcome::Answer(keep_running)) == if keep_running {
            (FramePhase::PollingEvents, FrameAction::PollEvent)
        } else {
            (FramePhase::Finished, FrameAction::Finish(RunCommand::Quit(exit_code)))
        },
{
}

/// A frame ends with `Quit(code)` only when the `quit` callback declined to
/// abort a quit request that carried `code`.
pub proof fn lemma_quit_only_when_confirmed(phase: FramePhase, outcome: FrameOutcome, code: i32)
    requires
        accepts(phase, outcome),
        next(phase, outcome).1 == FrameAction::Finish(RunCommand::Quit(code)),
    ensures
        phase == (FramePhase::AskingQuit { exit_code: code }),
        outcome == FrameOutcome::Answer(false),
{
}

/// The timer is stepped and `update` called only once the event queue is
/// empty.
pub proof fn lemma_update_after_events_drained(phase: FramePhase, outcome: FrameOutcome)
    requires
        accepts(phase, outcome),
        next(phase, outcome).1 == FrameAction::Update,
    ensures
        phase == FramePhase::PollingEvents,
        outcome == FrameOutcome::NoEvent,
{
}

/// The window pass is submitted only when there is one and `mirror`
/// returned `false`.
pub proof fn lemma_submit_only_when_mirrored(phase: FramePhase, outcome: FrameOutcome)
    requires
        accepts(phase, outcome),
        next(phase, outcome).1 == FrameAction::Submit,
    ensures
        phase == FramePhase::Mirroring,
        outcome == FrameOutcome::Answer(false),
{
}

/// Once the window pass has been fetched, the frame goes on to present
/// the window (through `mirror`, and `submit` when asked for) unless an
/// error ends it.
pub proof fn lemma_pass_leads_to_present(has_pass: bool, skip_submit: bool)
    ensures
        next(FramePhase::AcquiringPass, FrameOutcome::WindowPass(has_pass)) == if has_pass {
            (FramePhase::Mirroring, FrameAction::Mirror)
        } else {
            (FramePhase::Presenting, FrameAction::Present)
        },
        next(FramePhase::Mirroring, FrameOutcome::Answer(skip_submit)) == if skip_submit {
            (FramePhase::Presenting, FrameAction::Present)
        } else {
            (FramePhase::Submitting, FrameAction::Submit)
        },
        next(FramePhase::Submitting, FrameOutcome::Done) == (
            FramePhase::Presenting,
            FrameAction::Present,
        ),
{
}

/// Each terminal action leaves the frame finished, and a finished frame
/// receives no outcome.
pub proof fn lemma_terminal_actions_finish(phase: FramePhase, outcome: FrameOutcome)
    requires
        accepts(phase, outcome),
    ensures
        is_terminal(next(phase, outcome).1) <==> next(phase, outcome).0 == FramePhase::Finished,
        !accepts(FramePhase::Finished, outcome),
{
}

/// Over any run of a frame, nothing is asked for after the frame has ended:
/// a terminal action can only be the last one.
pub proof fn lemma_nothing_after_the_end(phase: FramePhase, outcomes: Seq<FrameOutcome>)
    ensures
        run(phase, outcomes) matches Some(actions) ==> forall|i: int|
            0 <= i < actions.len() - 1 ==> !is_terminal(#[trigger] actions[i]),
    decreases outcomes.len(),
{
    if outcomes.len() > 0 && accepts(phase, outcomes[0]) {
        let (phase2, action) = next(phase, outcomes[0]);
        lemma_nothing_after_the_end(phase2, outcomes.drop_first());
        if let Some(rest) = run(phase2, outcomes.drop_first()) {
            let actions = seq![action] + rest;
            if is_terminal(action) {
                lemma_terminal_actions_finish(phase, outcomes[0]);
                if outcomes.drop_first().len() > 0 {
                    lemma_terminal_actions_finish(phase, outcomes.drop_first()[0]);
                }
                assert(rest.len() == 0);
            }
            assert forall|i: int| 0 <= i < actions.len() - 1 implies !is_terminal(
                #[trigger] actions[i],
            ) by {
                if i > 0 {
                    assert(actions[i] == rest[i - 1]);
                }
            }
        }
    }
}

/// A frame ends with `Continue` only right after the window was presented:
/// in any run, a `Finish(Continue)` action is preceded by `Present`, unless
/// it is the first action of a run that started while presenting.
pub proof fn lemma_continue_follows_present(phase: FramePhase, outcomes: Seq<FrameOutcome>)
    ensures
        run(phase, outcomes) matches Some(actions) ==> forall|i: int|
            0 <= i < actions.len() && #[trigger] actions[i] == FrameAction::Finish(
                RunCommand::Continue,
            ) ==> (i >= 1 && actions[i - 1] == FrameAction::Present) || (i == 0 && phase
                == FramePhase::Presenting),
    decreases outcomes.len(),
{
    if outcomes.len() > 0 && accepts(phase, outcomes[0]) {
        let (phase2, action) = next(phase, outcomes[0]);
        lemma_continue_follows_present(phase2, outcomes.drop_first());
        if let Some(rest) = run(phase2, outcomes.drop_first()) {
            let actions = seq![action] + rest;
            assert forall|i: int|
                0 <= i < actions.len() && #[trigger] actions[i] == FrameAction::Finish(
                    RunCommand::Continue,
                ) implies (i >= 1 && actions[i - 1] == FrameAction::Present) || (i == 0 && phase
                == FramePhase::Presenting) by {
                if i > 0 {
                    assert(actions[i] == rest[i - 1]);
                    if i >= 2 {
                        assert(actions[i - 1] == rest[i - 2]);
                    }
                }
            }
        }
    }
}

/// A frame started by [`begin_frame`] presents the window before it ends
/// with `Continue`.
pub proof fn lemma_frame_presents_before_continuing(outcomes: Seq<FrameOutcome>)
    ensures
        run(begin_frame_phase(), outcomes) matches Some(actions) ==> forall|i: int|
            0 <= i < actions.len() && #[trigger] actions[i] == FrameAction::Finish(
                RunCommand::Continue,
            ) ==> i >= 1 && actions[i - 1] == FrameAction::Present,
{
    lemma_continue_follows_present(begin_frame_phase(), outcomes);
}

/// The phase in which a frame starts.
pub open spec fn begin_frame_phase() -> FramePhase {
    FramePhase::PollingSystem
}


/// Whether the frame's actions end with `Finish(Quit(_))`.
pub open spec fn ends_with_quit(actions: Seq<FrameAction>) -> bool {
    actions.len() > 0 && actions.last() matches FrameAction::Finish(RunCommand::Quit(_))
}

/// Whether the frame's actions end with `Finish(Continue)`.
pub open spec fn ends_with_continue(actions: Seq<FrameAction>) -> bool {
    actions.len() > 0 && actions.last() == FrameAction::Finish(RunCommand::Continue)
}

/// How many times `action` occurs in `actions`.
pub open spec fn count_of(actions: Seq<FrameAction>, action: FrameAction) -> nat
    decreases actions.len(),
{
    if actions.len() == 0 {
        0
    } else {
        (if actions[0] == action {
            1nat
        } else {
            0nat
        }) + count_of(actions.drop_first(), action)
    }
}

/// How far a frame has come: draining events (0), updating and drawing
/// (1), presenting (2), or finished (3).
pub open spec fn stage(phase: FramePhase) -> int {
    match phase {
        FramePhase::PollingSystem | FramePhase::PollingEvents | FramePhase::AskingQuit { .. }
        | FramePhase::Dispatching => 0,
        FramePhase::Updating | FramePhase::AcquiringPass | FramePhase::Mirroring
        | FramePhase::Submitting => 1,
        FramePhase::Presenting => 2,
        FramePhase::Finished => 3,
    }
}

/// Proof that a step moves the frame on by one stage exactly when it asks
/// for `Update` or `Present`, and that each terminal action comes from the
/// stage it concludes.
proof fn lemma_step_stage(phase: FramePhase, outcome: FrameOutcome)
    requires
        accepts(phase, outcome),
    ensures
        ({
            let (phase2, action) = next(phase, outcome);
            &&& stage(phase) <= 2
            &&& !is_terminal(action) ==> stage(phase2) == stage(phase) + if action
                == FrameAction::Update || action == FrameAction::Present {
                1int
            } else {
                0int
            }
            &&& action == FrameAction::Update ==> stage(phase) == 0
            &&& action == FrameAction::Present ==> stage(phase) == 1
            &&& action == FrameAction::Finish(RunCommand::Continue) ==> stage(phase) == 2
            &&& ends_with_quit(seq![action]) ==> stage(phase) == 0
        }),
{
}

/// Proof of the counts of `Update` and `Present` over a run from any phase
/// that ends the frame with a command.
proof fn lemma_counts_from(phase: FramePhase, outcomes: Seq<FrameOutcome>)
    ensures
        run(phase, outcomes) matches Some(actions) ==> (ends_with_continue(actions) ==> count_of(actions, FrameAction::Update)
            == (if stage(phase) == 0 {
            1nat
        } else {
            0nat
        }) && count_of(actions, FrameAction::Present) == (if stage(phase) <= 1 {
            1nat
        } else {
            0nat
        })) && (ends_with_quit(actions) ==> stage(phase) == 0 && count_of(actions, FrameAction::Update) == 0 && count_of(
            actions,
            FrameAction::Present,
        ) == 0),
    decreases outcomes.len(),
{
    if outcomes.len() > 0 && accepts(phase, outcomes[0]) {
        let (phase2, action) = next(phase, outcomes[0]);
        lemma_step_stage(phase, outcomes[0]);
        lemma_counts_from(phase2, outcomes.drop_first());
        if let Some(rest) = run(phase2, outcomes.drop_first()) {
            let actions = seq![action] + rest;
            assert(actions.drop_first() == rest);
            assert(actions[0] == action);
            if rest.len() == 0 {
                assert(actions.last() == action);
                assert(count_of(rest, FrameAction::Update) == 0);
                assert(count_of(rest, FrameAction::Present) == 0);
            } else {
                assert(actions.last() == rest.last());
                if is_terminal(action) {
                    lemma_terminal_actions_finish(phase, outcomes[0]);
                    lemma_terminal_actions_finish(phase2, outcomes.drop_first()[0]);
                    assert(false);
                }
            }
        }
    }
}

/// A frame started by [`begin_frame`] that ends with `Continue` has asked
/// for `Update` exactly once and for `Present` exactly once; one that ends
/// with `Quit` has asked for neither. (The frame's first action,
/// `PollSystemEvents`, is neither.)
pub proof fn lemma_frame_updates_and_presents(outcomes: Seq<FrameOutcome>)
    ensures
        run(begin_frame_phase(), outcomes) matches Some(actions) ==> (ends_with_continue(actions) ==> count_of(
            actions,
            FrameAction::Update,
        ) == 1 && count_of(actions, FrameAction::Present) == 1) && (ends_with_quit(actions) ==> count_of(
            actions,
            FrameAction::Update,
        ) == 0 && count_of(actions, FrameAction::Present) == 0),
{
    lemma_counts_from(begin_frame_phase(), outcomes);
}


/// Where the start of a run stands: before the frames, the timer is
/// stepped once and the `load` callback called once.
#[derive(Clone, Copy, Debug, PartialEq, Eq, Structural)]
pub enum StartPhase {
    /// Waiting for the first step of the timer.
    SteppingTimer,
    /// Waiting for the `load` callback.
    Loading,
    /// The start has ended; no outcome is expected.
    Over,
}

/// What the host is asked to do while starting a run. Frames have no
/// `load` action, so `load` is called only here.
#[derive(Clone, Copy, Debug, PartialEq, Eq, Structural)]
pub enum StartAction {
    /// Step the timer, so that the first frame measures from here.
    StepTimer,
    /// Call `load`.
    Load,
    /// The run has started: hand out the frame function.
    BeginFrames,
    /// End the start with the error of `load`.
    Fail,
}

/// The phase in which a run starts.
pub open spec fn begin_run_phase() -> StartPhase {
    StartPhase::SteppingTimer
}

/// The outcomes that a start phase can receive.
pub open spec fn start_accepts(phase: StartPhase, outcome: FrameOutcome) -> bool {
    match phase {
        StartPhase::SteppingTimer => outcome == FrameOutcome::Done,
        StartPhase::Loading => outcome == FrameOutcome::Done || outcome == FrameOutcome::Failed,
        StartPhase::Over => false,
    }
}

/// The transition of the start: the next phase and the action to perform.
pub open spec fn start_next(phase: StartPhase, outcome: FrameOutcome) -> (StartPhase, StartAction) {
    match phase {
        StartPhase::SteppingTimer => (StartPhase::Loading, StartAction::Load),
        StartPhase::Loading => if outcome == FrameOutcome::Done {
            (StartPhase::Over, StartAction::BeginFrames)
        } else {
            (StartPhase::Over, StartAction::Fail)
        },
        StartPhase::Over => (StartPhase::Over, StartAction::Fail),
    }
}

/// The phase and action that start a run: step the timer.
pub fn begin_run() -> (r: (StartPhase, StartAction))
    ensures
        r == (begin_run_phase(), StartAction::StepTimer),
{
    (StartPhase::SteppingTimer, StartAction::StepTimer)
}

impl StartPhase {
    /// Whether this phase can receive `outcome`.
    pub fn accepts(&self, outcome: &FrameOutcome) -> (r: bool)
        ensures
            r == start_accepts(*self, *outcome),
    {
        match self {
            StartPhase::SteppingTimer => match outcome {
                FrameOutcome::Done => true,
                _ => false,
            },
            StartPhase::Loading => match outcome {
                FrameOutcome::Done | FrameOutcome::Failed => true,
                _ => false,
            },
            StartPhase::Over => false,
        }
    }
}

/// Advances the start of a run by the outcome of the last action.
pub fn start_step(phase: StartPhase, outcome: FrameOutcome) -> (r: (StartPhase, StartAction))
    requires
        start_accepts(phase, outcome),
    ensures
        r == start_next(phase, outcome),
{
    match phase {
        StartPhase::SteppingTimer => (StartPhase::Loading, StartAction::Load),
        StartPhase::Loading => match outcome {
            FrameOutcome::Done => (StartPhase::Over, StartAction::BeginFrames),
            _ => (StartPhase::Over, StartAction::Fail),
        },
        StartPhase::Over => (StartPhase::Over, StartAction::Fail),
    }
}

/// The actions that the start of a run issues after its first one, when
/// they have the outcomes `outcomes`; `None` when some outcome is not one
/// that the phase of the moment can receive.
pub open spec fn run_start(phase: StartPhase, outcomes: Seq<FrameOutcome>) -> Option<
    Seq<StartAction>,
>
    decreases outcomes.len(),
{
    if outcomes.len() == 0 {
        Some(Seq::empty())
    } else if !start_accepts(phase, outcomes[0]) {
        None
    } else {
        let (phase2, action) = start_next(phase, outcomes[0]);
        match run_start(phase2, outcomes.drop_first()) {
            Some(rest) => Some(seq![action] + rest),
            None => None,
        }
    }
}

/// Starting a run calls `load` exactly once, right after the first timer
/// step and before anything else; the frames begin only when `load`
/// succeeded, and the start then ends. With frames unable to call `load`,
/// `load` is called once over a run and all its frames.
pub proof fn lemma_load_once_before_frames(outcomes: Seq<FrameOutcome>)
    ensures
        run_start(begin_run_phase(), outcomes) matches Some(actions) ==> {
            &&& actions.len() <= 2
            &&& actions.len() >= 1 ==> actions[0] == StartAction::Load
            &&& actions.len() == 2 ==> (actions[1] == StartAction::BeginFrames <==> outcomes[1]
                == FrameOutcome::Done)
            &&& actions.len() == 2 ==> (actions[1] == StartAction::BeginFrames || actions[1]
                == StartAction::Fail)
        },
{
    if outcomes.len() > 0 && start_accepts(begin_run_phase(), outcomes[0]) {
        let tail = outcomes.drop_first();
        if tail.len() == 0 {
            assert(run_start(StartPhase::Loading, tail) == Some(Seq::<StartAction>::empty()));
            assert(run_start(begin_run_phase(), outcomes) == Some(
                seq![StartAction::Load] + Seq::<StartAction>::empty(),
            ));
        } else if start_accepts(StartPhase::Loading, tail[0]) {
            let tail2 = tail.drop_first();
            let (phase2, action2) = start_next(StartPhase::Loading, tail[0]);
            if tail2.len() > 0 {
                assert(run_start(StartPhase::Over, tail2) is None);
                assert(run_start(StartPhase::Loading, tail) is None);
            } else {
                assert(run_start(StartPhase::Over, tail2) == Some(Seq::<StartAction>::empty()));
                assert(run_start(StartPhase::Loading, tail) == Some(
                    seq![action2] + Seq::<StartAction>::empty(),
                ));
                let actions = seq![StartAction::Load] + (seq![action2] + Seq::<StartAction>::empty());
                assert(run_start(begin_run_phase(), outcomes) == Some(actions));
                assert(actions.len() == 2);
                assert(actions[1] == action2);
                assert(outcomes[1] == tail[0]);
            }
        } else {
            assert(run_start(StartPhase::Loading, tail) is None);
        }
    }
}

/// The course of a frame without errors or quit requests: pump the
/// system, poll until the queue is empty (dispatching each event), update,
/// fetch the window pass, and after presenting end with `Continue`.
pub proof fn lemma_frame_course()
    ensures
        next(FramePhase::PollingSystem, FrameOutcome::Done) == (
            FramePhase::PollingEvents,
            FrameAction::PollEvent,
        ),
        next(FramePhase::PollingEvents, FrameOutcome::OtherEvent) == (
            FramePhase::Dispatching,
            FrameAction::Dispatch,
        ),
        next(FramePhase::Dispatching, FrameOutcome::Done) == (
            FramePhase::PollingEvents,
            FrameAction::PollEvent,
        ),
        next(FramePhase::PollingEvents, FrameOutcome::NoEvent) == (
            FramePhase::Updating,
            FrameAction::Update,
        ),
        next(FramePhase::Updating, FrameOutcome::Done) == (
            FramePhase::AcquiringPass,
            FrameAction::GetWindowPass,
        ),
        next(FramePhase::Presenting, FrameOutcome::Done) == (
            FramePhase::Finished,
            FrameAction::Finish(RunCommand::Continue),
        ),
{
}

/// Every phase that waits for a callback or a graphics call can receive
/// its failure; pumping the system and polling cannot fail; a finished
/// frame receives nothing.
pub proof fn lemma_which_phases_can_fail(exit_code: i32)
    ensures
        accepts(FramePhase::AskingQuit { exit_code }, FrameOutcome::Failed),
        accepts(FramePhase::Dispatching, FrameOutcome::Failed),
        accepts(FramePhase::Updating, FrameOutcome::Failed),
        accepts(FramePhase::AcquiringPass, FrameOutcome::Failed),
        accepts(FramePhase::Mirroring, FrameOutcome::Failed),
        accepts(FramePhase::Submitting, FrameOutcome::Failed),
        accepts(FramePhase::Presenting, FrameOutcome::Failed),
        !accepts(FramePhase::PollingSystem, FrameOutcome::Failed),
        !accepts(FramePhase::PollingEvents, FrameOutcome::Failed),
        !accepts(FramePhase::Finished, FrameOutcome::Failed),
        accepts(FramePhase::PollingEvents, FrameOutcome::NoEvent),
        accepts(FramePhase::PollingEvents, FrameOutcome::OtherEvent),
        accepts(FramePhase::PollingEvents, FrameOutcome::QuitEvent(exit_code)),
        accepts(FramePhase::AskingQuit { exit_code }, FrameOutcome::Answer(true)),
        accepts(FramePhase::AskingQuit { exit_code }, FrameOutcome::Answer(false)),
        accepts(FramePhase::AcquiringPass, FrameOutcome::WindowPass(true)),
        accepts(FramePhase::AcquiringPass, FrameOutcome::WindowPass(false)),
        accepts(FramePhase::Mirroring, FrameOutcome::Answer(true)),
        accepts(FramePhase::Mirroring, FrameOutcome::Answer(false)),
{
}

} // verus!
