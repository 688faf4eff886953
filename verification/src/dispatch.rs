//! The frame-loop dispatcher decisions: what each event of the
//! single-threaded loop leads to, and the teardown order on exit.
//!
//! The loop itself - the window, the clock, the threads - belongs to
//! the surrounding application; it performs exactly the action this
//! module maps each event to.

use vstd::prelude::*;
use crate::pam_wrapper::Author;

verus! {

/// The delay after a worker's result before the session-start message
/// is emitted by the detached timer thread.
pub const SESSION_START_DELAY_MS: u64 = 2000;

/// A cross-thread message delivered to the dispatcher, exactly once
/// per dispatched authentication attempt.
#[derive(Debug)]
pub enum UserEvent {
    /// The worker finished its native calling sequence.
    LoginResult { success: bool, username: String, password: String, author: Author },
    /// The timer elapsed: hand the session over.
    StartSession { username: String, author: Author },
}

/// One event of the frame loop, as the windowing front end and the
/// cross-thread channel deliver them.
#[derive(Clone, Copy, Debug)]
pub enum LoopEvent {
    /// The window was asked to close.
    CloseRequested,
    /// The escape key was pressed.
    EscapePressed,
    /// Any other window or keyboard event.
    OtherWindowEvent,
    /// All buffered events of this tick were delivered.
    MainEventsCleared,
    /// A worker thread reported its result.
    LoginResultMessage { success: bool },
    /// The post-result timer elapsed.
    StartSessionMessage,
    /// The window asked to be redrawn.
    RedrawRequested,
    /// The loop is being destroyed.
    LoopDestroyed,
}

/// The action the dispatcher takes for one event.
#[derive(Clone, Copy, Debug)]
pub enum LoopAction {
    /// Leave the loop; teardown follows.
    ExitLoop,
    /// Hand the event to the login machine.
    ForwardToApp,
    /// Ask the window for a redraw.
    RequestRedraw,
    /// Record the result in the machine and start the detached timer
    /// that will emit the session-start message.
    FeedResultAndArmTimer { success: bool },
    /// Launch the session, record its child handle for the teardown,
    /// and leave the loop.
    LaunchSessionAndExit,
    /// Run one frame: advance the machine and draw.
    DrawFrame,
    /// Run the teardown steps.
    RunTeardown,
}

/// The dispatch rule. Window-close and escape exit unconditionally,
/// whatever stage the login machine is in.
pub open spec fn dispatch_spec(ev: LoopEvent) -> LoopAction {
    match ev {
        LoopEvent::CloseRequested => LoopAction::ExitLoop,
        LoopEvent::EscapePressed => LoopAction::ExitLoop,
        LoopEvent::OtherWindowEvent => LoopAction::ForwardToApp,
        LoopEvent::MainEventsCleared => LoopAction::RequestRedraw,
        LoopEvent::LoginResultMessage { success } => LoopAction::FeedResultAndArmTimer { success },
        LoopEvent::StartSessionMessage => LoopAction::LaunchSessionAndExit,
        LoopEvent::RedrawRequested => LoopAction::DrawFrame,
        LoopEvent::LoopDestroyed => LoopAction::RunTeardown,
    }
}

/// Decide what one loop event leads to.
pub fn dispatch(ev: LoopEvent) -> (r: LoopAction)
    ensures
        r == dispatch_spec(ev),
{
    match ev {
        LoopEvent::CloseRequested => LoopAction::ExitLoop,
        LoopEvent::EscapePressed => LoopAction::ExitLoop,
        LoopEvent::OtherWindowEvent => LoopAction::ForwardToApp,
        LoopEvent::MainEventsCleared => LoopAction::RequestRedraw,
        LoopEvent::LoginResultMessage { success } => LoopAction::FeedResultAndArmTimer { success },
        LoopEvent::StartSessionMessage => LoopAction::LaunchSessionAndExit,
        LoopEvent::RedrawRequested => LoopAction::DrawFrame,
        LoopEvent::LoopDestroyed => LoopAction::RunTeardown,
    }
}

impl UserEvent {
    /// The loop event a cross-thread message dispatches as.
    pub fn loop_event(&self) -> (r: LoopEvent)
        ensures
            (*self matches UserEvent::LoginResult { success, .. } ==> r == (
            LoopEvent::LoginResultMessage { success })),
            *self is StartSession ==> r == LoopEvent::StartSessionMessage,
    {
        match self {
            UserEvent::LoginResult { success, .. } => LoopEvent::LoginResultMessage {
                success: *success,
            },
            UserEvent::StartSession { .. } => LoopEvent::StartSessionMessage,
        }
    }
}

/// One step of the teardown that follows loop exit.
#[derive(Clone, Copy, Debug, PartialEq, Eq, Structural)]
pub enum TeardownStep {
    /// Await the exit of the launched session process.
    AwaitSession,
    /// Stop the display server.
    StopDisplayServer,
}

/// The teardown order: if a session process was recorded its exit is
/// awaited first, and the display server is stopped only after it -
/// the safer of the two orderings, so the session never outlives its
/// display server.
pub fn shutdown_steps(session_recorded: bool) -> (steps: Vec<TeardownStep>)
    ensures
        session_recorded ==> steps@ =~= seq![
            TeardownStep::AwaitSession,
            TeardownStep::StopDisplayServer,
        ],
        !session_recorded ==> steps@ =~= seq![TeardownStep::StopDisplayServer],
{
    let mut steps: Vec<TeardownStep> = Vec::new();
    if session_recorded {
        steps.push(TeardownStep::AwaitSession);
    }
    steps.push(TeardownStep::StopDisplayServer);
    steps
}

} // verus!
