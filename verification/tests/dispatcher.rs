//! The frame-loop dispatch rule and the teardown ordering.

use greeter::dispatch::{
    dispatch, shutdown_steps, LoopAction, LoopEvent, TeardownStep, UserEvent,
    SESSION_START_DELAY_MS,
};
use greeter::pam_wrapper::Author;

#[test]
fn close_and_escape_exit_unconditionally() {
    assert!(matches!(dispatch(LoopEvent::CloseRequested), LoopAction::ExitLoop));
    assert!(matches!(dispatch(LoopEvent::EscapePressed), LoopAction::ExitLoop));
}

#[test]
fn ordinary_events_feed_the_machine_and_the_renderer() {
    assert!(matches!(dispatch(LoopEvent::OtherWindowEvent), LoopAction::ForwardToApp));
    assert!(matches!(dispatch(LoopEvent::MainEventsCleared), LoopAction::RequestRedraw));
    assert!(matches!(dispatch(LoopEvent::RedrawRequested), LoopAction::DrawFrame));
    assert!(matches!(dispatch(LoopEvent::LoopDestroyed), LoopAction::RunTeardown));
}

#[test]
fn worker_messages_drive_the_handoff() {
    assert!(matches!(
        dispatch(LoopEvent::LoginResultMessage { success: true }),
        LoopAction::FeedResultAndArmTimer { success: true }
    ));
    assert!(matches!(
        dispatch(LoopEvent::LoginResultMessage { success: false }),
        LoopAction::FeedResultAndArmTimer { success: false }
    ));
    assert!(matches!(
        dispatch(LoopEvent::StartSessionMessage),
        LoopAction::LaunchSessionAndExit
    ));
    assert_eq!(SESSION_START_DELAY_MS, 2000);
}

#[test]
fn cross_thread_messages_map_to_their_loop_events() {
    let login = UserEvent::LoginResult {
        success: true,
        username: String::from("malo"),
        password: String::from("ab12"),
        author: Author::new(),
    };
    assert!(matches!(
        login.loop_event(),
        LoopEvent::LoginResultMessage { success: true }
    ));

    let start = UserEvent::StartSession { username: String::from("malo"), author: Author::new() };
    assert!(matches!(start.loop_event(), LoopEvent::StartSessionMessage));
}

#[test]
fn teardown_awaits_the_session_before_stopping_the_display_server() {
    assert_eq!(
        shutdown_steps(true),
        vec![TeardownStep::AwaitSession, TeardownStep::StopDisplayServer]
    );
    assert_eq!(shutdown_steps(false), vec![TeardownStep::StopDisplayServer]);
}
