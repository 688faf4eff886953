//! The login state machine: buffer mechanics, the submit rule, and
//! the two-factor gate out of `Validating`.

use greeter::app::{App, AppStage, InputEvent};

fn fresh(pass_length: usize) -> App {
    App::new(String::from("malo"), pass_length, 0)
}

fn type_chars(a: &mut App, s: &str, now_ms: u64) {
    for c in s.chars() {
        let r = a.handle_event(InputEvent::Character(c), now_ms);
        assert!(r.is_none());
    }
}

#[test]
fn buffer_never_exceeds_required_length() {
    let mut a = fresh(4);
    for (i, c) in "abcdefghij".chars().enumerate() {
        let _ = a.handle_event(InputEvent::Character(c), i as u64);
        assert!(a.current_input.len() <= 4);
    }
    assert_eq!(a.current_input.len(), 4);
    assert_eq!(a.current_input, vec!['a', 'b', 'c', 'd']);
}

#[test]
fn backspace_on_empty_buffer_is_a_noop() {
    let mut a = fresh(4);
    let r = a.handle_event(InputEvent::Back, 1);
    assert!(r.is_none());
    assert!(a.current_input.is_empty());
    assert!(matches!(a.stage, AppStage::Inputing { .. }));
}

#[test]
fn backspace_five_times_on_two_characters_empties_the_buffer() {
    let mut a = fresh(4);
    type_chars(&mut a, "ab", 1);
    for t in 0..5u64 {
        let r = a.handle_event(InputEvent::Back, 2 + t);
        assert!(r.is_none());
    }
    assert!(a.current_input.is_empty());
    assert!(matches!(a.stage, AppStage::Inputing { .. }));
}

#[test]
fn short_enter_only_rearms_a_500ms_flash() {
    let mut a = fresh(4);
    type_chars(&mut a, "ab1", 1);
    let r = a.handle_event(InputEvent::Return, 42);
    assert!(r.is_none());
    assert_eq!(
        a.stage,
        AppStage::Inputing { ball_red_flash_duration: 500, ball_red_flash_start: 42 }
    );
    assert_eq!(a.current_input, vec!['a', 'b', '1']);
}

#[test]
fn full_enter_submits_exactly_once_and_validating_accepts_no_input() {
    let mut a = fresh(4);
    type_chars(&mut a, "ab12", 1);
    let r = a.handle_event(InputEvent::Return, 100);
    let req = r.expect("a complete buffer must submit");
    assert_eq!(req.username, "malo");
    assert_eq!(req.password, vec!['a', 'b', '1', '2']);
    assert_eq!(
        a.stage,
        AppStage::Validating { start: 100, finished: false, succeed: false }
    );

    // No new submit while validating: every event is ignored.
    assert!(a.handle_event(InputEvent::Return, 101).is_none());
    assert!(a.handle_event(InputEvent::Character('x'), 102).is_none());
    assert!(a.handle_event(InputEvent::Back, 103).is_none());
    assert_eq!(
        a.stage,
        AppStage::Validating { start: 100, finished: false, succeed: false }
    );
    assert_eq!(a.current_input, vec!['a', 'b', '1', '2']);
}

#[test]
fn validating_lasts_at_least_2000ms_despite_an_early_failure() {
    // Input "ab12", enter: validating immediately; worker fails at
    // 200 ms; no transition out before 2000 ms have elapsed.
    let mut a = fresh(4);
    type_chars(&mut a, "ab12", 1);
    let r = a.handle_event(InputEvent::Return, 0);
    assert!(r.is_some());
    a.update(100);
    a.login_result(false);
    a.update(200);
    assert!(matches!(a.stage, AppStage::Validating { .. }));
    a.update(1999);
    assert!(matches!(a.stage, AppStage::Validating { .. }));
    a.update(2000);
    assert!(matches!(a.stage, AppStage::Inputing { .. }));
}

#[test]
fn late_failure_transitions_when_the_worker_reports() {
    // Worker reports failure at 2500 ms: transition at 2500 ms to
    // inputing, buffer empty, flash duration 2000 ms.
    let mut a = fresh(4);
    type_chars(&mut a, "ab12", 1);
    let _ = a.handle_event(InputEvent::Return, 0);
    a.update(2400);
    assert!(matches!(a.stage, AppStage::Validating { .. }));
    a.login_result(false);
    a.update(2500);
    assert_eq!(
        a.stage,
        AppStage::Inputing { ball_red_flash_duration: 2000, ball_red_flash_start: 2500 }
    );
    assert!(a.current_input.is_empty());
}

#[test]
fn early_success_waits_for_the_duration_floor() {
    // Worker reports success at 1000 ms: the transition to logging in
    // happens at 2000 ms, not at 1000 ms.
    let mut a = fresh(4);
    type_chars(&mut a, "ab12", 1);
    let _ = a.handle_event(InputEvent::Return, 0);
    a.login_result(true);
    a.update(1000);
    assert!(matches!(a.stage, AppStage::Validating { .. }));
    a.update(1999);
    assert!(matches!(a.stage, AppStage::Validating { .. }));
    a.update(2000);
    assert_eq!(a.stage, AppStage::LoggingIn { start: 2000 });
}

#[test]
fn failure_clears_the_buffer_and_arms_a_2000ms_flash() {
    let mut a = fresh(4);
    type_chars(&mut a, "ab12", 1);
    let _ = a.handle_event(InputEvent::Return, 0);
    a.login_result(false);
    a.update(3000);
    assert_eq!(
        a.stage,
        AppStage::Inputing { ball_red_flash_duration: 2000, ball_red_flash_start: 3000 }
    );
    assert!(a.current_input.is_empty());
}

#[test]
fn logging_in_is_terminal() {
    let mut a = fresh(2);
    type_chars(&mut a, "ab", 1);
    let _ = a.handle_event(InputEvent::Return, 0);
    a.login_result(true);
    a.update(2000);
    assert_eq!(a.stage, AppStage::LoggingIn { start: 2000 });

    assert!(a.handle_event(InputEvent::Character('x'), 2001).is_none());
    assert!(a.handle_event(InputEvent::Return, 2002).is_none());
    a.update(9999);
    assert_eq!(a.stage, AppStage::LoggingIn { start: 2000 });
}

#[test]
fn stage_constructors_match_their_rules() {
    let s = AppStage::inputing(1000);
    assert_eq!(
        s,
        AppStage::Inputing { ball_red_flash_duration: 500, ball_red_flash_start: 500 }
    );
    assert!(!s.flash_active(1000));

    let f = s.with_red_flash(2000, 1000);
    assert_eq!(
        f,
        AppStage::Inputing { ball_red_flash_duration: 2000, ball_red_flash_start: 1000 }
    );
    assert!(f.flash_active(1000));
    assert!(f.flash_active(2999));
    assert!(!f.flash_active(3000));

    assert_eq!(
        AppStage::validating(7),
        AppStage::Validating { start: 7, finished: false, succeed: false }
    );
    assert_eq!(AppStage::logging_in(9), AppStage::LoggingIn { start: 9 });
}

#[test]
fn early_inputing_flash_is_expired_even_near_zero() {
    let s = AppStage::inputing(100);
    assert_eq!(
        s,
        AppStage::Inputing { ball_red_flash_duration: 500, ball_red_flash_start: 0 }
    );
}
