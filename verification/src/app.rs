//! The login state machine: collects a fixed-length credential,
//! dispatches one authentication attempt per complete submission, and
//! sequences the `Inputing -> Validating -> LoggingIn` progression
//! under the two-factor gate (worker finished AND minimum duration).
//!
//! All times are in milliseconds on the caller's monotonic clock; the
//! surrounding application samples the clock and passes it in.

use vstd::prelude::*;

verus! {

/// The stage the greeter is in. Exactly one is live at a time.
#[derive(Clone, Copy, Debug, PartialEq, Eq, Structural)]
pub enum AppStage {
    /// Collecting the credential. The ball flashes red for
    /// `ball_red_flash_duration` ms starting at `ball_red_flash_start`.
    Inputing { ball_red_flash_duration: u64, ball_red_flash_start: u64 },
    /// One authentication attempt is in flight on a worker thread.
    Validating { start: u64, finished: bool, succeed: bool },
    /// Authentication succeeded; terminal stage, no input is accepted.
    LoggingIn { start: u64 },
}

/// Flash start recorded by a fresh `Inputing` stage: one flash length
/// in the past, so the initial short flash is already over (clamped
/// at the clock's origin in the machine's first half second).
pub open spec fn flash_expired_start(now_ms: u64) -> u64 {
    if now_ms >= 500 {
        (now_ms - 500) as u64
    } else {
        0u64
    }
}

/// The stage a fresh machine starts in.
pub open spec fn stage_inputing(now_ms: u64) -> AppStage {
    AppStage::Inputing {
        ball_red_flash_duration: 500u64,
        ball_red_flash_start: flash_expired_start(now_ms),
    }
}

impl AppStage {
    /// A fresh input stage whose short flash has already expired.
    pub fn inputing(now_ms: u64) -> (r: Self)
        ensures
            r == stage_inputing(now_ms),
    {
        let start: u64 = if now_ms >= 500 {
            now_ms - 500
        } else {
            0
        };
        AppStage::Inputing { ball_red_flash_duration: 500, ball_red_flash_start: start }
    }

    /// Re-arm the red flash cue; only meaningful while inputing.
    pub fn with_red_flash(&self, dur: u64, now_ms: u64) -> (r: Self)
        requires
            self is Inputing,
        ensures
            r == (AppStage::Inputing { ball_red_flash_duration: dur, ball_red_flash_start: now_ms }),
    {
        AppStage::Inputing { ball_red_flash_duration: dur, ball_red_flash_start: now_ms }
    }

    /// The stage entered when a submission is dispatched.
    pub fn validating(now_ms: u64) -> (r: Self)
        ensures
            r == (AppStage::Validating { start: now_ms, finished: false, succeed: false }),
    {
        AppStage::Validating { start: now_ms, finished: false, succeed: false }
    }

    /// The terminal stage entered on a successful attempt.
    pub fn logging_in(now_ms: u64) -> (r: Self)
        ensures
            r == (AppStage::LoggingIn { start: now_ms }),
    {
        AppStage::LoggingIn { start: now_ms }
    }

    /// Whether the red flash cue is still showing at `now_ms`; read by
    /// the renderer only, never by a transition rule.
    pub fn flash_active(&self, now_ms: u64) -> (r: bool)
        ensures
            r == (*self matches AppStage::Inputing { ball_red_flash_duration, ball_red_flash_start }
                && now_ms >= ball_red_flash_start
                && now_ms - ball_red_flash_start < ball_red_flash_duration),
    {
        match *self {
            AppStage::Inputing { ball_red_flash_duration, ball_red_flash_start } => now_ms
                >= ball_red_flash_start && now_ms - ball_red_flash_start
                < ball_red_flash_duration,
            _ => false,
        }
    }
}

/// A keyboard event, as the windowing front end delivers it.
#[derive(Clone, Copy, Debug)]
pub enum InputEvent {
    /// A printable character was typed.
    Character(char),
    /// The backspace key was pressed.
    Back,
    /// The enter key was pressed.
    Return,
}

/// A credential submission handed to the authentication worker: the
/// login name and a copy of the pending buffer.
#[derive(Debug)]
pub struct LoginRequest {
    pub username: String,
    pub password: Vec<char>,
}

/// The greeter machine: exactly the state the transition rules read.
#[derive(Debug)]
pub struct App {
    /// The one fixed account this greeter logs in.
    pub login_username: String,
    /// The required credential length.
    pub pass_length: usize,
    /// The pending credential buffer.
    pub current_input: Vec<char>,
    /// The live stage.
    pub stage: AppStage,
}

/// Mathematical view of [`App`].
#[verifier::ext_equal]
pub struct AppView {
    pub login_username: Seq<char>,
    pub pass_length: nat,
    pub current_input: Seq<char>,
    pub stage: AppStage,
}

impl View for App {
    type V = AppView;

    open spec fn view(&self) -> AppView {
        AppView {
            login_username: self.login_username@,
            pass_length: self.pass_length as nat,
            current_input: self.current_input@,
            stage: self.stage,
        }
    }
}

/// The machine invariant: the pending buffer never exceeds the
/// required length.
pub open spec fn view_wf(v: AppView) -> bool {
    v.current_input.len() <= v.pass_length
}

/// What one keyboard event does to the machine state. Events are
/// consumed only while inputing; `Validating` and `LoggingIn` accept
/// no input at all.
pub open spec fn step_event(v: AppView, ev: InputEvent, now_ms: u64) -> AppView {
    if !(v.stage is Inputing) {
        v
    } else {
        match ev {
            InputEvent::Character(c) => if v.current_input.len() < v.pass_length {
                AppView { current_input: v.current_input.push(c), ..v }
            } else {
                v
            },
            InputEvent::Back => if v.current_input.len() == 0 {
                v
            } else {
                AppView { current_input: v.current_input.drop_last(), ..v }
            },
            InputEvent::Return => if v.current_input.len() < v.pass_length {
                AppView {
                    stage: AppStage::Inputing {
                        ball_red_flash_duration: 500u64,
                        ball_red_flash_start: now_ms,
                    },
                    ..v
                }
            } else {
                AppView {
                    stage: AppStage::Validating { start: now_ms, finished: false, succeed: false },
                    ..v
                }
            },
        }
    }
}

/// The submission an event produces: the login name and a copy of the
/// buffer, exactly when enter is pressed on a complete buffer while
/// inputing. Everything else submits nothing.
pub open spec fn submit_of(v: AppView, ev: InputEvent) -> Option<(Seq<char>, Seq<char>)> {
    if v.stage is Inputing && ev is Return && v.current_input.len() >= v.pass_length {
        Some((v.login_username, v.current_input))
    } else {
        None
    }
}

/// What one frame tick does to the machine state: the transition out
/// of `Validating` requires both the worker's result and the 2000 ms
/// duration floor, whichever is met later.
pub open spec fn step_update(v: AppView, now_ms: u64) -> AppView {
    match v.stage {
        AppStage::Validating { start, finished, succeed } => {
            if finished && now_ms >= start + 2000 {
                if succeed {
                    AppView { stage: AppStage::LoggingIn { start: now_ms }, ..v }
                } else {
                    AppView {
                        current_input: Seq::empty(),
                        stage: AppStage::Inputing {
                            ball_red_flash_duration: 2000u64,
                            ball_red_flash_start: now_ms,
                        },
                        ..v
                    }
                }
            } else {
                v
            }
        },
        _ => v,
    }
}

/// What the worker's one-shot result does to the machine state.
pub open spec fn step_login_result(v: AppView, succeed: bool) -> AppView {
    match v.stage {
        AppStage::Validating { start, .. } => AppView {
            stage: AppStage::Validating { start, finished: true, succeed },
            ..v
        },
        _ => v,
    }
}

/// One interaction with the machine; used to state machine-wide laws
/// over whole interaction histories.
pub enum Op {
    Event { ev: InputEvent, now_ms: u64 },
    Update { now_ms: u64 },
    LoginResult { succeed: bool },
}

/// The transition function, one interaction at a time.
pub open spec fn step(v: AppView, op: Op) -> AppView {
    match op {
        Op::Event { ev, now_ms } => step_event(v, ev, now_ms),
        Op::Update { now_ms } => step_update(v, now_ms),
        Op::LoginResult { succeed } => step_login_result(v, succeed),
    }
}

/// The machine state after a whole interaction history.
pub open spec fn run(v: AppView, ops: Seq<Op>) -> AppView
    decreases ops.len(),
{
    if ops.len() == 0 {
        v
    } else {
        run(step(v, ops[0]), ops.drop_first())
    }
}

impl App {
    /// The machine invariant, on the live state.
    pub open spec fn wf(&self) -> bool {
        view_wf(self@)
    }

    /// A fresh machine: empty buffer, inputing, flash expired.
    pub fn new(login_username: String, pass_length: usize, now_ms: u64) -> (r: Self)
        ensures
            r.login_username == login_username,
            r.pass_length == pass_length,
            r.current_input@ == Seq::<char>::empty(),
            r.stage == stage_inputing(now_ms),
            r.wf(),
    {
        App {
            login_username,
            pass_length,
            current_input: Vec::new(),
            stage: AppStage::inputing(now_ms),
        }
    }

    /// Consume one keyboard event. Returns the submission to dispatch
    /// to a fresh worker thread, if this event completes one; the
    /// caller spawns exactly one worker per returned request.
    pub fn handle_event(&mut self, ev: InputEvent, now_ms: u64) -> (r: Option<LoginRequest>)
        ensures
            final(self)@ == step_event(old(self)@, ev, now_ms),
            (r is Some) == (submit_of(old(self)@, ev) is Some),
            r matches Some(req) ==> submit_of(old(self)@, ev) matches Some(p) && req.username@
                == p.0 && req.password@ == p.1,
            old(self).wf() ==> final(self).wf(),
    {
        match self.stage {
            AppStage::Inputing { .. } => {
                match ev {
                    InputEvent::Character(c) => {
                        if self.current_input.len() < self.pass_length {
                            self.current_input.push(c);
                        }
                        proof {
                            assert(self@ =~= step_event(old(self)@, ev, now_ms));
                        }
                        None
                    },
                    InputEvent::Back => {
                        let _ = self.current_input.pop();
                        proof {
                            assert(self@ =~= step_event(old(self)@, ev, now_ms));
                        }
                        None
                    },
                    InputEvent::Return => {
                        if self.current_input.len() < self.pass_length {
                            self.stage = AppStage::Inputing {
                                ball_red_flash_duration: 500,
                                ball_red_flash_start: now_ms,
                            };
                            proof {
                                assert(self@ =~= step_event(old(self)@, ev, now_ms));
                            }
                            None
                        } else {
                            let username = self.login_username.clone();
                            let password = clone_chars(&self.current_input);
                            self.stage = AppStage::Validating {
                                start: now_ms,
                                finished: false,
                                succeed: false,
                            };
                            proof {
                                assert(self@ =~= step_event(old(self)@, ev, now_ms));
                            }
                            Some(LoginRequest { username, password })
                        }
                    },
                }
            },
            _ => {
                proof {
                    assert(self@ =~= step_event(old(self)@, ev, now_ms));
                }
                None
            },
        }
    }

    /// One frame tick at `now_ms`: applies the gated transition out of
    /// `Validating`. On failure the buffer is cleared and a 2000 ms
    /// flash is armed; on success the machine enters `LoggingIn`.
    pub fn update(&mut self, now_ms: u64)
        ensures
            final(self)@ == step_update(old(self)@, now_ms),
            old(self).wf() ==> final(self).wf(),
    {
        let stage = self.stage;
        match stage {
            AppStage::Validating { start, finished, succeed } => {
                if finished && now_ms >= start && now_ms - start >= 2000 {
                    if succeed {
                        self.stage = AppStage::LoggingIn { start: now_ms };
                    } else {
                        self.current_input.clear();
                        self.stage = AppStage::Inputing {
                            ball_red_flash_duration: 2000,
                            ball_red_flash_start: now_ms,
                        };
                    }
                }
            },
            _ => {},
        }
        proof {
            assert(self@ =~= step_update(old(self)@, now_ms));
        }
    }

    /// Record the worker thread's one-shot result. The machine must be
    /// validating: the worker is only ever spawned on that transition,
    /// and delivers exactly one result.
    pub fn login_result(&mut self, succeed: bool)
        requires
            old(self).stage is Validating,
        ensures
            final(self)@ == step_login_result(old(self)@, succeed),
            old(self).wf() ==> final(self).wf(),
    {
        let stage = self.stage;
        match stage {
            AppStage::Validating { start, .. } => {
                self.stage = AppStage::Validating { start, finished: true, succeed };
            },
            _ => {},
        }
        proof {
            assert(self@ =~= step_login_result(old(self)@, succeed));
        }
    }
}

/// Law: the machine invariant survives any single interaction.
pub proof fn lemma_step_preserves_wf(v: AppView, op: Op)
    requires
        view_wf(v),
    ensures
        view_wf(step(v, op)),
{
}

/// Law: over every interaction history, the pending credential buffer
/// length never exceeds the required length.
pub proof fn lemma_run_preserves_wf(v: AppView, ops: Seq<Op>)
    requires
        view_wf(v),
    ensures
        view_wf(run(v, ops)),
    decreases ops.len(),
{
    if ops.len() > 0 {
        lemma_step_preserves_wf(v, ops[0]);
        lemma_run_preserves_wf(step(v, ops[0]), ops.drop_first());
    }
}

/// Law: `LoggingIn` is terminal. Once the machine has entered it, no
/// interaction history returns it to `Inputing` or `Validating`, or
/// changes it at all.
pub proof fn lemma_logging_in_terminal(v: AppView, ops: Seq<Op>)
    requires
        v.stage is LoggingIn,
    ensures
        run(v, ops) == v,
    decreases ops.len(),
{
    if ops.len() > 0 {
        assert(step(v, ops[0]) == v);
        lemma_logging_in_terminal(v, ops.drop_first());
    }
}

/// Law: validating lasts at least the 2000 ms duration floor. However
/// early the worker reports, the machine stays in `Validating` - with
/// its entry time unchanged - through every history whose frame ticks
/// all happen before the floor.
pub proof fn lemma_validating_duration_floor(v: AppView, ops: Seq<Op>)
    requires
        v.stage is Validating,
        forall|i: int|
            0 <= i < ops.len() ==> (#[trigger] ops[i] matches Op::Update { now_ms } ==> now_ms
                < v.stage->Validating_start + 2000),
    ensures
        run(v, ops).stage is Validating,
        run(v, ops).stage->Validating_start == v.stage->Validating_start,
    decreases ops.len(),
{
    if ops.len() > 0 {
        let v2 = step(v, ops[0]);
        assert(v2.stage is Validating && v2.stage->Validating_start
            == v.stage->Validating_start);
        assert(forall|i: int|
            0 <= i < ops.drop_first().len() ==> ops.drop_first()[i] == ops[i + 1]);
        lemma_validating_duration_floor(v2, ops.drop_first());
    }
}

/// An element-by-element copy of the pending buffer; what the worker
/// thread receives.
fn clone_chars(v: &Vec<char>) -> (r: Vec<char>)
    ensures
        r@ == v@,
{
    let mut r: Vec<char> = Vec::new();
    let mut i: usize = 0;
    while i < v.len()
        invariant
            i <= v.len(),
            r@ =~= v@.subrange(0, i as int),
        decreases v.len() - i,
    {
        r.push(v[i]);
        i += 1;
    }
    proof {
        assert(r@ =~= v@);
    }
    r
}

} // verus!
