//! The credential authenticator: the conversation-reply rules and the
//! strict call ordering of the native authentication sequence -
//! authenticate, account check, credential establishment, session
//! open - with best-effort credential deletion (rollback) when the
//! session open fails after credentials were established.
//!
//! The native library itself is driven by the surrounding application
//! through a raw handle; this module decides which call to make next
//! and what each conversation prompt is answered with. Native return
//! codes are plain integers, `0` being the native success code.

use vstd::prelude::*;

verus! {

/// Check a native return code: `Ok` exactly on the success code.
pub fn cprc(code: i32) -> (r: Result<(), i32>)
    ensures
        r is Ok <==> code == 0,
        r matches Err(c) ==> c == code,
{
    if code != 0 {
        Err(code)
    } else {
        Ok(())
    }
}

/// A conversation prompt, classified by its native message style.
#[derive(Clone, Copy, Debug, PartialEq, Eq, Structural)]
pub enum PromptStyle {
    /// An echoed prompt; answered with the stored username.
    EchoOn,
    /// A masked (silent) prompt; answered with the stored password.
    EchoOff,
    /// An informational message; logged, no reply.
    TextInfo,
    /// An error message; aborts the whole exchange.
    ErrorMsg,
}

/// Classify a native message-style code. The native styles are fixed
/// small integers; anything unrecognised is treated as an error
/// message, which aborts the exchange.
pub fn style_from_code(code: i32) -> (r: PromptStyle)
    ensures
        code == 1 ==> r == PromptStyle::EchoOff,
        code == 2 ==> r == PromptStyle::EchoOn,
        code == 4 ==> r == PromptStyle::TextInfo,
        !(code == 1 || code == 2 || code == 4) ==> r == PromptStyle::ErrorMsg,
{
    if code == 1 {
        PromptStyle::EchoOff
    } else if code == 2 {
        PromptStyle::EchoOn
    } else if code == 4 {
        PromptStyle::TextInfo
    } else {
        PromptStyle::ErrorMsg
    }
}

/// The exchange aborted because the service sent an error message (or
/// an unrecognised style); fatal to the attempt, not to the process.
#[derive(Clone, Copy, Debug, PartialEq, Eq, Structural)]
pub enum ConversationError {
    ErrorMessage,
}

/// The reply one prompt receives: the username for an echoed prompt,
/// the password for a masked one, nothing for an informational
/// message.
pub open spec fn reply_of(style: PromptStyle, username: Seq<char>, password: Seq<char>) -> Option<
    Seq<char>,
> {
    match style {
        PromptStyle::EchoOn => Some(username),
        PromptStyle::EchoOff => Some(password),
        PromptStyle::TextInfo => None,
        PromptStyle::ErrorMsg => None,
    }
}

/// An exchange succeeds exactly when no prompt is an error message.
pub open spec fn conversation_ok(styles: Seq<PromptStyle>) -> bool {
    forall|i: int| 0 <= i < styles.len() ==> #[trigger] styles[i] !is ErrorMsg
}

/// View of an optional reply.
pub open spec fn opt_string_view(o: Option<String>) -> Option<Seq<char>> {
    match o {
        Some(s) => Some(s@),
        None => None,
    }
}

/// Which native call the driver must make next.
#[derive(Clone, Copy, Debug, PartialEq, Eq, Structural)]
pub enum AuthCall {
    Authenticate,
    AccountManagement,
    EstablishCredentials,
    OpenSession,
    DeleteCredentials,
}

/// Where the authentication sequence stands. The first four variants
/// name the call whose result is awaited; `DeleteCredentials` is the
/// rollback call, remembering the session-open failure it rolls back.
#[derive(Clone, Copy, Debug, PartialEq, Eq, Structural)]
pub enum AuthPhase {
    Authenticate,
    AccountManagement,
    EstablishCredentials,
    OpenSession,
    DeleteCredentials { original: i32 },
    /// All four steps succeeded: the session is open.
    Succeeded,
    /// The attempt failed with the native code `code`.
    /// `after_credentials` records that credentials had already been
    /// established when the failure happened (so deletion was issued);
    /// `rollback_failed` that the deletion itself failed - reported,
    /// but never masking the original code.
    Failed { code: i32, after_credentials: bool, rollback_failed: bool },
}

/// The call awaited in a phase, if the sequence is still running.
pub open spec fn pending_call_of(p: AuthPhase) -> Option<AuthCall> {
    match p {
        AuthPhase::Authenticate => Some(AuthCall::Authenticate),
        AuthPhase::AccountManagement => Some(AuthCall::AccountManagement),
        AuthPhase::EstablishCredentials => Some(AuthCall::EstablishCredentials),
        AuthPhase::OpenSession => Some(AuthCall::OpenSession),
        AuthPhase::DeleteCredentials { .. } => Some(AuthCall::DeleteCredentials),
        AuthPhase::Succeeded => None,
        AuthPhase::Failed { .. } => None,
    }
}

/// The sequencing rule: each step succeeds into the next; a failure
/// before the session open fails the attempt outright; a session-open
/// failure first issues the credential deletion, and only after that
/// call returns is the original failure surfaced.
pub open spec fn auth_step(p: AuthPhase, code: i32) -> AuthPhase {
    match p {
        AuthPhase::Authenticate => if code == 0 {
            AuthPhase::AccountManagement
        } else {
            AuthPhase::Failed { code, after_credentials: false, rollback_failed: false }
        },
        AuthPhase::AccountManagement => if code == 0 {
            AuthPhase::EstablishCredentials
        } else {
            AuthPhase::Failed { code, after_credentials: false, rollback_failed: false }
        },
        AuthPhase::EstablishCredentials => if code == 0 {
            AuthPhase::OpenSession
        } else {
            AuthPhase::Failed { code, after_credentials: false, rollback_failed: false }
        },
        AuthPhase::OpenSession => if code == 0 {
            AuthPhase::Succeeded
        } else {
            AuthPhase::DeleteCredentials { original: code }
        },
        AuthPhase::DeleteCredentials { original } => AuthPhase::Failed {
            code: original,
            after_credentials: true,
            rollback_failed: code != 0,
        },
        AuthPhase::Succeeded => p,
        AuthPhase::Failed { .. } => p,
    }
}

/// The phase reached from `p` after reporting a whole run of native
/// return codes, in order.
pub open spec fn auth_run(p: AuthPhase, codes: Seq<i32>) -> AuthPhase
    decreases codes.len(),
{
    if codes.len() == 0 {
        p
    } else {
        auth_run(auth_step(p, codes[0]), codes.drop_first())
    }
}

/// The overall outcome of a finished attempt, in the greeter's own
/// failure taxonomy.
#[derive(Clone, Copy, Debug, PartialEq, Eq, Structural)]
pub enum AuthOutcome {
    /// All four steps succeeded; the session is open.
    Success,
    /// Bad credentials or a failed account check; recoverable.
    Rejected { code: i32 },
    /// The session open failed after credentials were established;
    /// deletion was issued first, and `rollback_failed` reports - but
    /// never masks - a failure of the deletion itself.
    PartialCredentialFailure { code: i32, rollback_failed: bool },
}

/// The outcome a phase surfaces, if the sequence has finished.
pub open spec fn outcome_of(p: AuthPhase) -> Option<AuthOutcome> {
    match p {
        AuthPhase::Succeeded => Some(AuthOutcome::Success),
        AuthPhase::Failed { code, after_credentials, rollback_failed } => Some(
            if after_credentials {
                AuthOutcome::PartialCredentialFailure { code, rollback_failed }
            } else {
                AuthOutcome::Rejected { code }
            },
        ),
        _ => None,
    }
}

impl AuthOutcome {
    /// How the outcome is surfaced to the interface: every failure
    /// looks the same there.
    pub fn is_success(&self) -> (r: bool)
        ensures
            r == (*self is Success),
    {
        match *self {
            AuthOutcome::Success => true,
            _ => false,
        }
    }
}

/// The credential authenticator: owns the in-flight credential pair
/// and the position in the native calling sequence. The surrounding
/// application owns the native session handle and performs each call
/// this machine directs.
#[derive(Debug)]
pub struct Author {
    /// The stored username; answers echoed prompts.
    pub username: String,
    /// The stored password; answers masked prompts.
    pub password: String,
    /// Where the native calling sequence stands.
    pub phase: AuthPhase,
}

impl Author {
    /// A fresh authenticator: empty credentials, sequence at its first
    /// call.
    pub fn new() -> (r: Self)
        ensures
            r.username@ == Seq::<char>::empty(),
            r.password@ == Seq::<char>::empty(),
            r.phase == AuthPhase::Authenticate,
    {
        Author { username: String::new(), password: String::new(), phase: AuthPhase::Authenticate }
    }

    /// Store the username for the coming attempt; must precede any
    /// validation call.
    pub fn set_username(&mut self, username: String)
        ensures
            final(self).username == username,
            final(self).password == old(self).password,
            final(self).phase == old(self).phase,
    {
        self.username = username;
    }

    /// Store the password for the coming attempt; must precede any
    /// validation call.
    pub fn set_password(&mut self, password: String)
        ensures
            final(self).username == old(self).username,
            final(self).password == password,
            final(self).phase == old(self).phase,
    {
        self.password = password;
    }

    /// The native call the driver must make next, or nothing if the
    /// sequence has finished.
    pub fn pending_call(&self) -> (r: Option<AuthCall>)
        ensures
            r == pending_call_of(self.phase),
    {
        match self.phase {
            AuthPhase::Authenticate => Some(AuthCall::Authenticate),
            AuthPhase::AccountManagement => Some(AuthCall::AccountManagement),
            AuthPhase::EstablishCredentials => Some(AuthCall::EstablishCredentials),
            AuthPhase::OpenSession => Some(AuthCall::OpenSession),
            AuthPhase::DeleteCredentials { .. } => Some(AuthCall::DeleteCredentials),
            AuthPhase::Succeeded => None,
            AuthPhase::Failed { .. } => None,
        }
    }

    /// Report the native return code of the call that was pending.
    pub fn report(&mut self, code: i32)
        requires
            pending_call_of(old(self).phase) is Some,
        ensures
            final(self).phase == auth_step(old(self).phase, code),
            final(self).username == old(self).username,
            final(self).password == old(self).password,
    {
        let checked = cprc(code);
        let phase = self.phase;
        match phase {
            AuthPhase::Authenticate => {
                self.phase = match checked {
                    Ok(()) => AuthPhase::AccountManagement,
                    Err(c) => AuthPhase::Failed {
                        code: c,
                        after_credentials: false,
                        rollback_failed: false,
                    },
                };
            },
            AuthPhase::AccountManagement => {
                self.phase = match checked {
                    Ok(()) => AuthPhase::EstablishCredentials,
                    Err(c) => AuthPhase::Failed {
                        code: c,
                        after_credentials: false,
                        rollback_failed: false,
                    },
                };
            },
            AuthPhase::EstablishCredentials => {
                self.phase = match checked {
                    Ok(()) => AuthPhase::OpenSession,
                    Err(c) => AuthPhase::Failed {
                        code: c,
                        after_credentials: false,
                        rollback_failed: false,
                    },
                };
            },
            AuthPhase::OpenSession => {
                self.phase = match checked {
                    Ok(()) => AuthPhase::Succeeded,
                    Err(c) => AuthPhase::DeleteCredentials { original: c },
                };
            },
            AuthPhase::DeleteCredentials { original } => {
                self.phase = AuthPhase::Failed {
                    code: original,
                    after_credentials: true,
                    rollback_failed: !matches!(checked, Ok(())),
                };
            },
            _ => {},
        }
    }

    /// The surfaced outcome, once the sequence has finished.
    pub fn outcome(&self) -> (r: Option<AuthOutcome>)
        ensures
            r == outcome_of(self.phase),
    {
        match self.phase {
            AuthPhase::Succeeded => Some(AuthOutcome::Success),
            AuthPhase::Failed { code, after_credentials, rollback_failed } => {
                if after_credentials {
                    Some(AuthOutcome::PartialCredentialFailure { code, rollback_failed })
                } else {
                    Some(AuthOutcome::Rejected { code })
                }
            },
            _ => None,
        }
    }

    /// Answer a whole conversation exchange: one reply slot per
    /// prompt, the username for echoed prompts, the password for
    /// masked ones, none for informational messages. Any error message
    /// aborts the exchange: nothing is handed over.
    pub fn conversation_replies(&self, styles: &Vec<PromptStyle>) -> (r: Result<
        Vec<Option<String>>,
        ConversationError,
    >)
        ensures
            r is Ok <==> conversation_ok(styles@),
            r matches Ok(replies) ==> replies@.len() == styles@.len() && forall|i: int|
                0 <= i < styles@.len() ==> opt_string_view(#[trigger] replies@[i]) == reply_of(
                    styles@[i],
                    self.username@,
                    self.password@,
                ),
    {
        let mut replies: Vec<Option<String>> = Vec::new();
        let mut i: usize = 0;
        while i < styles.len()
            invariant
                i <= styles@.len(),
                replies@.len() == i,
                forall|j: int|
                    0 <= j < i ==> opt_string_view(#[trigger] replies@[j]) == reply_of(
                        styles@[j],
                        self.username@,
                        self.password@,
                    ),
                forall|j: int| 0 <= j < i ==> #[trigger] styles@[j] !is ErrorMsg,
            decreases styles@.len() - i,
        {
            match styles[i] {
                PromptStyle::EchoOn => replies.push(Some(self.username.clone())),
                PromptStyle::EchoOff => replies.push(Some(self.password.clone())),
                PromptStyle::TextInfo => replies.push(None),
                PromptStyle::ErrorMsg => {
                    return Err(ConversationError::ErrorMessage);
                },
            }
            i += 1;
        }
        Ok(replies)
    }
}

/// Law: whenever an attempt surfaces a partial credential failure -
/// the session open failed after credentials were established - the
/// credential-deletion call was issued at some earlier point of the
/// run, before the failure was surfaced.
pub proof fn lemma_rollback_precedes_partial_failure(codes: Seq<i32>)
    requires
        auth_run(AuthPhase::Authenticate, codes) matches AuthPhase::Failed {
            after_credentials,
            ..
        } && after_credentials,
    ensures
        exists|i: int|
            0 <= i < codes.len() && #[trigger] auth_run(AuthPhase::Authenticate, codes.take(i))
                is DeleteCredentials,
{
    lemma_rollback_aux(AuthPhase::Authenticate, codes);
    let i = choose|i: int|
        0 <= i < codes.len() && #[trigger] auth_run_from(AuthPhase::Authenticate, codes, i)
            is DeleteCredentials;
    assert(auth_run(AuthPhase::Authenticate, codes.take(i)) is DeleteCredentials);
}

/// The phase reached after the first `i` codes of a run.
pub open spec fn auth_run_from(p: AuthPhase, codes: Seq<i32>, i: int) -> AuthPhase {
    auth_run(p, codes.take(i))
}

proof fn lemma_rollback_aux(p: AuthPhase, codes: Seq<i32>)
    requires
        auth_run(p, codes) matches AuthPhase::Failed { after_credentials, .. }
            && after_credentials,
        !(p matches AuthPhase::Failed { after_credentials, .. } && after_credentials),
    ensures
        exists|i: int|
            0 <= i < codes.len() && #[trigger] auth_run_from(p, codes, i) is DeleteCredentials,
    decreases codes.len(),
{
    assert(codes.len() > 0);
    let q = auth_step(p, codes[0]);
    assert(codes.take(0) =~= Seq::<i32>::empty());
    if p is DeleteCredentials {
        assert(auth_run_from(p, codes, 0) is DeleteCredentials);
    } else {
        assert(!(q matches AuthPhase::Failed { after_credentials, .. } && after_credentials));
        lemma_rollback_aux(q, codes.drop_first());
        let j = choose|j: int|
            0 <= j < codes.drop_first().len() && #[trigger] auth_run_from(
                q,
                codes.drop_first(),
                j,
            ) is DeleteCredentials;
        assert(codes.take(j + 1).drop_first() =~= codes.drop_first().take(j));
        assert(auth_run(p, codes.take(j + 1)) == auth_run(q, codes.drop_first().take(j)));
        assert(auth_run_from(p, codes, j + 1) is DeleteCredentials);
    }
}

/// Law: the attempt succeeds exactly when the first four native calls
/// - authenticate, account check, credential establishment, session
/// open, strictly in that order - all return the success code.
pub proof fn lemma_success_iff_four_successes(codes: Seq<i32>)
    ensures
        auth_run(AuthPhase::Authenticate, codes) is Succeeded <==> codes.len() >= 4 && codes[0]
            == 0 && codes[1] == 0 && codes[2] == 0 && codes[3] == 0,
{
    if codes.len() >= 4 && codes[0] == 0 && codes[1] == 0 && codes[2] == 0 && codes[3] == 0 {
        let c1 = codes.drop_first();
        let c2 = c1.drop_first();
        let c3 = c2.drop_first();
        let rest = c3.drop_first();
        assert(c1[0] == codes[1] && c2[0] == codes[2] && c3[0] == codes[3]);
        assert(auth_run(AuthPhase::Authenticate, codes) == auth_run(
            AuthPhase::AccountManagement,
            c1,
        ));
        assert(auth_run(AuthPhase::AccountManagement, c1) == auth_run(
            AuthPhase::EstablishCredentials,
            c2,
        ));
        assert(auth_run(AuthPhase::EstablishCredentials, c2) == auth_run(
            AuthPhase::OpenSession,
            c3,
        ));
        assert(auth_run(AuthPhase::OpenSession, c3) == auth_run(AuthPhase::Succeeded, rest));
        lemma_succeeded_absorbs(rest);
    } else {
        if auth_run(AuthPhase::Authenticate, codes) is Succeeded {
            lemma_success_needs_four(AuthPhase::Authenticate, codes, 4);
        }
    }
}

/// Succeeded is absorbing: further reports change nothing.
proof fn lemma_succeeded_absorbs(codes: Seq<i32>)
    ensures
        auth_run(AuthPhase::Succeeded, codes) == AuthPhase::Succeeded,
    decreases codes.len(),
{
    if codes.len() > 0 {
        lemma_succeeded_absorbs(codes.drop_first());
    }
}

/// From a phase `steps_left` successful steps short of `Succeeded`, a
/// run only succeeds if it holds that many further success codes.
proof fn lemma_success_needs_four(p: AuthPhase, codes: Seq<i32>, steps_left: int)
    requires
        auth_run(p, codes) is Succeeded,
        p == AuthPhase::Authenticate ==> steps_left == 4,
        p == AuthPhase::AccountManagement ==> steps_left == 3,
        p == AuthPhase::EstablishCredentials ==> steps_left == 2,
        p == AuthPhase::OpenSession ==> steps_left == 1,
        p is Authenticate || p is AccountManagement || p is EstablishCredentials
            || p is OpenSession,
    ensures
        codes.len() >= steps_left,
        forall|i: int| 0 <= i < steps_left ==> #[trigger] codes[i] == 0,
    decreases codes.len(),
{
    assert(codes.len() > 0);
    assert(codes[0] == 0) by {
        if codes[0] != 0 {
            let q = auth_step(p, codes[0]);
            assert(q is Failed || q is DeleteCredentials);
            lemma_never_succeeds(q, codes.drop_first());
        }
    }
    let q = auth_step(p, codes[0]);
    if p is OpenSession {
        assert(q is Succeeded);
    } else {
        lemma_success_needs_four(q, codes.drop_first(), steps_left - 1);
        assert(forall|i: int|
            1 <= i < steps_left ==> #[trigger] codes[i] == codes.drop_first()[i - 1]);
    }
}

/// `Failed` and `DeleteCredentials` never reach `Succeeded`.
proof fn lemma_never_succeeds(p: AuthPhase, codes: Seq<i32>)
    requires
        p is Failed || p is DeleteCredentials,
    ensures
        !(auth_run(p, codes) is Succeeded),
    decreases codes.len(),
{
    if codes.len() > 0 {
        lemma_never_succeeds(auth_step(p, codes[0]), codes.drop_first());
    }
}

} // verus!
