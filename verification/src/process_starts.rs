//! Display-server supervision and session launching.
//!
//! The supervisor owns the single display-server slot: starting is a
//! no-op when a handle is already recorded, stopping when none is.
//! The surrounding application holds the slot behind its process-wide
//! lock together with the child handle, spawns what [`start_x_server`]
//! directs, kills when [`stop_x_server`] says so, and runs the
//! readiness poll that [`x_ready_poll`] paces.
//!
//! Session launching derives the whole process environment from the
//! OS account record and fixed defaults; the application looks the
//! record up and spawns the login shell with the returned plan.

use vstd::prelude::*;

verus! {

/// The single display-server slot: whether a subprocess handle is
/// currently recorded.
#[derive(Clone, Copy, Debug, PartialEq, Eq, Structural)]
pub struct DisplayServerSupervisor {
    pub running: bool,
}

impl DisplayServerSupervisor {
    /// A fresh supervisor: no handle recorded.
    pub fn new() -> (r: Self)
        ensures
            !r.running,
    {
        DisplayServerSupervisor { running: false }
    }
}

/// Everything needed to spawn the display server: the program, its
/// argument list, and the display identifier the `DISPLAY` variable
/// is set to before the spawn.
#[derive(Debug)]
pub struct XLaunch {
    pub program: String,
    pub display: String,
    pub args: Vec<String>,
}

/// The fixed display-server invocation: display `:1` on virtual
/// terminal 1, 96 dpi, no network listener.
pub open spec fn x_launch_ok(cmd: XLaunch) -> bool {
    &&& cmd.program@ == "/usr/bin/X"@
    &&& cmd.display@ == ":1"@
    &&& cmd.args@.len() == 6
    &&& cmd.args@[0]@ == ":1"@
    &&& cmd.args@[1]@ == "vt01"@
    &&& cmd.args@[2]@ == "-dpi"@
    &&& cmd.args@[3]@ == "96"@
    &&& cmd.args@[4]@ == "-nolisten"@
    &&& cmd.args@[5]@ == "tcp"@
}

/// Whether a start call on a slot in this state spawns a subprocess.
pub open spec fn start_spawns(running: bool) -> bool {
    !running
}

/// The slot state any start call leaves behind.
pub open spec fn running_after_start(running: bool) -> bool {
    true
}

/// Start the display server: a no-op if a handle is already recorded,
/// otherwise records one and hands back the fixed spawn command for
/// the caller to execute and poll to readiness.
pub fn start_x_server(sup: &mut DisplayServerSupervisor) -> (r: Option<XLaunch>)
    ensures
        final(sup).running == running_after_start(old(sup).running),
        r is Some <==> start_spawns(old(sup).running),
        r matches Some(cmd) ==> x_launch_ok(cmd),
{
    if sup.running {
        None
    } else {
        sup.running = true;
        let mut args: Vec<String> = Vec::new();
        args.push(":1".to_owned());
        args.push("vt01".to_owned());
        args.push("-dpi".to_owned());
        args.push("96".to_owned());
        args.push("-nolisten".to_owned());
        args.push("tcp".to_owned());
        Some(XLaunch { program: "/usr/bin/X".to_owned(), display: ":1".to_owned(), args })
    }
}

/// Stop the display server: a no-op if no handle is recorded - never
/// an error - otherwise clears the slot. Returns whether the caller
/// must kill the subprocess it holds.
pub fn stop_x_server(sup: &mut DisplayServerSupervisor) -> (kill: bool)
    ensures
        !final(sup).running,
        kill == old(sup).running,
{
    let was: bool = sup.running;
    sup.running = false;
    was
}

/// Law: of two consecutive start calls, the second never spawns - one
/// subprocess at most, and exactly one when none was running.
pub proof fn lemma_start_twice_spawns_once(initial: bool)
    ensures
        !start_spawns(running_after_start(initial)),
        !initial ==> start_spawns(initial),
{
}

/// One step of the readiness wait after spawning the display server.
#[derive(Clone, Copy, Debug, PartialEq, Eq, Structural)]
pub enum PollStep {
    /// Not ready yet: sleep `sleep_ms` and try to connect again.
    Retry { sleep_ms: u64 },
    /// The fixed window has elapsed: readiness was never confirmed,
    /// which is fatal.
    TimedOut,
}

/// Pace the readiness poll: retry every 150 ms until the fixed
/// 5000 ms window has elapsed, then give up for good.
pub fn x_ready_poll(elapsed_ms: u64) -> (r: PollStep)
    ensures
        r is TimedOut <==> elapsed_ms >= 5000,
        r matches PollStep::Retry { sleep_ms } ==> sleep_ms == 150,
{
    if elapsed_ms >= 5000 {
        PollStep::TimedOut
    } else {
        PollStep::Retry { sleep_ms: 150 }
    }
}

/// What the greeter reads of an OS account record: home directory,
/// login shell, account name.
#[derive(Debug)]
pub struct UserRecord {
    pub name: String,
    pub home: String,
    pub shell: String,
}

/// One variable of the derived session environment.
#[derive(Debug)]
pub struct EnvVar {
    pub name: String,
    pub value: String,
}

/// The fixed system search path every session receives.
pub open spec fn fixed_path() -> Seq<char> {
    "/usr/local/sbin:/usr/local/bin:/usr/bin:/bin"@
}

/// The mail spool path derived from the account name.
pub open spec fn mail_path(name: Seq<char>) -> Seq<char> {
    "/var/spool/mail/"@ + name
}

/// The X authority file path inside the home directory.
pub open spec fn xauthority_path(home: Seq<char>) -> Seq<char> {
    home + "/.Xauthority"@
}

/// The whole session environment derived from an account record:
/// its exact variables, values and order.
pub open spec fn session_env_ok(
    env: Seq<EnvVar>,
    name: Seq<char>,
    home: Seq<char>,
    shell: Seq<char>,
) -> bool {
    &&& env.len() == 8
    &&& env[0].name@ == "HOME"@ && env[0].value@ == home
    &&& env[1].name@ == "PWD"@ && env[1].value@ == home
    &&& env[2].name@ == "SHELL"@ && env[2].value@ == shell
    &&& env[3].name@ == "USER"@ && env[3].value@ == name
    &&& env[4].name@ == "LOGNAME"@ && env[4].value@ == name
    &&& env[5].name@ == "PATH"@ && env[5].value@ == fixed_path()
    &&& env[6].name@ == "MAIL"@ && env[6].value@ == mail_path(name)
    &&& env[7].name@ == "XAUTHORITY"@ && env[7].value@ == xauthority_path(home)
}

/// Relies on alloc's `format!`: the result is the two inputs joined,
/// nothing added or dropped.
#[verifier::external_body]
fn concat(a: &str, b: &str) -> (r: String)
    ensures
        r@ == a@ + b@,
{
    format!("{}{}", a, b)
}

/// Derive the session environment for one account: home, working
/// directory, shell, the name as both short and login name, the fixed
/// search path, and the derived mail spool and X authority paths.
/// Built fresh per login attempt, never reused across users.
pub fn build_session_environment(user: &UserRecord) -> (env: Vec<EnvVar>)
    ensures
        session_env_ok(env@, user.name@, user.home@, user.shell@),
{
    let mut env: Vec<EnvVar> = Vec::new();
    env.push(EnvVar { name: "HOME".to_owned(), value: user.home.clone() });
    env.push(EnvVar { name: "PWD".to_owned(), value: user.home.clone() });
    env.push(EnvVar { name: "SHELL".to_owned(), value: user.shell.clone() });
    env.push(EnvVar { name: "USER".to_owned(), value: user.name.clone() });
    env.push(EnvVar { name: "LOGNAME".to_owned(), value: user.name.clone() });
    env.push(
        EnvVar {
            name: "PATH".to_owned(),
            value: "/usr/local/sbin:/usr/local/bin:/usr/bin:/bin".to_owned(),
        },
    );
    env.push(EnvVar { name: "MAIL".to_owned(), value: concat("/var/spool/mail/", user.name.as_str()) });
    env.push(
        EnvVar { name: "XAUTHORITY".to_owned(), value: concat(user.home.as_str(), "/.Xauthority") },
    );
    env
}

/// Render the environment as the `NAME=value` lines the native
/// session-environment call takes.
pub fn putenv_lines(env: &Vec<EnvVar>) -> (r: Vec<String>)
    ensures
        r@.len() == env@.len(),
        forall|i: int|
            0 <= i < env@.len() ==> #[trigger] r@[i]@ == env@[i].name@ + "="@ + env@[i].value@,
{
    let mut r: Vec<String> = Vec::new();
    let mut i: usize = 0;
    while i < env.len()
        invariant
            i <= env@.len(),
            r@.len() == i,
            forall|j: int|
                0 <= j < i ==> #[trigger] r@[j]@ == env@[j].name@ + "="@ + env@[j].value@,
        decreases env@.len() - i,
    {
        let with_eq = concat(env[i].name.as_str(), "=");
        let line = concat(with_eq.as_str(), env[i].value.as_str());
        r.push(line);
        i += 1;
    }
    r
}

/// Everything needed to launch the session process: the derived
/// environment, the login shell to run, its arguments, and the
/// working directory.
#[derive(Debug)]
pub struct SessionPlan {
    pub env: Vec<EnvVar>,
    pub program: String,
    pub args: Vec<String>,
    pub cwd: String,
}

/// The fixed session invocation: the account's login shell, told to
/// run the per-user initialization script in login mode, started in
/// the home directory, under the derived environment.
pub open spec fn session_plan_ok(
    plan: SessionPlan,
    name: Seq<char>,
    home: Seq<char>,
    shell: Seq<char>,
) -> bool {
    &&& session_env_ok(plan.env@, name, home, shell)
    &&& plan.program@ == shell
    &&& plan.args@.len() == 2
    &&& plan.args@[0]@ == "-c"@
    &&& plan.args@[1]@ == "/bin/bash --login .xinitrc"@
    &&& plan.cwd@ == home
}

/// Plan the session launch for one account. The caller spawns the
/// plan's program and awaits the child; spawn failure is fatal there.
pub fn start_session(user: &UserRecord) -> (plan: SessionPlan)
    ensures
        session_plan_ok(plan, user.name@, user.home@, user.shell@),
{
    let env = build_session_environment(user);
    let mut args: Vec<String> = Vec::new();
    args.push("-c".to_owned());
    args.push("/bin/bash --login .xinitrc".to_owned());
    SessionPlan { env, program: user.shell.clone(), args, cwd: user.home.clone() }
}

} // verus!
