//! Display-server supervision and the session launch plan.

use greeter::process_starts::{
    build_session_environment, putenv_lines, start_session, start_x_server, stop_x_server,
    DisplayServerSupervisor, PollStep, UserRecord, x_ready_poll,
};

#[test]
fn start_called_twice_spawns_exactly_one_subprocess() {
    let mut sup = DisplayServerSupervisor::new();
    let first = start_x_server(&mut sup);
    assert!(first.is_some());
    let second = start_x_server(&mut sup);
    assert!(second.is_none());
    assert!(sup.running);
}

#[test]
fn start_while_already_reachable_returns_without_spawning() {
    let mut sup = DisplayServerSupervisor { running: true };
    assert!(start_x_server(&mut sup).is_none());
    assert!(sup.running);
}

#[test]
fn the_spawn_command_is_the_fixed_invocation() {
    let mut sup = DisplayServerSupervisor::new();
    let cmd = start_x_server(&mut sup).expect("nothing was running");
    assert_eq!(cmd.program, "/usr/bin/X");
    assert_eq!(cmd.display, ":1");
    assert_eq!(cmd.args, vec![":1", "vt01", "-dpi", "96", "-nolisten", "tcp"]);
}

#[test]
fn stop_when_not_running_is_a_noop() {
    let mut sup = DisplayServerSupervisor::new();
    let kill = stop_x_server(&mut sup);
    assert!(!kill);
    assert!(!sup.running);
}

#[test]
fn stop_clears_the_slot_and_directs_one_kill() {
    let mut sup = DisplayServerSupervisor::new();
    let _ = start_x_server(&mut sup);
    assert!(stop_x_server(&mut sup));
    assert!(!sup.running);
    assert!(!stop_x_server(&mut sup));
}

#[test]
fn readiness_poll_retries_at_150ms_and_times_out_at_5000ms() {
    assert_eq!(x_ready_poll(0), PollStep::Retry { sleep_ms: 150 });
    assert_eq!(x_ready_poll(4999), PollStep::Retry { sleep_ms: 150 });
    assert_eq!(x_ready_poll(5000), PollStep::TimedOut);
    assert_eq!(x_ready_poll(60000), PollStep::TimedOut);
}

fn malo() -> UserRecord {
    UserRecord {
        name: String::from("malo"),
        home: String::from("/home/malo"),
        shell: String::from("/bin/zsh"),
    }
}

#[test]
fn the_session_environment_is_derived_exactly() {
    let env = build_session_environment(&malo());
    let pairs: Vec<(&str, &str)> = env
        .iter()
        .map(|v| (v.name.as_str(), v.value.as_str()))
        .collect();
    assert_eq!(
        pairs,
        vec![
            ("HOME", "/home/malo"),
            ("PWD", "/home/malo"),
            ("SHELL", "/bin/zsh"),
            ("USER", "malo"),
            ("LOGNAME", "malo"),
            ("PATH", "/usr/local/sbin:/usr/local/bin:/usr/bin:/bin"),
            ("MAIL", "/var/spool/mail/malo"),
            ("XAUTHORITY", "/home/malo/.Xauthority"),
        ]
    );
}

#[test]
fn putenv_lines_join_name_and_value() {
    let env = build_session_environment(&malo());
    let lines = putenv_lines(&env);
    assert_eq!(lines[0], "HOME=/home/malo");
    assert_eq!(lines[6], "MAIL=/var/spool/mail/malo");
    assert_eq!(lines[7], "XAUTHORITY=/home/malo/.Xauthority");
    assert_eq!(lines.len(), 8);
}

#[test]
fn the_session_plan_runs_the_login_shell_at_home() {
    let plan = start_session(&malo());
    assert_eq!(plan.program, "/bin/zsh");
    assert_eq!(plan.args, vec!["-c", "/bin/bash --login .xinitrc"]);
    assert_eq!(plan.cwd, "/home/malo");
    assert_eq!(plan.env.len(), 8);
    assert_eq!(plan.env[2].value, "/bin/zsh");
}
