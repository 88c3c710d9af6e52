use sesh::cli::{Cli, CliArgs, Command, SessionSelector};
use sesh::client::{
    after_refused_attach, boot_timed_out, child_is_gone, detach_selector, exit_message,
    get_program, input_step, is_detach_chunk, kill_message, needs_daemon, pick_resume,
    program_label, resume_step, shutdown_message, start_message, start_request, was_attached,
    ExitKind, InputStep, ListMode, ResumeStep, SeshInfoSer,
};
use sesh::error::{CResult, SeshError};
use sesh::proto::{SeshInfo, Var};
use sesh::pty::Pty;
use sesh::relay::{forwarded, pump_runs, pump_step, PumpStep, PUMP_CHUNK};
use sesh::term::{Size, WinSize};
use sesh::user::get_shell;

fn info(id: u64, name: &str, connected: bool, attach_time: i64) -> SeshInfo {
    SeshInfo {
        id,
        name: name.to_string(),
        program: format!("/bin/{}", name),
        socket: format!("/tmp/sesh/{}.sock", name),
        connected,
        start_time: 1,
        attach_time,
        pid: 100 + id as i32,
    }
}

#[test]
fn selector_name_is_the_name_only() {
    assert_eq!(SessionSelector::Name("sh".to_string()).name(), Some("sh".to_string()));
    assert_eq!(SessionSelector::Id(3).name(), None);
}

#[test]
fn selector_label_is_the_id_or_the_name() {
    assert_eq!(SessionSelector::Id(0).label(), "0");
    assert_eq!(SessionSelector::Id(1234).label(), "1234");
    assert_eq!(SessionSelector::Name("sh-0".to_string()).label(), "sh-0");
}

#[test]
fn selector_parse_prefers_ids() {
    assert!(matches!(SessionSelector::parse("12"), SessionSelector::Id(12)));
    assert!(matches!(SessionSelector::parse("+3"), SessionSelector::Id(3)));
    assert!(matches!(SessionSelector::parse("sh"), SessionSelector::Name(n) if n == "sh"));
    assert!(matches!(SessionSelector::parse("-3"), SessionSelector::Name(n) if n == "-3"));
    assert!(matches!(SessionSelector::parse(""), SessionSelector::Name(n) if n.is_empty()));
    assert!(matches!(
        SessionSelector::parse("99999999999999999999999"),
        SessionSelector::Name(n) if n == "99999999999999999999999"
    ));
}

#[test]
fn selector_label_parses_back() {
    for id in [0usize, 9, 10, 4096, usize::MAX] {
        let label = SessionSelector::Id(id).label();
        assert!(matches!(SessionSelector::parse(&label), SessionSelector::Id(i) if i == id));
    }
    let label = SessionSelector::Name("vim".to_string()).label();
    assert!(matches!(SessionSelector::parse(&label), SessionSelector::Name(n) if n == "vim"));
}

#[test]
fn selector_clone_keeps_the_value() {
    assert!(matches!(SessionSelector::Id(4).clone(), SessionSelector::Id(4)));
    assert!(matches!(
        SessionSelector::Name("a".to_string()).clone(),
        SessionSelector::Name(n) if n == "a"
    ));
}

#[test]
fn list_mode_prefers_json_then_table() {
    assert_eq!(ListMode::new(false, false), ListMode::List);
    assert_eq!(ListMode::new(true, false), ListMode::Table);
    assert_eq!(ListMode::new(false, true), ListMode::Json);
    assert_eq!(ListMode::new(true, true), ListMode::Json);
}

#[test]
fn detach_key_is_escape_backslash_at_the_start() {
    assert!(is_detach_chunk(&[0x1B, 0x5C]));
    assert!(is_detach_chunk(&[27, 92, b'x']));
    assert!(!is_detach_chunk(&[0x1B]));
    assert!(!is_detach_chunk(&[]));
    assert!(!is_detach_chunk(&[0x5C, 0x1B]));
    assert!(!is_detach_chunk(&[b'x', 0x1B, 0x5C]));
    assert!(!is_detach_chunk(&[0x1B, 0x5B]));
}

#[test]
fn input_is_forwarded_until_the_detach_key_or_the_end() {
    assert_eq!(input_step(b"ls\n"), InputStep::Forward);
    assert_eq!(input_step(&[0x1B]), InputStep::Forward);
    assert_eq!(input_step(&[0x1B, 0x5C, b'q']), InputStep::Detach);
    assert_eq!(input_step(&[]), InputStep::Stop);
}

#[test]
fn child_is_gone_when_the_probe_says_no_such_process() {
    assert!(child_is_gone(-1, 3));
    assert!(!child_is_gone(-1, 1));
    assert!(!child_is_gone(0, 3));
    assert!(!child_is_gone(0, 0));
}

#[test]
fn boot_times_out_after_five_seconds() {
    assert!(!boot_timed_out(0));
    assert!(!boot_timed_out(5));
    assert!(boot_timed_out(6));
}

#[test]
fn inspecting_commands_need_no_daemon() {
    assert!(!needs_daemon(&Command::Shutdown));
    assert!(!needs_daemon(&Command::List { info: true, json: false }));
    assert!(!needs_daemon(&Command::Kill { session: SessionSelector::Id(0) }));
    assert!(needs_daemon(&Command::Select));
    assert!(needs_daemon(&Command::Resume { create: false }));
    assert!(needs_daemon(&Command::Detach { session: None }));
    assert!(needs_daemon(&Command::Attach { session: SessionSelector::Id(0), create: false }));
    assert!(needs_daemon(&Command::Start {
        name: None,
        program: None,
        args: vec![],
        detached: false
    }));
}

#[test]
fn missing_subcommand_means_start() {
    let cli = Cli {
        command: None,
        args: CliArgs {
            program: Some("vim".to_string()),
            args: vec!["a.txt".to_string()],
            name: Some("edit".to_string()),
            detached: true,
        },
    };
    match cli.into_command() {
        Command::Start { name, program, args, detached } => {
            assert_eq!(name, Some("edit".to_string()));
            assert_eq!(program, Some("vim".to_string()));
            assert_eq!(args, vec!["a.txt".to_string()]);
            assert!(detached);
        }
        _ => panic!("expected a start"),
    }
    let cli = Cli {
        command: Some(Command::Select),
        args: CliArgs { program: None, args: vec![], name: None, detached: false },
    };
    assert!(matches!(cli.into_command(), Command::Select));
}

#[test]
fn messages() {
    assert_eq!(exit_message(ExitKind::Quit), "[exited]");
    assert_eq!(exit_message(ExitKind::Detach), "[detached]");
    assert_eq!(start_message(None), "[started]");
    assert_eq!(start_message(Some(ExitKind::Quit)), "[exited]");
    assert_eq!(start_message(Some(ExitKind::Detach)), "[detached]");
    assert_eq!(kill_message(&SessionSelector::Id(3), true), Ok("[killed 3]".to_string()));
    assert_eq!(
        kill_message(&SessionSelector::Name("sh".to_string()), true),
        Ok("[killed sh]".to_string())
    );
    assert_eq!(
        kill_message(&SessionSelector::Id(3), false),
        Err("Could not kill process".to_string())
    );
    assert_eq!(shutdown_message(true), Ok("[shutdown]".to_string()));
    assert_eq!(shutdown_message(false), Err("Failed to shutdown server".to_string()));
}

#[test]
fn program_defaults_to_the_shell_then_bash() {
    assert_eq!(get_program(Some("vim".to_string()), Some("/bin/zsh".to_string())), "vim");
    assert_eq!(get_program(None, Some("/bin/zsh".to_string())), "/bin/zsh");
    assert_eq!(get_program(None, None), "bash");
}

#[test]
fn shell_defaults_to_passwd_then_bin_sh() {
    assert_eq!(get_shell(Some("/bin/zsh".to_string()), Some("/bin/fish".to_string())), "/bin/zsh");
    assert_eq!(get_shell(None, Some("/bin/fish".to_string())), "/bin/fish");
    assert_eq!(get_shell(None, None), "/bin/sh");
}

#[test]
fn start_request_asks_for_the_program_name_by_default() {
    let size = Size { cols: 80, rows: 24 };
    let env = vec![Var { key: "A".to_string(), value: "1".to_string() }];
    let r = start_request(None, "/bin/cat".to_string(), vec!["x".to_string()], size, "/tmp".to_string(), env);
    assert_eq!(r.name, "/bin/cat");
    assert_eq!(r.program, "/bin/cat");
    assert_eq!(r.args, vec!["x".to_string()]);
    assert_eq!(r.size, Some(WinSize { rows: 24, cols: 80 }));
    let wide = start_request(
        None,
        "sh".to_string(),
        vec![],
        Size { cols: u16::MAX, rows: 0 },
        "/".to_string(),
        vec![],
    );
    assert_eq!(wide.size, Some(WinSize { rows: 0, cols: 65_535 }));
    assert_eq!(r.pwd, "/tmp");
    assert_eq!(r.env.len(), 1);
    assert_eq!(r.env[0].key, "A");
    assert_eq!(r.env[0].value, "1");
    let named = start_request(Some("mine".to_string()), "/bin/cat".to_string(), vec![], size, "/".to_string(), vec![]);
    assert_eq!(named.name, "mine");
    assert_eq!(named.program, "/bin/cat");
}

#[test]
fn resume_picks_the_idle_session_used_last() {
    let sessions = vec![
        info(0, "a", false, 10),
        info(1, "b", true, 99),
        info(2, "c", false, 30),
        info(3, "d", false, 20),
    ];
    assert_eq!(pick_resume(&sessions), Some(2));
    assert!(matches!(resume_step(&sessions, false), ResumeStep::Attach(n) if n == "c"));
}

#[test]
fn resume_takes_the_last_of_equally_recent_sessions() {
    let sessions = vec![info(0, "a", false, 5), info(1, "b", false, 5), info(2, "c", false, 1)];
    assert_eq!(pick_resume(&sessions), Some(1));
    let never = vec![info(0, "a", false, 0), info(1, "b", false, 0)];
    assert_eq!(pick_resume(&never), Some(1));
}

#[test]
fn resume_agrees_with_filter_sort_last() {
    let sessions = vec![
        info(0, "a", false, 7),
        info(1, "b", false, -3),
        info(2, "c", true, 100),
        info(3, "d", false, 7),
        info(4, "e", false, 2),
        info(5, "f", true, 7),
    ];
    let mut idle: Vec<(usize, i64)> = sessions
        .iter()
        .enumerate()
        .filter(|(_, s)| !s.connected)
        .map(|(i, s)| (i, s.attach_time))
        .collect();
    idle.sort_by(|a, b| a.1.cmp(&b.1));
    assert_eq!(pick_resume(&sessions), idle.last().map(|e| e.0));
    assert_eq!(pick_resume(&sessions), Some(3));
}

#[test]
fn resume_without_idle_sessions_starts_or_gives_up() {
    let busy = vec![info(0, "a", true, 10)];
    assert_eq!(pick_resume(&busy), None);
    assert_eq!(pick_resume(&vec![]), None);
    assert!(matches!(resume_step(&busy, true), ResumeStep::Start));
    assert!(matches!(resume_step(&busy, false), ResumeStep::Nothing));
    assert!(matches!(resume_step(&vec![], true), ResumeStep::Start));
}

#[test]
fn detach_falls_back_to_the_current_session() {
    assert!(matches!(
        detach_selector(Some(SessionSelector::Id(2)), Some("cur".to_string())),
        Ok(SessionSelector::Id(2))
    ));
    assert!(matches!(
        detach_selector(None, Some("cur".to_string())),
        Ok(SessionSelector::Name(n)) if n == "cur"
    ));
    assert!(matches!(detach_selector(None, None), Err(SeshError::Env)));
}

#[test]
fn refused_attach_creates_or_fails() {
    assert_eq!(
        after_refused_attach(SessionSelector::Name("new".to_string()), true, "gone"),
        Ok(Some("new".to_string()))
    );
    assert_eq!(after_refused_attach(SessionSelector::Id(1), true, "gone"), Ok(None));
    assert_eq!(
        after_refused_attach(SessionSelector::Id(1), false, "gone"),
        Err("Session not found: gone".to_string())
    );
}

#[test]
fn json_record_copies_the_info() {
    let record = SeshInfoSer::of(&info(7, "sh", true, 55));
    assert_eq!(record.index, 7);
    assert_eq!(record.name, "sh");
    assert_eq!(record.program, "/bin/sh");
    assert_eq!(record.socket, "/tmp/sesh/sh.sock");
    assert!(record.connected);
    assert_eq!(record.start_time, 1);
    assert_eq!(record.attach_time, 55);
}

#[test]
fn program_label_drops_the_directories() {
    assert_eq!(program_label("/usr/bin/vim"), "vim");
    assert_eq!(program_label("vim"), "vim");
    assert_eq!(program_label("/usr/bin/"), "");
    assert_eq!(program_label(""), "");
    for p in ["/usr/bin/vim", "vim", "a/b/", "", "/"] {
        assert_eq!(program_label(p), p.split('/').last().unwrap_or(""));
    }
}

#[test]
fn attach_time_zero_means_never() {
    assert!(!was_attached(0));
    assert!(!was_attached(-1));
    assert!(was_attached(1));
}

#[test]
fn pump_forwards_or_disconnects() {
    assert_eq!(pump_step(10), PumpStep::Forward(10));
    assert_eq!(pump_step(PUMP_CHUNK), PumpStep::Forward(4096));
    assert_eq!(pump_step(0), PumpStep::Disconnect);
    assert!(pump_runs(true));
    assert!(!pump_runs(false));
}

#[test]
fn pump_writes_what_it_read_before_the_client_was_let_go() {
    // The client is let go while a read is under way: what the read gave
    // is still written, and only then does the pump stop.
    let chunk = [b'l', b's', b'\n', 0];
    let mut delivered = Vec::new();
    let mut connected = true;
    let mut reads = 0;
    while pump_runs(connected) {
        reads += 1;
        connected = false;
        if let PumpStep::Forward(n) = pump_step(3) {
            delivered.extend_from_slice(forwarded(&chunk, n));
        }
    }
    assert_eq!(reads, 1);
    assert_eq!(delivered, vec![b'l', b's', b'\n']);
}

#[test]
fn pump_forwards_what_was_read_in_order() {
    let buffer = [1u8, 2, 3, 4, 5, 0, 0, 0];
    assert_eq!(forwarded(&buffer, 5), &[1, 2, 3, 4, 5]);
    assert_eq!(forwarded(&buffer, 0), &[] as &[u8]);
    assert_eq!(forwarded(&buffer, 8), &buffer);
    let mut delivered = Vec::new();
    for (chunk, count) in [([9u8, 8, 7, 0], 3usize), ([6, 5, 0, 0], 2), ([4, 0, 0, 0], 1)] {
        if let PumpStep::Forward(n) = pump_step(count) {
            delivered.extend_from_slice(forwarded(&chunk, n));
        }
    }
    assert_eq!(delivered, vec![9, 8, 7, 6, 5, 4]);
}

#[test]
fn sizes_from_requests() {
    assert_eq!(Size::of_request(&WinSize { rows: 24, cols: 80 }), Size { rows: 24, cols: 80 });
    assert_eq!(Size::of_request(&WinSize { rows: 65_536, cols: 65_537 }), Size { rows: 0, cols: 1 });
    assert_eq!(
        Size::of_request(&WinSize { rows: u32::MAX, cols: 70_000 }),
        Size { rows: u32::MAX as u16, cols: 70_000u32 as u16 }
    );
    let fallback = Size { rows: 1, cols: 2 };
    assert_eq!(Size::of_request_or(None, fallback), fallback);
    assert_eq!(
        Size::of_request_or(Some(WinSize { rows: 3, cols: 4 }), fallback),
        Size { rows: 3, cols: 4 }
    );
    assert_eq!(Size { rows: 24, cols: 80 }.to_request(), WinSize { rows: 24, cols: 80 });
}

#[test]
fn relay_size_is_one_column_narrower() {
    assert_eq!(Size { rows: 24, cols: 80 }.relay(), Size { rows: 24, cols: 79 });
    assert_eq!(Size { rows: 0, cols: 1 }.relay(), Size { rows: 0, cols: 0 });
    assert_eq!(Size { rows: 5, cols: 0 }.relay(), Size { rows: 5, cols: 0 });
    assert_eq!(Size { rows: 5, cols: u16::MAX }.relay(), Size { rows: 5, cols: u16::MAX - 1 });
}

#[test]
fn c_results() {
    assert_eq!((-1i32).to_result(), Err(SeshError::System));
    assert_eq!(0i32.to_result(), Ok(0));
    assert_eq!(7i32.to_result(), Ok(7));
    assert_eq!((-2i32).to_result(), Ok(-2));
}

#[test]
fn builder_collects_arguments_and_variables() {
    let builder = Pty::new("/bin/sh")
        .arg("-c")
        .args(vec!["echo".to_string(), "hi".to_string()])
        .env("A", "1")
        .envs(vec![("B".to_string(), "2".to_string()), ("A".to_string(), "3".to_string())])
        .current_dir("/tmp");
    assert_eq!(builder.program(), "/bin/sh");
    assert_eq!(builder.arguments(), &vec!["-c".to_string(), "echo".to_string(), "hi".to_string()]);
    assert!(builder.inherits_env());
    assert_eq!(
        builder.variables(),
        &vec![
            ("A".to_string(), "1".to_string()),
            ("B".to_string(), "2".to_string()),
            ("A".to_string(), "3".to_string())
        ]
    );
    assert_eq!(builder.working_dir(), &Some("/tmp".to_string()));
    assert!(!builder.is_daemon());
}

#[test]
fn builder_env_clear_drops_what_was_set() {
    let builder = Pty::new("sh").env("A", "1").env_clear().env("B", "2");
    assert!(!builder.inherits_env());
    assert_eq!(builder.variables(), &vec![("B".to_string(), "2".to_string())]);
}

#[test]
fn builder_daemonize_decides_kill_on_drop() {
    let plain = Pty::new("sh");
    assert!(plain.spawned(3, 4).kills_on_drop());
    let daemon = Pty::new("seshd").daemonize();
    assert!(daemon.is_daemon());
    let pty = daemon.spawned(5, 6);
    assert!(!pty.kills_on_drop());
    assert_eq!(pty.fd(), 5);
    assert_eq!(pty.pid(), 6);
    let back = Pty::new("seshd").daemonize().kill_on_drop();
    assert!(back.spawned(1, 2).kills_on_drop());
    let mut set = Pty::new("sh");
    set.set_daemonize(true);
    assert!(!set.spawned(1, 2).kills_on_drop());
    set.set_daemonize(false);
    assert!(set.spawned(1, 2).kills_on_drop());
}

#[test]
fn pty_daemonize_keeps_the_child() {
    let mut pty = Pty::new("sh").spawned(7, 8);
    assert!(pty.kills_on_drop());
    pty.daemonize();
    assert!(!pty.kills_on_drop());
    assert_eq!(pty.fd(), 7);
    assert_eq!(pty.pid(), 8);
    let copy = pty.clone();
    assert_eq!(copy.pid(), 8);
    assert!(!copy.kills_on_drop());
}

#[test]
fn child_that_has_not_changed_state_must_be_killed() {
    assert!(Pty::must_kill(0));
    assert!(Pty::must_kill(-1));
    assert!(!Pty::must_kill(1));
    assert!(!Pty::must_kill(15));
}

#[test]
fn error_messages() {
    assert_eq!(SeshError::NotFound.message(), "Session not found");
    assert_eq!(SeshError::AlreadyConnected.message(), "Session already connected");
    assert_eq!(SeshError::Env.message(), "No session name found in environment");
    assert_eq!(SeshError::Transport.message(), "[failed to connect to server]");
}
