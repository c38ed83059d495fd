use backend_supervisor::discovery::{PollStep, PortPoller};
use backend_supervisor::log_sink::{log_line, LogSink, OutputEvent, SinkAction};
use backend_supervisor::manager::{BackendManager, Phase, StartError};
use backend_supervisor::paths::config_location;
use backend_supervisor::region::{is_mirror_country, mirror_wanted, prefers_mirror};
use backend_supervisor::shutdown::{
    command_line, exit_command, next_step, shutdown_plan, termination_plan, ShutdownAction, Signal,
    TerminationStrategy,
};
use backend_supervisor::text::{decimal_string, parse_port};

fn ready_to_wait(timeout_ms: u64, poll_ms: u64, pid: u32) -> BackendManager {
    let mut m = BackendManager::with_timing(TerminationStrategy::ProcessGroup, timeout_ms, poll_ms, 3000);
    let args = m.start_all(true, false).unwrap();
    assert_eq!(args, vec!["sync".to_string(), "--frozen".to_string()]);
    let launch = m.dependencies_synced();
    assert_eq!(launch, vec!["run".to_string(), "-m".to_string(), "valuecell.server.main".to_string()]);
    m.process_spawned(Some(pid)).unwrap();
    assert_eq!(m.phase(), Phase::WaitingForPort);
    m
}

#[test]
fn stub_worker_port_reaches_ready() {
    let mut m = ready_to_wait(5000, 100, 4242);
    assert_eq!(m.port_observed(0, None), PollStep::Sleep(100));
    assert_eq!(m.port_observed(100, None), PollStep::Sleep(100));
    assert_eq!(m.port_observed(200, Some("54321\n")), PollStep::Found(54321));
    assert_eq!(m.phase(), Phase::Ready);
    assert_eq!(m.get_port(), Some(54321));
    assert_eq!(m.get_backend_url(), Some("http://127.0.0.1:54321".to_string()));
}

#[test]
fn silent_worker_times_out() {
    let mut m = ready_to_wait(500, 100, 7);
    let mut elapsed: u64 = 0;
    let outcome = loop {
        match m.port_observed(elapsed, None) {
            PollStep::Sleep(d) => elapsed += d,
            other => break other,
        }
    };
    assert_eq!(outcome, PollStep::TimedOut(500));
    assert!(elapsed < 500 + 100);
    assert_eq!(m.phase(), Phase::Failed);
    assert_eq!(m.get_port(), None);
    assert_eq!(m.get_backend_url(), None);
}

#[test]
fn port_before_deadline_is_found_at_deadline_is_not() {
    let p = PortPoller::new(1000, 300);
    assert_eq!(p.observe(900, None), PollStep::Sleep(99));
    assert_eq!(p.observe(999, None), PollStep::Sleep(1));
    assert_eq!(p.observe(999, Some("8000")), PollStep::Found(8000));
    assert_eq!(p.observe(1000, Some("8000")), PollStep::TimedOut(1000));
    assert_eq!(p.observe(1200, Some("8000")), PollStep::TimedOut(1200));
    assert_eq!(p.observe(1000, None), PollStep::TimedOut(1000));
    assert_eq!(p.observe(10, Some("garbage")), PollStep::Sleep(300));
}

#[test]
fn file_appearing_before_deadline_is_found() {
    // The file appears at 950 ms; reads happen at 0, 300, 600, 900, 999.
    let p = PortPoller::new(1000, 300);
    let mut elapsed: u64 = 0;
    let outcome = loop {
        let text = if elapsed >= 950 { Some("8765") } else { None };
        match p.observe(elapsed, text) {
            PollStep::Sleep(d) => elapsed += d,
            other => break other,
        }
    };
    assert_eq!(outcome, PollStep::Found(8765));
    assert_eq!(elapsed, 999);
}

#[test]
fn second_start_is_refused_and_keeps_port() {
    let mut m = ready_to_wait(5000, 100, 8);
    m.port_observed(50, Some("4000"));
    assert_eq!(m.start_all(true, false), Err(StartError::AlreadyStarted));
    assert_eq!(m.phase(), Phase::Ready);
    assert_eq!(m.get_port(), Some(4000));
}

#[test]
fn missing_tooling_is_fatal() {
    let mut m = BackendManager::new(TerminationStrategy::TreeKill);
    assert_eq!(m.start_all(false, false), Err(StartError::ToolingNotFound));
    assert_eq!(m.phase(), Phase::Failed);
    assert_eq!(m.get_port(), None);
}

#[test]
fn launch_failure_is_fatal() {
    let mut m = BackendManager::new(TerminationStrategy::TreeKill);
    m.start_all(true, false).unwrap();
    m.dependencies_synced();
    assert_eq!(m.process_spawned(None), Err(StartError::Launch));
    assert_eq!(m.phase(), Phase::Failed);
    assert!(m.tracked_processes().is_empty());
}

#[test]
fn mirror_sync_arguments() {
    let mut m = BackendManager::new(TerminationStrategy::ProcessGroup);
    let args = m.start_all(true, true).unwrap();
    assert_eq!(
        args,
        vec![
            "sync".to_string(),
            "--frozen".to_string(),
            "--index-url".to_string(),
            "https://mirrors.aliyun.com/pypi/simple/".to_string()
        ]
    );
}

#[test]
fn stop_all_twice_is_idempotent() {
    let mut m = ready_to_wait(5000, 100, 99);
    m.port_observed(0, Some("1234"));
    let first = m.stop_all();
    assert_eq!(first, termination_plan(99, TerminationStrategy::ProcessGroup, 3000));
    assert_eq!(m.phase(), Phase::ShuttingDown);
    assert!(m.tracked_processes().is_empty());
    assert_eq!(m.get_port(), Some(1234));
    let second = m.stop_all();
    assert!(second.is_empty());
    assert_eq!(m.phase(), Phase::ShuttingDown);
    m.shutdown_finished();
    assert_eq!(m.phase(), Phase::Stopped);
    assert!(m.stop_all().is_empty());
    assert_eq!(m.phase(), Phase::Stopped);
    assert_eq!(m.get_backend_url(), Some("http://127.0.0.1:1234".to_string()));
}

#[test]
fn stop_with_nothing_tracked_is_a_no_op() {
    let mut m = BackendManager::new(TerminationStrategy::ProcessGroup);
    assert!(m.stop_all().is_empty());
    assert_eq!(m.phase(), Phase::Uninitialized);
}

#[test]
fn stop_after_timeout_still_kills_worker() {
    let mut m = ready_to_wait(500, 100, 31);
    m.port_observed(600, None);
    let plan = m.stop_all();
    assert!(plan.contains(&ShutdownAction::Kill(31)));
    assert!(plan.contains(&ShutdownAction::SignalGroup(31, Signal::Kill)));
    assert!(plan.contains(&ShutdownAction::SignalChildren(31, Signal::Kill)));
}

#[test]
fn termination_plans() {
    assert_eq!(
        termination_plan(5, TerminationStrategy::ProcessGroup, 3000),
        vec![
            ShutdownAction::SendExitCommand(5),
            ShutdownAction::Wait(3000),
            ShutdownAction::SignalGroup(5, Signal::Interrupt),
            ShutdownAction::SignalChildren(5, Signal::Interrupt),
            ShutdownAction::Wait(3000),
            ShutdownAction::SignalGroup(5, Signal::Kill),
            ShutdownAction::SignalChildren(5, Signal::Kill),
            ShutdownAction::Kill(5),
        ]
    );
    assert_eq!(
        termination_plan(6, TerminationStrategy::TreeKill, 10),
        vec![
            ShutdownAction::SendExitCommand(6),
            ShutdownAction::Wait(10),
            ShutdownAction::KillTree(6),
            ShutdownAction::Kill(6),
        ]
    );
    let both = shutdown_plan(&vec![1, 2], TerminationStrategy::TreeKill, 10);
    assert_eq!(both.len(), 8);
    assert_eq!(both[3], ShutdownAction::Kill(1));
    assert_eq!(both[7], ShutdownAction::Kill(2));
    assert!(shutdown_plan(&vec![], TerminationStrategy::TreeKill, 10).is_empty());
}

#[test]
fn undelivered_exit_command_skips_to_forceful_phase() {
    let plan = shutdown_plan(&vec![1, 2], TerminationStrategy::ProcessGroup, 3000);
    assert_eq!(next_step(&plan, 0, true), 1);
    assert_eq!(next_step(&plan, 0, false), 5);
    assert_eq!(plan[5], ShutdownAction::SignalGroup(1, Signal::Kill));
    assert_eq!(next_step(&plan, 1, false), 2);
    assert_eq!(next_step(&plan, 8, false), 13);
    let tree = termination_plan(9, TerminationStrategy::TreeKill, 10);
    assert_eq!(next_step(&tree, 0, false), 2);
    let only = vec![ShutdownAction::SendExitCommand(4), ShutdownAction::Wait(1)];
    assert_eq!(next_step(&only, 0, false), 2);
}

#[test]
fn strategy_selection() {
    assert_eq!(TerminationStrategy::select(true), TerminationStrategy::TreeKill);
    assert_eq!(TerminationStrategy::select(false), TerminationStrategy::ProcessGroup);
}

#[test]
fn descendant_command_lines() {
    let s = |v: &[&str]| v.iter().map(|x| x.to_string()).collect::<Vec<String>>();
    assert_eq!(
        command_line(ShutdownAction::SignalChildren(4321, Signal::Interrupt)),
        Some(s(&["pkill", "-INT", "-P", "4321"]))
    );
    assert_eq!(
        command_line(ShutdownAction::SignalChildren(7, Signal::Kill)),
        Some(s(&["pkill", "-KILL", "-P", "7"]))
    );
    assert_eq!(
        command_line(ShutdownAction::KillTree(100200)),
        Some(s(&["taskkill", "/F", "/T", "/PID", "100200"]))
    );
    assert_eq!(
        command_line(ShutdownAction::SignalGroup(55, Signal::Kill)),
        Some(s(&["pkill", "-KILL", "-g", "55"]))
    );
    assert_eq!(
        command_line(ShutdownAction::SignalGroup(56, Signal::Interrupt)),
        Some(s(&["pkill", "-INT", "-g", "56"]))
    );
    assert_eq!(command_line(ShutdownAction::Kill(3)), None);
    assert_eq!(command_line(ShutdownAction::Wait(3)), None);
}

#[test]
fn exit_command_bytes() {
    assert_eq!(exit_command(), b"__EXIT__\n".to_vec());
}

#[test]
fn decimal_rendering() {
    assert_eq!(decimal_string(0), "0");
    assert_eq!(decimal_string(9), "9");
    assert_eq!(decimal_string(10), "10");
    assert_eq!(decimal_string(65535), "65535");
    assert_eq!(decimal_string(u32::MAX), "4294967295");
}

#[test]
fn port_file_parsing() {
    assert_eq!(parse_port("8080"), Some(8080));
    assert_eq!(parse_port("  8080 \n"), Some(8080));
    assert_eq!(parse_port("\u{3000}443\u{a0}"), Some(443));
    assert_eq!(parse_port("+80"), Some(80));
    assert_eq!(parse_port("0080"), Some(80));
    assert_eq!(parse_port("65535"), Some(65535));
    assert_eq!(parse_port("65536"), None);
    assert_eq!(parse_port("999999999999"), None);
    assert_eq!(parse_port("0"), None);
    assert_eq!(parse_port(""), None);
    assert_eq!(parse_port("   "), None);
    assert_eq!(parse_port("+"), None);
    assert_eq!(parse_port("-80"), None);
    assert_eq!(parse_port("80 80"), None);
    assert_eq!(parse_port("8o"), None);
}

#[test]
fn log_lines_are_normalised() {
    assert_eq!(log_line(b"hello\n"), "hello\n");
    assert_eq!(log_line(b"hello\n\n\n"), "hello\n");
    assert_eq!(log_line(b"hello"), "hello\n");
    assert_eq!(log_line(b""), "\n");
    assert_eq!(log_line(&[0x66, 0xff, 0x0a]), "f\u{fffd}\n");
}

#[test]
fn sink_keeps_both_streams_in_order() {
    let events = vec![
        OutputEvent::Stdout(b"out 1\n".to_vec()),
        OutputEvent::Stderr(b"err 1".to_vec()),
        OutputEvent::Other,
        OutputEvent::Stdout(b"out 2\n".to_vec()),
        OutputEvent::Stderr(b"err 2\n".to_vec()),
        OutputEvent::Terminated(Some(0), None),
        OutputEvent::Stdout(b"late\n".to_vec()),
    ];
    let mut sink = LogSink::new();
    let mut file = String::new();
    let mut stops = 0;
    for e in &events {
        match sink.accept(e) {
            SinkAction::Append(t) => file.push_str(&t),
            SinkAction::Skip => {}
            SinkAction::Stop => stops += 1,
        }
    }
    assert_eq!(file, "out 1\nerr 1\nout 2\nerr 2\n");
    assert_eq!(file.lines().count(), 4);
    assert_eq!(stops, 2);
    assert!(sink.is_stopped());
}

#[test]
fn sink_stops_on_stream_error() {
    let mut sink = LogSink::new();
    assert!(matches!(sink.accept(&OutputEvent::Error("broken pipe".to_string())), SinkAction::Stop));
    assert!(matches!(sink.accept(&OutputEvent::Stdout(b"x".to_vec())), SinkAction::Stop));
}

#[test]
fn mirror_region_detection() {
    assert!(is_mirror_country("CN"));
    assert!(!is_mirror_country("cn"));
    assert!(mirror_wanted(Some("cn".to_string())));
    assert!(mirror_wanted(Some("CN".to_string())));
    assert!(!mirror_wanted(Some("US".to_string())));
    assert!(!mirror_wanted(None));
    assert!(prefers_mirror(br#"{"ip":"1.2.3.4","country_code":"cn"}"#));
    assert!(!prefers_mirror(br#"{"country_code":"DE"}"#));
    assert!(!prefers_mirror(br#"{"country_code":86}"#));
    assert!(!prefers_mirror(br#"{"country":"CN"}"#));
    assert!(!prefers_mirror(b"not json"));
}

#[test]
fn config_directory_per_platform() {
    let home = || Some("/home/ana".to_string());
    let l = config_location("linux", None, home());
    assert_eq!((l.base, l.path), (home(), ".config/valuecell".to_string()));
    let l = config_location("linux", None, None);
    assert_eq!((l.base, l.path), (None, "/tmp/valuecell".to_string()));
    let l = config_location("macos", None, home());
    assert_eq!((l.base, l.path), (home(), "Library/Application Support/ValueCell".to_string()));
    let l = config_location("macos", None, None);
    assert_eq!((l.base, l.path), (None, "/tmp/ValueCell".to_string()));
    let l = config_location("windows", Some("C:\\Users\\a\\AppData\\Roaming".to_string()), home());
    assert_eq!(
        (l.base, l.path),
        (Some("C:\\Users\\a\\AppData\\Roaming".to_string()), "ValueCell".to_string())
    );
    let l = config_location("windows", None, home());
    assert_eq!((l.base, l.path), (home(), "AppData/Roaming/ValueCell".to_string()));
    let l = config_location("windows", None, None);
    assert_eq!((l.base, l.path), (None, "C:\\ValueCell".to_string()));
}

#[test]
fn sink_orders_each_stream() {
    let events = vec![
        OutputEvent::Stderr(b"e1".to_vec()),
        OutputEvent::Stdout(b"o1\n".to_vec()),
        OutputEvent::Stderr(b"e2\n".to_vec()),
        OutputEvent::Stdout(b"o2".to_vec()),
        OutputEvent::Stdout(b"o3\n\n".to_vec()),
    ];
    let mut sink = LogSink::new();
    let mut out = Vec::new();
    let mut err = Vec::new();
    for e in &events {
        if let SinkAction::Append(t) = sink.accept(e) {
            match e {
                OutputEvent::Stdout(_) => out.push(t),
                _ => err.push(t),
            }
        }
    }
    assert_eq!(out, vec!["o1\n", "o2\n", "o3\n"]);
    assert_eq!(err, vec!["e1\n", "e2\n"]);
}
