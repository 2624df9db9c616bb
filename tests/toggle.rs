use vpn_toggle::store::StoreError;
use vpn_toggle::toggle::{
    classify, outcome_line, render_report, CommandEvent, Direction, Outcome, PathResult,
    ToggleError, ToggleRun,
};

fn run_all(direction: Direction, paths: Vec<&str>, events: Vec<CommandEvent>) -> (String, Vec<String>) {
    let listed = Ok(paths.iter().map(|p| p.to_string()).collect());
    let mut run = ToggleRun::start(direction, listed).expect("path list was read");
    let mut launched = Vec::new();
    for ev in events.iter() {
        let inv = run.next_invocation().expect("a path is pending");
        launched.push(format!("{} {}", inv.verb, inv.path));
        run.record(ev);
    }
    assert!(run.next_invocation().is_none());
    (run.report(), launched)
}

#[test]
fn partial_failure_processes_full_list() {
    let events = vec![
        CommandEvent::Exited { success: true, stderr: Vec::new() },
        CommandEvent::Exited { success: false, stderr: b"no such interface".to_vec() },
        CommandEvent::SpawnFailed("tool not found".to_string()),
    ];
    let (report, launched) = run_all(Direction::Up, vec!["/a.conf", "/b.conf", "/c.conf"], events);
    assert_eq!(launched, vec!["up /a.conf", "up /b.conf", "up /c.conf"]);
    assert_eq!(
        report,
        "VPN ON for /a.conf: Success\n\
         VPN ON for /b.conf: Failed - no such interface\n\
         VPN ON for /c.conf: Error - tool not found\n"
    );
    assert_eq!(report.lines().count(), 3);
}

#[test]
fn empty_registry_toggle_reports_nothing() {
    let run = ToggleRun::start(Direction::Up, Ok(Vec::new())).expect("path list was read");
    assert!(!run.is_pending());
    assert!(run.next_invocation().is_none());
    assert_eq!(run.report(), "");
}

#[test]
fn store_failure_aborts_toggle() {
    for d in [Direction::Up, Direction::Down] {
        let r = ToggleRun::start(d, Err(StoreError::StorageError("disk I/O error".to_string())));
        match r {
            Err(e) => {
                assert!(matches!(e, ToggleError::PathListUnavailable(StoreError::StorageError(_))));
                assert_eq!(e.message(), "disk I/O error");
            }
            Ok(_) => panic!("toggle must fail when the path list cannot be read"),
        }
    }
}

#[test]
fn direction_labels() {
    let (off, launched) = run_all(
        Direction::Down,
        vec!["/etc/wg/home.conf"],
        vec![CommandEvent::Exited { success: true, stderr: Vec::new() }],
    );
    assert_eq!(off, "VPN OFF for /etc/wg/home.conf: Success\n");
    assert_eq!(launched, vec!["down /etc/wg/home.conf"]);
    let (on, _) = run_all(
        Direction::Up,
        vec!["/etc/wg/home.conf"],
        vec![CommandEvent::Exited { success: true, stderr: Vec::new() }],
    );
    assert_eq!(on, "VPN ON for /etc/wg/home.conf: Success\n");
}

#[test]
fn verbs_and_labels() {
    assert_eq!(Direction::Up.verb(), "up");
    assert_eq!(Direction::Down.verb(), "down");
    assert_eq!(Direction::Up.label(), "VPN ON");
    assert_eq!(Direction::Down.label(), "VPN OFF");
}

#[test]
fn failed_exit_decodes_stderr_lossily() {
    let o = classify(&CommandEvent::Exited { success: false, stderr: vec![b'x', 0xff, b'y'] });
    match o {
        Outcome::Failed(text) => assert_eq!(text, "x\u{FFFD}y"),
        other => panic!("unexpected outcome {:?}", other),
    }
}

#[test]
fn successful_exit_ignores_stderr() {
    let o = classify(&CommandEvent::Exited { success: true, stderr: b"warning".to_vec() });
    assert!(matches!(o, Outcome::Success));
}

#[test]
fn spawn_error_line() {
    let line = outcome_line(Direction::Down, "/x", &Outcome::SpawnError("denied".to_string()));
    assert_eq!(line, "VPN OFF for /x: Error - denied\n");
}

#[test]
fn every_path_failing_still_reports_all() {
    let events = vec![
        CommandEvent::SpawnFailed("e1".to_string()),
        CommandEvent::SpawnFailed("e2".to_string()),
    ];
    let (report, _) = run_all(Direction::Down, vec!["/p", "/p"], events);
    assert_eq!(report, "VPN OFF for /p: Error - e1\nVPN OFF for /p: Error - e2\n");
}

#[test]
fn render_report_of_results() {
    let results = vec![
        PathResult { path: "/a".to_string(), outcome: Outcome::Failed("boom\n".to_string()) },
        PathResult { path: "/b".to_string(), outcome: Outcome::Success },
    ];
    assert_eq!(
        render_report(Direction::Up, &results),
        "VPN ON for /a: Failed - boom\n\nVPN ON for /b: Success\n"
    );
    assert_eq!(render_report(Direction::Up, &Vec::new()), "");
}
