use timetrackd::sample::{Sample, SampleError};
use timetrackd::sampler::{
    get_sample, is_idle, parse_pid, probe_invocation, probe_locale, probe_text,
    screensaver_active_from, Probe,
};
use timetrackd::watch::{render_line, TickOutput, Tracker};

fn sample(title: &str, pid: u32, name: &str, screensaver: bool, idle: bool) -> Sample {
    Sample {
        window_title: title.to_string(),
        pid,
        process_name: name.to_string(),
        screensaver_active: screensaver,
        idle,
    }
}

#[test]
fn probe_text_decodes_and_trims() {
    let r = probe_text(b"  Terminal \n".to_vec());
    assert_eq!(r.unwrap(), "Terminal");
}

#[test]
fn probe_text_rejects_invalid_utf8() {
    let r = probe_text(vec![0xff, 0xfe, 0x20]);
    assert!(matches!(r, Err(SampleError::FromUtf8(b)) if b == vec![0xff, 0xfe, 0x20]));
}

#[test]
fn screensaver_state_follows_inactive_marker() {
    assert!(!screensaver_active_from("screensaver is inactive\n"));
    assert!(screensaver_active_from(""));
    assert!(screensaver_active_from("active"));
    assert!(screensaver_active_from("the saver is on"));
}

#[test]
fn idle_comparison_is_strict() {
    assert!(!is_idle(4999, 5));
    assert!(!is_idle(5000, 5));
    assert!(is_idle(5001, 5));
    assert!(!is_idle(0, 0));
    assert!(is_idle(1, 0));
}

#[test]
fn pid_parse_failure_keeps_text() {
    assert!(matches!(parse_pid("4821"), Ok(4821)));
    assert!(matches!(parse_pid("abc"), Err(SampleError::ParseInt(t)) if t == "abc"));
}

#[test]
fn example_tick_assembles_sample_and_line() {
    let r = get_sample(
        "Terminal".to_string(),
        "4821",
        "bash".to_string(),
        "screensaver status: inactive",
        "2000",
        5,
    );
    let s = r.unwrap();
    assert_eq!(s.window_title, "Terminal");
    assert_eq!(s.pid, 4821);
    assert_eq!(s.process_name, "bash");
    assert!(!s.screensaver_active);
    assert!(!s.idle);

    let mut tracker = Tracker::new();
    match tracker.tick(Ok(s)) {
        TickOutput::Report(line) => assert_eq!(line, "'Terminal' ([4821] bash)"),
        other => panic!("expected a report, got {:?}", other),
    }
}

#[test]
fn malformed_pid_aborts_the_tick() {
    let r = get_sample(
        "Terminal".to_string(),
        "abc",
        "bash".to_string(),
        "inactive",
        "2000",
        5,
    );
    assert!(matches!(r, Err(SampleError::ParseInt(t)) if t == "abc"));
}

#[test]
fn malformed_idle_aborts_the_tick() {
    let r = get_sample(
        "Terminal".to_string(),
        "4821",
        "bash".to_string(),
        "inactive",
        "soon",
        5,
    );
    assert!(matches!(r, Err(SampleError::ParseInt(t)) if t == "soon"));
}

#[test]
fn screensaver_line_suppresses_detail() {
    let s = sample("Secret window", 42, "vault", true, true);
    assert_eq!(render_line(&s), "screensaver");
}

#[test]
fn plain_line_shows_title_pid_and_name() {
    let s = sample("Terminal", 4821, "bash", false, false);
    assert_eq!(render_line(&s), "'Terminal' ([4821] bash)");
}

#[test]
fn idle_line_gets_suffix() {
    let s = sample("Terminal", 4821, "bash", false, true);
    assert_eq!(render_line(&s), "'Terminal' ([4821] bash) (idle)");
}

#[test]
fn repeated_sample_is_reported_once() {
    let mut tracker = Tracker::new();
    let a = sample("Terminal", 1, "bash", false, false);
    assert!(matches!(tracker.tick(Ok(a.clone())), TickOutput::Report(_)));
    assert!(matches!(tracker.tick(Ok(a)), TickOutput::Quiet));
}

#[test]
fn any_single_field_change_is_reported() {
    let a = sample("Terminal", 1, "bash", false, false);
    let changed = [
        sample("Editor", 1, "bash", false, false),
        sample("Terminal", 2, "bash", false, false),
        sample("Terminal", 1, "zsh", false, false),
        sample("Terminal", 1, "bash", true, false),
        sample("Terminal", 1, "bash", false, true),
    ];
    for b in changed {
        let mut tracker = Tracker::new();
        assert!(matches!(tracker.tick(Ok(a.clone())), TickOutput::Report(_)));
        assert!(matches!(tracker.tick(Ok(b)), TickOutput::Report(_)));
    }
}

#[test]
fn failure_resets_memory() {
    let mut tracker = Tracker::new();
    let a = sample("Terminal", 1, "bash", false, false);
    assert!(matches!(tracker.tick(Ok(a.clone())), TickOutput::Report(_)));
    assert!(matches!(tracker.tick(Ok(a.clone())), TickOutput::Quiet));
    let out = tracker.tick(Err(SampleError::ParseInt("abc".to_string())));
    assert!(matches!(out, TickOutput::Failure(d) if d == "not a decimal integer: 'abc'"));
    // The identical sample is reported again: the failure cleared the slot.
    assert!(matches!(tracker.tick(Ok(a)), TickOutput::Report(_)));
}

#[test]
fn diagnostics_name_the_failure_kind() {
    let io = SampleError::Io("spawn failed".to_string());
    assert_eq!(io.describe(), "probe failed: spawn failed");
    let utf8 = SampleError::FromUtf8(vec![0xff]);
    assert_eq!(utf8.describe(), "probe output was not valid text");
}

#[test]
fn probe_table_matches_the_external_tools() {
    let to_vec = |items: &[&str]| items.iter().map(|s| s.to_string()).collect::<Vec<_>>();
    let (cmd, args) = probe_invocation(Probe::WindowTitle, "");
    assert_eq!(cmd, "xdotool");
    assert_eq!(args, to_vec(&["getactivewindow", "getwindowname"]));
    let (cmd, args) = probe_invocation(Probe::WindowPid, "");
    assert_eq!(cmd, "xdotool");
    assert_eq!(args, to_vec(&["getactivewindow", "getwindowpid"]));
    let (cmd, args) = probe_invocation(Probe::ProcessName, "4821");
    assert_eq!(cmd, "ps");
    assert_eq!(args, to_vec(&["-p", "4821", "-o", "comm="]));
    let (cmd, args) = probe_invocation(Probe::Screensaver, "");
    assert_eq!(cmd, "gnome-screensaver-command");
    assert_eq!(args, to_vec(&["-q"]));
    let (cmd, args) = probe_invocation(Probe::IdleTime, "");
    assert_eq!(cmd, "xprintidle");
    assert!(args.is_empty());
    assert_eq!(probe_locale(), ("LC_ALL".to_string(), "C".to_string()));
}
