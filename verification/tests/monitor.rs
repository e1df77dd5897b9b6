use whatmedoin::event::WindowSnapshot;
use whatmedoin::monitor::{
    answer_accepted, config, endpoint, is_tracked_window, Monitor, MonitorAction, MonitorEvent, Phase, Variant,
};

fn window(name: &str, path: &str) -> WindowSnapshot {
    WindowSnapshot {
        id: 7,
        os: "linux".to_string(),
        title: "t".to_string(),
        url: String::new(),
        process_path: path.to_string(),
        process_name: name.to_string(),
        exec_name: name.to_string(),
    }
}

fn observed(name: &str, path: &str) -> MonitorEvent {
    MonitorEvent::Observed(Some(window(name, path)))
}

#[test]
fn configs() {
    let u = config(Variant::Unix);
    assert_eq!((u.interval_secs, u.skip_first_tick, u.tracked_only, u.stop_on_signal), (10, true, false, true));
    let d = config(Variant::Daemon);
    assert_eq!((d.interval_secs, d.skip_first_tick, d.tracked_only, d.stop_on_signal), (300, false, false, false));
    let w = config(Variant::Windows);
    assert_eq!((w.interval_secs, w.skip_first_tick, w.tracked_only, w.stop_on_signal), (900, true, true, true));
}

#[test]
fn endpoints() {
    assert_eq!(endpoint(Variant::Unix), "https://affectionate-compassion-production.up.railway.app/activity");
    assert_eq!(endpoint(Variant::Daemon), "https://affectionate-compassion-production.up.railway.app");
    assert_eq!(endpoint(Variant::Windows), "https://api.whatmedoin.frixaco.com/activity");
}

#[test]
fn tracked_windows() {
    for name in [
        "wezterm-gui", "Cursor", "Slack", "anki", "Heptabase", "osu!", "Blender", "pwsh",
        "eldenring", "ELDEN RING\u{2122}", "Wuthering Waves", "Client-Win64-Shipping",
    ] {
        assert!(is_tracked_window(name), "{}", name);
    }
    for name in ["cursor", "Firefox", "", "pwsh ", "Slack2"] {
        assert!(!is_tracked_window(name), "{}", name);
    }
}

#[test]
fn unix_loop_scenario() {
    let mut m = Monitor::new(Variant::Unix);
    assert_eq!(m.phase, Phase::Priming);
    assert!(matches!(m.begin(), MonitorAction::AwaitTick));
    assert!(matches!(m.step(MonitorEvent::Tick), MonitorAction::AwaitTick));
    assert!(matches!(m.step(MonitorEvent::Tick), MonitorAction::ReadActiveWindow));
    match m.step(observed("Firefox", "/usr/bin/firefox")) {
        MonitorAction::Send(e) => {
            assert_eq!(e.platform, "desktop");
            assert_eq!(e.title, "Firefox");
            assert_eq!(e.url, "/usr/bin/firefox");
        }
        _ => panic!("expected a report"),
    }
    assert!(matches!(m.step(MonitorEvent::Sent(false)), MonitorAction::AwaitTick));
    assert!(matches!(m.step(MonitorEvent::Tick), MonitorAction::ReadActiveWindow));
    assert!(matches!(m.step(MonitorEvent::Observed(None)), MonitorAction::AwaitTick));
    assert!(matches!(m.step(MonitorEvent::Shutdown), MonitorAction::Exit));
    assert_eq!(m.phase, Phase::Stopped);
    assert!(!m.running);
    assert!(matches!(m.step(MonitorEvent::Tick), MonitorAction::Exit));
    assert!(matches!(m.step(observed("a", "b")), MonitorAction::Exit));
}

#[test]
fn windows_reports_only_tracked() {
    let mut m = Monitor::new(Variant::Windows);
    assert!(matches!(m.step(MonitorEvent::Tick), MonitorAction::AwaitTick));
    assert!(matches!(m.step(MonitorEvent::Tick), MonitorAction::ReadActiveWindow));
    assert!(matches!(m.step(observed("explorer", "C:\\Windows\\explorer.exe")), MonitorAction::AwaitTick));
    assert!(matches!(m.step(MonitorEvent::Tick), MonitorAction::ReadActiveWindow));
    assert!(matches!(m.step(observed("Slack", "C:\\slack.exe")), MonitorAction::Send(_)));
    assert!(matches!(m.step(MonitorEvent::Sent(true)), MonitorAction::AwaitTick));
}

#[test]
fn daemon_reads_first_tick_and_finishes_tick_after_signal() {
    let mut m = Monitor::new(Variant::Daemon);
    assert_eq!(m.phase, Phase::Idle);
    assert!(matches!(m.step(MonitorEvent::Tick), MonitorAction::ReadActiveWindow));
    assert!(matches!(m.step(MonitorEvent::Shutdown), MonitorAction::Continue));
    assert!(m.running == false);
    assert!(matches!(m.step(observed("vim", "/usr/bin/vim")), MonitorAction::Send(_)));
    assert!(matches!(m.step(MonitorEvent::Sent(true)), MonitorAction::Exit));
    assert_eq!(m.phase, Phase::Stopped);
}

#[test]
fn daemon_signal_while_waiting_lets_one_more_tick_run() {
    let mut m = Monitor::new(Variant::Daemon);
    assert!(matches!(m.step(MonitorEvent::Shutdown), MonitorAction::AwaitTick));
    assert!(matches!(m.step(MonitorEvent::Tick), MonitorAction::ReadActiveWindow));
    assert!(matches!(m.step(MonitorEvent::Observed(None)), MonitorAction::Exit));
}

#[test]
fn unexpected_events_are_ignored() {
    let mut m = Monitor::new(Variant::Unix);
    assert!(matches!(m.step(MonitorEvent::Sent(true)), MonitorAction::Continue));
    assert!(matches!(m.step(observed("a", "b")), MonitorAction::Continue));
    assert_eq!(m.phase, Phase::Priming);
    assert!(m.running);
}

#[test]
fn signal_before_first_tick_ends_loop_after_it() {
    let mut m = Monitor::new(Variant::Unix);
    assert!(matches!(m.begin(), MonitorAction::AwaitTick));
    assert!(matches!(m.step(MonitorEvent::Shutdown), MonitorAction::Continue));
    assert_eq!(m.phase, Phase::Priming);
    assert!(!m.running);
    assert!(matches!(m.step(MonitorEvent::Tick), MonitorAction::Exit));
    assert_eq!(m.phase, Phase::Stopped);
}

#[test]
fn at_most_one_report_per_tick() {
    let mut m = Monitor::new(Variant::Daemon);
    let mut sends = 0;
    let mut ticks = 0;
    let script = vec![
        MonitorEvent::Tick,
        observed("a", "b"),
        observed("a", "b"),
        MonitorEvent::Sent(true),
        MonitorEvent::Sent(true),
        observed("c", "d"),
        MonitorEvent::Tick,
        observed("c", "d"),
    ];
    for ev in script {
        if matches!(ev, MonitorEvent::Tick) {
            ticks += 1;
        }
        if let MonitorAction::Send(_) = m.step(ev) {
            sends += 1;
        }
    }
    assert_eq!(ticks, 2);
    assert_eq!(sends, 2);
}

#[test]
fn answer_must_be_null_only_for_daemon() {
    assert!(config(Variant::Daemon).answer_must_be_null);
    assert!(!config(Variant::Unix).answer_must_be_null);
    assert!(!config(Variant::Windows).answer_must_be_null);
}

#[test]
fn daemon_accepts_only_null_answers() {
    for ok in ["null", " null", "null\n", "\t\r\n null \n"] {
        assert!(answer_accepted(Variant::Daemon, ok.as_bytes()), "{:?}", ok);
        assert_eq!(serde_json::from_slice::<()>(ok.as_bytes()).is_ok(), true);
    }
    for bad in ["", "{}", "\"ok\"", "nul", "null x", "nulll", "NULL", "\u{a0}null", "null,"] {
        assert!(!answer_accepted(Variant::Daemon, bad.as_bytes()), "{:?}", bad);
    }
    assert!(answer_accepted(Variant::Unix, b"{\"status\":\"ok\"}"));
    assert!(answer_accepted(Variant::Windows, b""));
}

#[test]
fn elden_ring_is_reported_on_windows() {
    let mut m = Monitor::new(Variant::Windows);
    assert!(matches!(m.begin(), MonitorAction::AwaitTick));
    assert!(matches!(m.step(MonitorEvent::Tick), MonitorAction::AwaitTick));
    assert!(matches!(m.step(MonitorEvent::Tick), MonitorAction::ReadActiveWindow));
    match m.step(observed("ELDEN RING\u{2122}", "C:\\Games\\eldenring.exe")) {
        MonitorAction::Send(e) => assert_eq!(e.title, "ELDEN RING\u{2122}"),
        _ => panic!("expected a report"),
    }
}

#[test]
fn flag_down_before_start_ends_after_first_tick() {
    let mut m = Monitor::new(Variant::Unix);
    m.running = false;
    assert!(matches!(m.begin(), MonitorAction::AwaitTick));
    assert!(matches!(m.step(MonitorEvent::Tick), MonitorAction::Exit));
    assert_eq!(m.phase, Phase::Stopped);
}

#[test]
fn flag_down_before_start_ends_at_once_without_priming() {
    let mut m = Monitor::new(Variant::Daemon);
    m.running = false;
    assert!(matches!(m.begin(), MonitorAction::Exit));
    assert_eq!(m.phase, Phase::Stopped);
}

#[test]
fn signal_during_report_ends_loop_after_it() {
    let mut m = Monitor::new(Variant::Unix);
    m.step(MonitorEvent::Tick);
    assert!(matches!(m.step(MonitorEvent::Tick), MonitorAction::ReadActiveWindow));
    assert!(matches!(m.step(observed("x", "y")), MonitorAction::Send(_)));
    assert!(matches!(m.step(MonitorEvent::Shutdown), MonitorAction::Continue));
    assert!(matches!(m.step(MonitorEvent::Sent(true)), MonitorAction::Exit));
    assert_eq!(m.phase, Phase::Stopped);
}
