use typebridge::cli::CliArgs;
use typebridge::i18n::Lang;
use typebridge::ui::{AppModel, Drain, Phase, PollOutcome, Settings, PRESET_DELAYS_MS};
use typebridge::worker::WorkerMsg;

fn no_cli() -> CliArgs {
    CliArgs { delay_ms: None, wait_s: None, minimize: None, text: None, autostart: false }
}

fn settings() -> Settings {
    Settings::default()
}

#[test]
fn settings_defaults() {
    let s = Settings::default();
    assert_eq!(s.delay_ms, 20, "default per-key delay is 20 ms");
    assert_eq!(s.initial_delay_s, 3, "default initial delay is 3 s");
    assert!(!s.minimize_before_typing);
    assert!(!s.detect_window_change);
    assert!(s.physical_keys);
    assert_eq!(s.language, Lang::En);
    assert_eq!(PRESET_DELAYS_MS, [2, 8, 20, 60, 150]);
}

#[test]
fn settings_and_cli_are_clamped() {
    let cfg = Settings { delay_ms: 0, initial_delay_s: 99, ..settings() };
    let m = AppModel::new(cfg, no_cli());
    assert_eq!(m.delay_ms, 1);
    assert_eq!(m.initial_delay_s, 60);
    let cli = CliArgs { delay_ms: Some(5000), wait_s: Some(7), minimize: Some(true), text: Some("hi".into()), autostart: true };
    let m = AppModel::new(settings(), cli);
    assert_eq!(m.delay_ms, 2000);
    assert_eq!(m.initial_delay_s, 7);
    assert!(m.minimize);
    assert_eq!(m.text, "hi");
    assert!(m.autostart_pending);
    assert_eq!(m.phase, Phase::Idle);
}

#[test]
fn keystroke_mode_comes_from_the_settings() {
    let m = AppModel::new(Settings { physical_keys: false, ..settings() }, no_cli());
    assert!(!m.physical_keys);
    let m = AppModel::new(settings(), no_cli());
    assert!(m.physical_keys);
}

#[test]
fn autostart_needs_text() {
    let cli = CliArgs { text: Some(" \n\t ".into()), autostart: true, ..no_cli() };
    let mut m = AppModel::new(settings(), cli);
    assert!(!m.autostart_pending);
    assert!(!m.take_autostart());
    let cli = CliArgs { text: Some("x".into()), autostart: true, ..no_cli() };
    let mut m = AppModel::new(settings(), cli);
    assert!(m.take_autostart());
    assert!(!m.take_autostart());
}

#[test]
fn blank_text_is_refused() {
    let mut m = AppModel::new(Settings { language: Lang::Es, ..settings() }, no_cli());
    m.text = "\u{3000} ".to_string();
    assert!(m.start_typing().is_none());
    assert_eq!(m.phase, Phase::Error);
    assert_eq!(m.error_msg.as_deref(), Some("No hay texto para escribir."));
    assert!(!m.running);
}

#[test]
fn starting_counts_characters_and_waits() {
    let mut m = AppModel::new(Settings { initial_delay_s: 4, minimize_before_typing: true, ..settings() }, no_cli());
    m.text = "héllo🚀".to_string();
    let job = m.start_typing().unwrap();
    assert_eq!(job.text, "héllo🚀");
    assert_eq!(job.delay_ms, 20);
    assert_eq!(job.initial_delay_s, 4);
    assert_eq!(m.total, 6);
    assert_eq!(m.phase, Phase::Waiting);
    assert_eq!(m.wait_remaining_ms, 4000);
    assert!(m.minimized_for_job);
    assert!(m.running);
}

#[test]
fn messages_drive_the_status() {
    let mut m = AppModel::new(settings(), no_cli());
    m.text = "ab".to_string();
    m.start_typing();
    let mut d = Drain { terminal: None, just_paused: false };
    m.absorb(&mut d, WorkerMsg::Waiting { remaining_ms: 1500 });
    assert_eq!((m.phase, m.wait_remaining_ms), (Phase::Waiting, 1500));
    m.absorb(&mut d, WorkerMsg::Progress { typed: 1, total: 2 });
    assert_eq!((m.phase, m.typed, m.total), (Phase::Typing, 1, 2));
    assert!(m.shows_progress());
    m.absorb(&mut d, WorkerMsg::WindowChanged { typed: 1, total: 2 });
    assert_eq!(m.phase, Phase::Paused);
    assert_eq!(m.finish_drain(d, false), PollOutcome::Running { bring_forward: true });
    assert!(m.running);
    assert!(m.resume());
    assert_eq!(m.phase, Phase::Waiting);

    let mut d = Drain { terminal: None, just_paused: false };
    m.absorb(&mut d, WorkerMsg::Error("lost".to_string()));
    m.absorb(&mut d, WorkerMsg::Progress { typed: 2, total: 2 });
    assert_eq!(m.finish_drain(d, true), PollOutcome::Ended { restore_window: false });
    assert_eq!(m.phase, Phase::Error);
    assert_eq!(m.error_msg.as_deref(), Some("lost"));
    assert!(!m.running);
    assert!(!m.resume());
}

#[test]
fn a_vanished_job_counts_as_finished() {
    let mut m = AppModel::new(Settings { minimize_before_typing: true, ..settings() }, no_cli());
    m.text = "x".to_string();
    m.start_typing();
    let d = Drain { terminal: None, just_paused: false };
    assert_eq!(m.finish_drain(d, true), PollOutcome::Ended { restore_window: true });
    assert_eq!(m.phase, Phase::Finished);
    assert!(!m.minimized_for_job);
}

#[test]
fn clipboard_results() {
    let mut m = AppModel::new(settings(), no_cli());
    m.paste(Err("no text".to_string()));
    assert_eq!(m.phase, Phase::Error);
    assert_eq!(m.error_msg.as_deref(), Some("Could not read the clipboard. (no text)"));
    m.paste(Ok("pasted".to_string()));
    assert_eq!(m.text, "pasted");
    assert_eq!(m.phase, Phase::Idle);
    assert!(m.error_msg.is_none());
    m.clear();
    assert_eq!(m.text, "");
    assert_eq!(m.phase, Phase::Idle);
}
