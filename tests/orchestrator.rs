use proteus_shell::media_path::MediaPath;
use proteus_shell::menu::MenuAction;
use proteus_shell::orchestrator::{Effect, FilePickTarget, GlobalError, Orchestrator};
use proteus_shell::playback::{EngineCommand, PlaybackStatus};
use proteus_shell::shortcuts::Shortcut;

fn path(s: &str) -> MediaPath {
    MediaPath::Unicode(s.to_string())
}

fn opened_id(effects: &[Effect]) -> u64 {
    match effects.first() {
        Some(Effect::OpenWindow(id)) => *id,
        other => panic!("expected a new window, got {:?}", other),
    }
}

#[test]
fn open_window_focuses_new_session() {
    let mut o = Orchestrator::new(true);
    let a = opened_id(&o.open_window(None));
    let b = opened_id(&o.open_window(Some(path("x.prot"))));
    assert_ne!(a, b);
    assert_eq!(o.focused, Some(b));
    assert_eq!(o.sessions.len(), 2);
    let effects = o.open_window(Some(path("y.wav")));
    let c = opened_id(&effects);
    assert_eq!(
        effects[1..].to_vec(),
        vec![Effect::Engine(c, EngineCommand::Open { path: "y.wav".to_string(), container: false })]
    );
}

#[test]
fn scenario_open_command_targets_focused_session() {
    let mut o = Orchestrator::new(true);
    let a = opened_id(&o.open_window(None));
    let b = opened_id(&o.open_window(None));
    o.set_focused_window(a);
    assert_eq!(o.handle_menu_action(MenuAction::Open), vec![Effect::PickFile]);
    assert_eq!(o.pending_target, FilePickTarget::OpenIntoSession(a));
    let effects = o.handle_file_picked(Some(path("first.prot")));
    assert_eq!(
        effects,
        vec![Effect::Engine(a, EngineCommand::Open { path: "first.prot".to_string(), container: true })]
    );
    assert_eq!(o.pending_target, FilePickTarget::NewWindow);
    assert_eq!(o.sessions.len(), 2);

    o.handle_menu_action(MenuAction::Open);
    let effects = o.handle_file_picked(Some(path("second.prot")));
    let c = opened_id(&effects);
    assert!(c != a && c != b);
    assert_eq!(o.sessions.len(), 3);
    let session_a = o.sessions.iter().find(|s| s.id == a).unwrap();
    assert_eq!(session_a.title, "first.prot");
}

#[test]
fn scenario_closing_last_session_exits_only_where_expected() {
    let mut o = Orchestrator::new(true);
    let a = opened_id(&o.open_window(None));
    assert_eq!(o.window_closed(a), vec![Effect::Exit]);
    assert!(o.sessions.is_empty());
    assert_eq!(o.focused, None);

    let mut o = Orchestrator::new(false);
    let a = opened_id(&o.open_window(None));
    assert_eq!(o.window_closed(a), vec![]);
    assert!(o.sessions.is_empty());
}

#[test]
fn closing_one_of_two_does_not_exit() {
    let mut o = Orchestrator::new(true);
    let a = opened_id(&o.open_window(None));
    let b = opened_id(&o.open_window(Some(path("s.prot"))));
    assert_eq!(o.window_closed(b), vec![Effect::Engine(b, EngineCommand::Shutdown)]);
    assert_eq!(o.focused, Some(a));
}

#[test]
fn closing_focused_session_moves_focus() {
    let mut o = Orchestrator::new(true);
    let a = opened_id(&o.open_window(None));
    let b = opened_id(&o.open_window(None));
    assert_eq!(o.window_close_requested(b), vec![Effect::CloseWindow(b)]);
    assert_eq!(o.focused, Some(a));
    assert_eq!(o.window_close_requested(99), vec![Effect::CloseWindow(99)]);
    assert_eq!(o.sessions.len(), 1);
}

#[test]
fn focus_only_moves_to_live_sessions() {
    let mut o = Orchestrator::new(true);
    let a = opened_id(&o.open_window(None));
    o.set_focused_window(1234);
    assert_eq!(o.focused, Some(a));
}

#[test]
fn native_menu_install_claimed_once() {
    let mut o = Orchestrator::new(true);
    assert!(o.claim_native_menu_install());
    assert!(!o.claim_native_menu_install());
    assert!(o.native_menu_attempted);
    assert!(o.claim_app_icon_install());
    assert!(!o.claim_app_icon_install());
}

#[test]
fn global_error_is_recorded() {
    let mut o = Orchestrator::new(true);
    o.report_global_error(GlobalError::NativeMenu("no menu bar".to_string()));
    assert_eq!(o.global_error, Some(GlobalError::NativeMenu("no menu bar".to_string())));
}

#[test]
fn menu_zoom_applies_to_focused_session() {
    let mut o = Orchestrator::new(true);
    let a = opened_id(&o.open_window(None));
    let b = opened_id(&o.open_window(None));
    assert!(o.handle_menu_action(MenuAction::ZoomIn).is_empty());
    assert!(o.handle_menu_action(MenuAction::ZoomIn).is_empty());
    o.handle_menu_action(MenuAction::ZoomOut);
    let zoom = |o: &Orchestrator, id: u64| o.sessions.iter().find(|s| s.id == id).unwrap().zoom_tenths;
    assert_eq!(zoom(&o, b), 11);
    assert_eq!(zoom(&o, a), 10);
    assert_eq!(o.handle_menu_action(MenuAction::About), vec![Effect::ShowAbout]);
    assert_eq!(o.handle_menu_action(MenuAction::NewWindow), vec![Effect::PickFile]);
    assert_eq!(o.pending_target, FilePickTarget::NewWindow);
}

#[test]
fn cancelled_pick_consumes_target() {
    let mut o = Orchestrator::new(true);
    let a = opened_id(&o.open_window(None));
    o.start_open_command_dialog();
    assert_eq!(o.pending_target, FilePickTarget::OpenIntoSession(a));
    assert!(o.handle_file_picked(None).is_empty());
    assert_eq!(o.pending_target, FilePickTarget::NewWindow);
}

#[test]
fn pick_into_closed_session_opens_new_window() {
    let mut o = Orchestrator::new(true);
    let a = opened_id(&o.open_window(None));
    o.start_open_command_dialog();
    o.window_closed(a);
    let effects = o.handle_file_picked(Some(path("late.prot")));
    let c = opened_id(&effects);
    assert_ne!(c, a);
    assert_eq!(o.sessions.len(), 1);
}

#[test]
fn external_open_fills_empty_focused_session_first() {
    let mut o = Orchestrator::new(true);
    let a = opened_id(&o.open_window(None));
    o.schedule_startup_open_dialog(0, 500);
    let effects = o.handle_external_open_path(path("one.prot"));
    assert_eq!(
        effects,
        vec![Effect::Engine(a, EngineCommand::Open { path: "one.prot".to_string(), container: true })]
    );
    assert_eq!(o.startup_dialog_due, None);
    let effects = o.handle_external_open_path(path("two.prot"));
    assert_ne!(opened_id(&effects), a);
}

#[test]
fn startup_dialog_fires_once_when_due() {
    let mut o = Orchestrator::new(true);
    o.schedule_startup_open_dialog(100, 400);
    assert!(o.maybe_startup_open_dialog(499).is_empty());
    assert_eq!(o.maybe_startup_open_dialog(500), vec![Effect::PickFile]);
    assert!(o.maybe_startup_open_dialog(900).is_empty());
}

#[test]
fn startup_dialog_skipped_when_something_plays() {
    let mut o = Orchestrator::new(true);
    o.open_window(Some(path("a.prot")));
    o.schedule_startup_open_dialog(0, 10);
    assert!(o.maybe_startup_open_dialog(10).is_empty());
    assert_eq!(o.startup_dialog_due, None);
}

#[test]
fn tick_reconciles_then_dispatches() {
    let mut o = Orchestrator::new(true);
    let a = opened_id(&o.open_window(Some(path("a.prot"))));
    o.report_engine_status(a, PlaybackStatus { duration_ms: Some(4000), time_ms: 1000, volume: 5000, playing: true });
    let effects = o.tick(16, vec![path("b.prot")], vec![MenuAction::About]);
    let session_a = o.sessions.iter().find(|s| s.id == a).unwrap();
    assert_eq!(session_a.timeline_percent, 2500);
    assert_eq!(session_a.volume_percent, 5000);
    assert!(session_a.playing);
    let b = opened_id(&effects);
    assert_ne!(a, b);
    assert_eq!(effects.last(), Some(&Effect::ShowAbout));
    assert_eq!(effects.len(), 3);
}

#[test]
fn empty_tick_has_no_effects() {
    let mut o = Orchestrator::new(true);
    o.open_window(None);
    assert!(o.tick(16, vec![], vec![]).is_empty());
}

#[test]
fn sliders_and_transport_route_to_their_session() {
    let mut o = Orchestrator::new(true);
    let a = opened_id(&o.open_window(Some(path("a.prot"))));
    o.report_engine_status(a, PlaybackStatus { duration_ms: Some(200_000), time_ms: 0, volume: 10000, playing: false });
    o.refresh_windows(0);
    assert_eq!(
        o.timeline_changed(a, 5000, 10),
        vec![Effect::Engine(a, EngineCommand::Seek { position_ms: 100_000 })]
    );
    assert_eq!(
        o.volume_changed(a, 12_000, 10),
        vec![Effect::Engine(a, EngineCommand::SetVolume { level: 10000 })]
    );
    assert_eq!(o.play_pause_pressed(a), vec![Effect::Engine(a, EngineCommand::Play)]);
    assert_eq!(
        o.reset_pressed(a),
        vec![Effect::Engine(a, EngineCommand::Stop), Effect::Engine(a, EngineCommand::RefreshTracks)]
    );
    assert_eq!(o.shuffle_pressed(a), vec![Effect::Engine(a, EngineCommand::RefreshTracks)]);
    assert!(o.play_pause_pressed(a + 100).is_empty());
}

#[test]
fn shortcuts_act_on_their_window() {
    let mut o = Orchestrator::new(true);
    let a = opened_id(&o.open_window(Some(path("a.prot"))));
    let b = opened_id(&o.open_window(None));
    o.report_engine_status(a, PlaybackStatus { duration_ms: Some(10_000), time_ms: 8000, volume: 10000, playing: true });
    assert_eq!(
        o.handle_shortcut(a, Shortcut::SeekBy(5000)),
        vec![Effect::Engine(a, EngineCommand::Seek { position_ms: 10_000 })]
    );
    assert_eq!(o.handle_shortcut(a, Shortcut::Open), vec![Effect::PickFile]);
    assert_eq!(o.focused, Some(a));
    assert_eq!(o.pending_target, FilePickTarget::OpenIntoSession(a));
    o.handle_shortcut(b, Shortcut::ZoomOut);
    assert_eq!(o.sessions.iter().find(|s| s.id == b).unwrap().zoom_tenths, 9);
    assert_eq!(
        o.handle_shortcut(a, Shortcut::CloseWindow),
        vec![Effect::Engine(a, EngineCommand::Shutdown), Effect::CloseWindow(a)]
    );
    assert_eq!(o.focused, Some(b));
}

#[test]
fn window_menu_toggles() {
    let mut o = Orchestrator::new(true);
    let a = opened_id(&o.open_window(None));
    o.toggle_window_menu(a);
    assert!(o.sessions[0].menu_open);
    o.close_window_menu(a);
    assert!(!o.sessions[0].menu_open);
}

#[test]
fn boot_opens_file_named_at_launch() {
    let mut o = Orchestrator::new(true);
    let effects = o.boot(Some(path("song.prot")), vec![], true);
    let a = opened_id(&effects);
    assert_eq!(
        effects[1..].to_vec(),
        vec![Effect::Engine(a, EngineCommand::Open { path: "song.prot".to_string(), container: true })]
    );
    assert_eq!(o.sessions[0].title, "song.prot");
}

#[test]
fn boot_without_file_asks_or_opens_empty_window() {
    let mut o = Orchestrator::new(false);
    assert_eq!(o.boot(None, vec![], true), vec![Effect::PickFile]);
    assert!(o.sessions.is_empty());

    let mut o = Orchestrator::new(false);
    let effects = o.boot(None, vec![path("a.prot"), path("b.wav")], true);
    assert_eq!(o.sessions.len(), 2);
    assert_eq!(effects.iter().filter(|e| matches!(e, Effect::OpenWindow(_))).count(), 2);

    let mut o = Orchestrator::new(true);
    let effects = o.boot(None, vec![], false);
    opened_id(&effects);
    assert_eq!(effects.len(), 1);
    assert!(o.sessions[0].is_empty());
}
