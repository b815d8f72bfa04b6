use proteus_shell::config::{flag_enabled, parse_initial_path, should_exit_on_last_window_close};
use proteus_shell::media_path::MediaPath;
use proteus_shell::menu::{action_for_item_id, MenuAction};
use proteus_shell::open_file::{install_startup_integrations, HookState, OpenFileBridge};
use proteus_shell::shortcuts::{handle_key_press, shortcut_for_character, KeyInput, Shortcut};

fn args(v: &[&str]) -> Vec<String> {
    v.iter().map(|s| s.to_string()).collect()
}

#[test]
fn menu_item_ids_round_trip() {
    for a in [MenuAction::About, MenuAction::NewWindow, MenuAction::Open, MenuAction::ZoomIn, MenuAction::ZoomOut] {
        assert_eq!(action_for_item_id(a.item_id()), Some(a));
    }
    assert_eq!(action_for_item_id("quit"), None);
    assert_eq!(action_for_item_id(""), None);
}

#[test]
fn keys_map_to_shortcuts() {
    assert_eq!(handle_key_press(&KeyInput::Space, false), Some(Shortcut::PlayPause));
    assert_eq!(handle_key_press(&KeyInput::ArrowRight, false), Some(Shortcut::SeekBy(5000)));
    assert_eq!(handle_key_press(&KeyInput::ArrowLeft, true), Some(Shortcut::SeekBy(-5000)));
    assert_eq!(handle_key_press(&KeyInput::Character("N".to_string()), true), Some(Shortcut::NewWindow));
    assert_eq!(handle_key_press(&KeyInput::Character("o".to_string()), true), Some(Shortcut::Open));
    assert_eq!(handle_key_press(&KeyInput::Character("W".to_string()), true), Some(Shortcut::CloseWindow));
    assert_eq!(handle_key_press(&KeyInput::Character("=".to_string()), true), Some(Shortcut::ZoomIn));
    assert_eq!(handle_key_press(&KeyInput::Character("+".to_string()), true), Some(Shortcut::ZoomIn));
    assert_eq!(handle_key_press(&KeyInput::Character("-".to_string()), true), Some(Shortcut::ZoomOut));
    assert_eq!(handle_key_press(&KeyInput::Character("n".to_string()), false), None);
    assert_eq!(handle_key_press(&KeyInput::Character("x".to_string()), true), None);
    assert_eq!(handle_key_press(&KeyInput::Other, true), None);
    assert_eq!(shortcut_for_character("w"), Some(Shortcut::CloseWindow));
    assert_eq!(shortcut_for_character("W"), None);
}

#[test]
fn diagnostic_flag_words() {
    assert!(flag_enabled(Some("1")));
    assert!(flag_enabled(Some("TRUE")));
    assert!(flag_enabled(Some("Yes")));
    assert!(flag_enabled(Some("on")));
    assert!(!flag_enabled(Some("0")));
    assert!(!flag_enabled(Some("enabled")));
    assert!(!flag_enabled(None));
}

#[test]
fn initial_path_from_arguments() {
    assert_eq!(parse_initial_path(&args(&["player", "--open", "a.prot"])), Some(2));
    assert_eq!(parse_initial_path(&args(&["player", "-v", "song.prot"])), Some(2));
    assert_eq!(parse_initial_path(&args(&["player", "song.prot", "other"])), Some(1));
    assert_eq!(parse_initial_path(&args(&["player", "--open", "-dash"])), Some(2));
    assert_eq!(parse_initial_path(&args(&["player", "--open"])), None);
    assert_eq!(parse_initial_path(&args(&["player", "-x"])), None);
    assert_eq!(parse_initial_path(&args(&["player"])), None);
}

#[test]
fn exit_policy() {
    assert!(should_exit_on_last_window_close(false));
    assert!(!should_exit_on_last_window_close(true));
}

#[test]
fn open_file_hook_installs_once() {
    let mut bridge = OpenFileBridge::new();
    assert!(install_startup_integrations(&mut bridge));
    assert!(!bridge.claim_install());
    bridge.finish_install(Some("no runtime".to_string()));
    assert_eq!(bridge.hook, HookState::Failed("no runtime".to_string()));
    assert_eq!(bridge.install_error(), Some("no runtime".to_string()));
    assert!(!bridge.claim_install());
    bridge.finish_install(None);
    assert_eq!(bridge.install_error(), Some("no runtime".to_string()));
}

#[test]
fn open_file_queue_drains() {
    let mut bridge = OpenFileBridge::new();
    bridge.queue_opened_file(MediaPath::Unicode("a.prot".to_string()));
    bridge.queue_opened_file(MediaPath::NotUnicode);
    assert_eq!(
        bridge.take_opened_files(),
        vec![MediaPath::Unicode("a.prot".to_string()), MediaPath::NotUnicode]
    );
    assert!(bridge.take_opened_files().is_empty());
    assert!(bridge.claim_install());
    bridge.finish_install(None);
    assert_eq!(bridge.hook, HookState::Installed);
    assert_eq!(bridge.install_error(), None);
}
