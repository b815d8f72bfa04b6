use proteus_shell::media_path::{display_name, opens_as_container, MediaPath};
use proteus_shell::playback::{EngineCommand, LoadError, PlaybackController, PlaybackStatus};

fn path(s: &str) -> MediaPath {
    MediaPath::Unicode(s.to_string())
}

fn loaded_controller(time_ms: u64, duration_ms: Option<u64>) -> PlaybackController {
    let mut c = PlaybackController::new();
    c.load(&path("song.prot")).unwrap();
    c.take_commands();
    c.report_status(PlaybackStatus { duration_ms, time_ms, volume: 10000, playing: true });
    c
}

#[test]
fn unloaded_controller_reports_idle_status() {
    let c = PlaybackController::new();
    let st = c.status();
    assert_eq!(st, PlaybackStatus { duration_ms: None, time_ms: 0, volume: 10000, playing: false });
    assert!(!c.is_loaded());
}

#[test]
fn transport_on_unloaded_controller_does_nothing() {
    let mut c = PlaybackController::new();
    c.play_pause();
    c.stop();
    c.reset();
    c.shuffle();
    c.seek(1000);
    c.seek_by(5000);
    c.set_volume(5000);
    c.shutdown();
    assert!(c.take_commands().is_empty());
}

#[test]
fn load_opens_engine_and_reload_shuts_previous_down() {
    let mut c = PlaybackController::new();
    assert_eq!(c.load(&path("song.prot")), Ok(()));
    assert_eq!(c.load(&path("track.wav")), Ok(()));
    assert_eq!(
        c.take_commands(),
        vec![
            EngineCommand::Open { path: "song.prot".to_string(), container: true },
            EngineCommand::Shutdown,
            EngineCommand::Open { path: "track.wav".to_string(), container: false },
        ]
    );
    assert_eq!(c.current_path.as_deref(), Some("track.wav"));
    assert!(c.take_commands().is_empty());
}

#[test]
fn load_of_path_without_text_fails_and_releases_engine() {
    let mut c = PlaybackController::new();
    c.load(&path("a.mka")).unwrap();
    assert_eq!(c.load(&MediaPath::NotUnicode), Err(LoadError::InvalidPath));
    assert!(!c.is_loaded());
    assert_eq!(c.current_path, None);
    let cmds = c.take_commands();
    assert_eq!(cmds.last(), Some(&EngineCommand::Shutdown));
    assert_eq!(LoadError::InvalidPath.message(), "path contains invalid UTF-8");
}

#[test]
fn shutdown_is_idempotent() {
    let mut c = loaded_controller(0, Some(1000));
    c.shutdown();
    c.shutdown();
    assert_eq!(c.take_commands(), vec![EngineCommand::Shutdown]);
    assert_eq!(c.status().duration_ms, None);
}

#[test]
fn play_pause_follows_last_report() {
    let mut c = loaded_controller(0, Some(1000));
    c.play_pause();
    c.play_pause();
    assert_eq!(c.take_commands(), vec![EngineCommand::Pause, EngineCommand::Play]);
}

#[test]
fn stop_and_shuffle_requests() {
    let mut c = loaded_controller(0, Some(1000));
    c.stop();
    c.shuffle();
    assert_eq!(
        c.take_commands(),
        vec![EngineCommand::Stop, EngineCommand::RefreshTracks, EngineCommand::RefreshTracks]
    );
}

#[test]
fn seek_by_clamps_to_track() {
    let mut c = loaded_controller(3000, Some(10_000));
    c.seek_by(-5000);
    c.seek_by(5000);
    c.seek_by(20_000);
    assert_eq!(
        c.take_commands(),
        vec![
            EngineCommand::Seek { position_ms: 0 },
            EngineCommand::Seek { position_ms: 8000 },
            EngineCommand::Seek { position_ms: 10_000 },
        ]
    );
}

#[test]
fn seek_by_without_duration_only_clamps_below() {
    let mut c = loaded_controller(3000, None);
    c.seek_by(i64::MAX);
    c.seek_by(i64::MIN);
    assert_eq!(
        c.take_commands(),
        vec![
            EngineCommand::Seek { position_ms: 3000 + i64::MAX as u64 },
            EngineCommand::Seek { position_ms: 0 },
        ]
    );
}

#[test]
fn set_volume_clamps_level() {
    let mut c = loaded_controller(0, Some(1000));
    c.set_volume(-1);
    c.set_volume(25_000);
    c.set_volume(4200);
    assert_eq!(
        c.take_commands(),
        vec![
            EngineCommand::SetVolume { level: 0 },
            EngineCommand::SetVolume { level: 10000 },
            EngineCommand::SetVolume { level: 4200 },
        ]
    );
}

#[test]
fn container_extension_is_case_insensitive() {
    assert!(opens_as_container("song.PROT"));
    assert!(opens_as_container("mix.Mka"));
    assert!(!opens_as_container("song.wav"));
    assert!(!opens_as_container(".prot"));
    assert!(!opens_as_container("prot"));
}

#[test]
fn display_name_is_final_component() {
    assert_eq!(display_name("song.prot").as_deref(), Some("song.prot"));
    assert_eq!(display_name("music/album/song.prot").as_deref(), Some("song.prot"));
    assert_eq!(display_name(".."), None);
}
