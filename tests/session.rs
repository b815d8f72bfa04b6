use proteus_shell::media_path::MediaPath;
use proteus_shell::playback::{EngineCommand, LoadError, PlaybackStatus};
use proteus_shell::session::{clock_parts, volume_level, SessionState};

fn status(duration_ms: Option<u64>, time_ms: u64, volume: u64) -> PlaybackStatus {
    PlaybackStatus { duration_ms, time_ms, volume, playing: true }
}

fn loaded_session(duration_ms: u64, time_ms: u64) -> SessionState {
    let mut s = SessionState::new(1, Some(MediaPath::Unicode("song.prot".to_string())));
    s.playback.take_commands();
    s.playback.report_status(status(Some(duration_ms), time_ms, 10000));
    s.refresh_status(0);
    s
}

#[test]
fn fresh_session_shows_nothing_loaded() {
    let s = SessionState::new(7, None);
    assert_eq!(s.duration_ms, None);
    assert!(!s.playing);
    assert!(s.is_empty());
    assert_eq!(s.title, "Proteus Player");
    assert_eq!(s.zoom_tenths, 10);
    assert_eq!(s.volume_percent, 10000);
}

#[test]
fn scenario_load_then_drag_timeline() {
    let mut s = SessionState::new(1, None);
    assert_eq!(s.duration_ms, None);
    assert!(!s.playing);
    s.load(&MediaPath::Unicode("song.prot".to_string()));
    assert_eq!(s.last_error, None);
    assert_eq!(s.title, "song.prot");
    s.playback.take_commands();
    s.playback.report_status(status(Some(200_000), 0, 10000));
    s.refresh_status(1000);
    assert_eq!(s.duration_ms, Some(200_000));
    s.set_timeline_percent(5000, 2000);
    assert_eq!(s.playback.take_commands(), vec![EngineCommand::Seek { position_ms: 100_000 }]);
    assert_eq!(s.timeline_percent, 5000);
    s.playback.report_status(status(Some(200_000), 20_000, 10000));
    s.refresh_status(2100);
    assert_eq!(s.timeline_percent, 5000);
    s.refresh_status(2249);
    assert_eq!(s.timeline_percent, 5000);
}

#[test]
fn timeline_override_holds_for_every_percent() {
    for p in [0i64, 1, 2500, 9999, 10000] {
        let mut s = loaded_session(60_000, 30_000);
        s.set_timeline_percent(p, 500);
        s.playback.report_status(status(Some(60_000), 59_000, 10000));
        s.refresh_status(749);
        assert_eq!(s.timeline_percent, p as u64);
    }
}

#[test]
fn timeline_follows_engine_after_override() {
    let mut s = loaded_session(200_000, 0);
    s.set_timeline_percent(5000, 1000);
    s.playback.report_status(status(Some(200_000), 20_000, 10000));
    s.refresh_status(1250);
    assert_eq!(s.timeline_percent, 1000);
    assert_eq!(s.timeline_override_until, None);
}

#[test]
fn timeline_percent_formula() {
    let mut s = loaded_session(200_000, 50_000);
    assert_eq!(s.timeline_percent, 2500);
    s.playback.report_status(status(Some(3), 1, 10000));
    s.refresh_status(10);
    assert_eq!(s.timeline_percent, 3333);
    s.playback.report_status(status(Some(1000), 5000, 10000));
    s.refresh_status(20);
    assert_eq!(s.timeline_percent, 10000);
    s.playback.report_status(status(Some(0), 5000, 10000));
    s.refresh_status(30);
    assert_eq!(s.timeline_percent, 0);
}

#[test]
fn timeline_is_zero_without_duration() {
    let mut s = SessionState::new(1, None);
    s.refresh_status(0);
    assert_eq!(s.timeline_percent, 0);
    assert_eq!(s.duration_ms, None);
}

#[test]
fn timeline_without_duration_does_not_seek() {
    let mut s = SessionState::new(1, None);
    s.set_timeline_percent(4000, 0);
    assert_eq!(s.timeline_percent, 4000);
    assert!(s.playback.take_commands().is_empty());
}

#[test]
fn timeline_percent_is_clamped() {
    let mut s = loaded_session(1000, 0);
    s.set_timeline_percent(-20, 0);
    assert_eq!(s.timeline_percent, 0);
    s.set_timeline_percent(12_000, 0);
    assert_eq!(s.timeline_percent, 10000);
}

#[test]
fn volume_stays_within_bounds() {
    let mut s = loaded_session(1000, 0);
    s.set_volume_percent(-500, 0);
    assert_eq!(s.volume_percent, 0);
    s.set_volume_percent(15_000, 0);
    assert_eq!(s.volume_percent, 10000);
    s.set_volume_percent(4200, 0);
    assert_eq!(s.volume_percent, 4200);
    assert_eq!(
        s.playback.take_commands(),
        vec![
            EngineCommand::SetVolume { level: 0 },
            EngineCommand::SetVolume { level: 10000 },
            EngineCommand::SetVolume { level: 4200 },
        ]
    );
}

#[test]
fn volume_override_then_engine_value() {
    let mut s = loaded_session(1000, 0);
    s.set_volume_percent(3000, 100);
    s.playback.report_status(status(Some(1000), 0, 8000));
    s.refresh_status(200);
    assert_eq!(s.volume_percent, 3000);
    s.refresh_status(350);
    assert_eq!(s.volume_percent, 8000);
    assert_eq!(s.volume_override_until, None);
}

#[test]
fn override_deadline_saturates() {
    let mut s = loaded_session(1000, 0);
    s.set_volume_percent(100, u64::MAX - 10);
    assert_eq!(s.volume_override_until, Some(u64::MAX));
}

#[test]
fn failed_load_records_error_and_keeps_title() {
    let mut s = SessionState::new(1, None);
    s.load(&MediaPath::NotUnicode);
    assert_eq!(s.last_error, Some(LoadError::InvalidPath));
    assert_eq!(s.title, "Proteus Player");
    s.load_path(&MediaPath::Unicode("b.wav".to_string()));
    assert_eq!(s.last_error, None);
    assert_eq!(s.title, "b.wav");
}

#[test]
fn zoom_is_clamped() {
    let mut s = SessionState::new(1, None);
    for _ in 0..20 {
        s.zoom_in();
    }
    assert_eq!(s.zoom_tenths, 20);
    for _ in 0..30 {
        s.zoom_out();
    }
    assert_eq!(s.zoom_tenths, 5);
}

#[test]
fn clock_rounds_seconds_within_the_minute() {
    assert_eq!(clock_parts(0), (0, 0));
    assert_eq!(clock_parts(61_400), (1, 1));
    assert_eq!(clock_parts(61_500), (1, 2));
    assert_eq!(clock_parts(59_600), (0, 0));
    assert_eq!(clock_parts(3_725_000), (62, 5));
}

#[test]
fn volume_icon_levels() {
    assert_eq!(volume_level(0), 0);
    assert_eq!(volume_level(1), 1);
    assert_eq!(volume_level(2999), 1);
    assert_eq!(volume_level(3000), 2);
    assert_eq!(volume_level(7999), 2);
    assert_eq!(volume_level(8000), 3);
    assert_eq!(volume_level(10000), 3);
}
