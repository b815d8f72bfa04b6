use vstd::prelude::*;
use crate::media_path::{
    MediaPath, extension_of_name, is_container_extension, is_plain_file_name, opens_as_container,
};

verus! {

/// Full volume, in ten-thousandths of the engine's volume range.
pub const VOLUME_FULL: u64 = 10000;

/// What the engine reports about a session: times in milliseconds, volume in
/// ten-thousandths of full volume.
#[derive(Clone, Copy, Debug, PartialEq, Eq, Structural)]
pub struct PlaybackStatus {
    pub duration_ms: Option<u64>,
    pub time_ms: u64,
    pub volume: u64,
    pub playing: bool,
}

/// The status of a controller that holds no engine.
pub open spec fn idle_status() -> PlaybackStatus {
    PlaybackStatus { duration_ms: None, time_ms: 0, volume: VOLUME_FULL as u64, playing: false }
}

/// A request to a session's playback engine. The controller decides, the
/// caller that owns the engine carries the requests out in order.
#[derive(Clone, Debug, PartialEq, Eq)]
pub enum EngineCommand {
    /// Start a new engine on `path`; `container` picks the engine's own
    /// container reader over its plain-file reader.
    Open { path: String, container: bool },
    Play,
    Pause,
    Stop,
    RefreshTracks,
    Seek { position_ms: u64 },
    SetVolume { level: u64 },
    /// Stop the engine and release it.
    Shutdown,
}

/// Why a file could not be loaded.
#[derive(Clone, Copy, Debug, PartialEq, Eq, Structural)]
pub enum LoadError {
    /// The path has no Unicode text, which the engine needs.
    InvalidPath,
}

impl LoadError {
    /// What went wrong, in words.
    pub fn message(&self) -> (r: &'static str)
        ensures
            r@ == "path contains invalid UTF-8"@,
    {
        match self {
            LoadError::InvalidPath => "path contains invalid UTF-8",
        }
    }
}

/// The engine's choice of reader for a path.
pub open spec fn container_choice(path: Seq<char>, container: bool) -> bool {
    is_plain_file_name(path) ==> (container <==> match extension_of_name(path) {
        Some(e) => is_container_extension(e),
        None => false,
    })
}

/// Where a relative seek lands: the current time moved by `offset_ms`, kept
/// within zero and the duration (or the largest time when none is known).
pub open spec fn seek_by_target(status: PlaybackStatus, offset_ms: int) -> int {
    let t = status.time_ms + offset_ms;
    let upper: int = match status.duration_ms {
        Some(d) => d as int,
        None => u64::MAX as int,
    };
    if t < 0 {
        0
    } else if t > upper {
        upper
    } else {
        t
    }
}

/// `level` kept within silence and full volume.
pub open spec fn clamp_volume(level: int) -> int {
    if level < 0 {
        0
    } else if level > VOLUME_FULL {
        VOLUME_FULL as int
    } else {
        level
    }
}

/// Owns at most one playback engine for one session. The engine itself lives
/// with the caller: the controller keeps what it knows of it and queues the
/// requests it makes, in `commands`, until the caller takes them.
pub struct PlaybackController {
    pub loaded: bool,
    pub current_path: Option<String>,
    /// The engine's latest report.
    pub snapshot: PlaybackStatus,
    pub commands: Vec<EngineCommand>,
}

impl PlaybackController {
    pub open spec fn wf(&self) -> bool {
        self.loaded <==> self.current_path is Some
    }

    pub open spec fn status_spec(&self) -> PlaybackStatus {
        if self.loaded {
            self.snapshot
        } else {
            idle_status()
        }
    }

    /// The queued requests after `shutdown`.
    pub open spec fn commands_after_shutdown(&self) -> Seq<EngineCommand> {
        if self.loaded {
            self.commands@.push(EngineCommand::Shutdown)
        } else {
            self.commands@
        }
    }

    /// What `load` makes of `self` for `path`: the old engine shut down, then
    /// a new one opened when the path has text.
    pub open spec fn load_outcome(
        &self,
        after: PlaybackController,
        path: MediaPath,
        r: Result<(), LoadError>,
    ) -> bool {
        let down = self.commands_after_shutdown();
        match path {
            MediaPath::NotUnicode => {
                &&& r == Err::<(), LoadError>(LoadError::InvalidPath)
                &&& !after.loaded
                &&& after.current_path is None
                &&& after.commands@ == down
            },
            MediaPath::Unicode(p) => {
                &&& r is Ok
                &&& after.loaded
                &&& after.current_path is Some
                &&& after.current_path->0@ == p@
                &&& after.snapshot == idle_status()
                &&& after.commands@.len() == down.len() + 1
                &&& after.commands@.subrange(0, down.len() as int) == down
                &&& match after.commands@.last() {
                    EngineCommand::Open { path: q, container } => q@ == p@
                        && container_choice(p@, container),
                    _ => false,
                }
            },
        }
    }

    pub fn new() -> (r: Self)
        ensures
            r.wf(),
            !r.loaded,
            r.commands@.len() == 0,
            r.status_spec() == idle_status(),
    {
        PlaybackController {
            loaded: false,
            current_path: None,
            snapshot: PlaybackStatus { duration_ms: None, time_ms: 0, volume: VOLUME_FULL, playing: false },
            commands: Vec::new(),
        }
    }

    /// Replaces the engine with one on `path`. Any engine held before is
    /// shut down first, so that a session never has two.
    pub fn load(&mut self, path: &MediaPath) -> (r: Result<(), LoadError>)
        requires
            old(self).wf(),
        ensures
            final(self).wf(),
            old(self).load_outcome(*final(self), *path, r),
    {
        self.shutdown();
        match path {
            MediaPath::NotUnicode => Err(LoadError::InvalidPath),
            MediaPath::Unicode(p) => {
                let container = opens_as_container(p.as_str());
                let ghost before = self.commands@;
                self.commands.push(EngineCommand::Open { path: p.clone(), container });
                assert(self.commands@.subrange(0, before.len() as int) =~= before);
                self.loaded = true;
                self.current_path = Some(p.clone());
                Ok(())
            },
        }
    }

    /// The engine's latest report, or the idle status when no engine is held.
    pub fn status(&self) -> (r: PlaybackStatus)
        ensures
            r == self.status_spec(),
    {
        if self.loaded {
            self.snapshot
        } else {
            PlaybackStatus { duration_ms: None, time_ms: 0, volume: VOLUME_FULL, playing: false }
        }
    }

    /// Records what the engine reported; ignored when no engine is held.
    pub fn report_status(&mut self, report: PlaybackStatus)
        ensures
            final(self).loaded == old(self).loaded,
            final(self).current_path == old(self).current_path,
            final(self).commands == old(self).commands,
            final(self).snapshot == if old(self).loaded { report } else { old(self).snapshot },
    {
        if self.loaded {
            self.snapshot = report;
        }
    }

    /// Pauses a playing engine and starts a paused one.
    pub fn play_pause(&mut self)
        ensures
            final(self).loaded == old(self).loaded,
            final(self).current_path == old(self).current_path,
            old(self).loaded ==> {
                &&& final(self).commands@ == old(self).commands@.push(
                    if old(self).snapshot.playing { EngineCommand::Pause } else { EngineCommand::Play },
                )
                &&& final(self).snapshot == PlaybackStatus {
                    playing: !old(self).snapshot.playing,
                    ..old(self).snapshot
                }
            },
            !old(self).loaded ==> *final(self) == *old(self),
    {
        if self.loaded {
            if self.snapshot.playing {
                self.commands.push(EngineCommand::Pause);
            } else {
                self.commands.push(EngineCommand::Play);
            }
            self.snapshot.playing = !self.snapshot.playing;
        }
    }

    /// Stops the engine and reloads its tracks.
    pub fn stop(&mut self)
        ensures
            final(self).loaded == old(self).loaded,
            final(self).current_path == old(self).current_path,
            final(self).snapshot == old(self).snapshot,
            final(self).commands@ == if old(self).loaded {
                old(self).commands@.push(EngineCommand::Stop).push(EngineCommand::RefreshTracks)
            } else {
                old(self).commands@
            },
    {
        if self.loaded {
            self.commands.push(EngineCommand::Stop);
            self.commands.push(EngineCommand::RefreshTracks);
        }
    }

    /// Stops the engine and releases it. Doing it again, or without an
    /// engine, changes nothing.
    pub fn shutdown(&mut self)
        ensures
            final(self).loaded == false,
            final(self).current_path is None,
            final(self).snapshot == idle_status(),
            final(self).commands@ == old(self).commands_after_shutdown(),
    {
        if self.loaded {
            self.commands.push(EngineCommand::Shutdown);
        }
        self.loaded = false;
        self.current_path = None;
        self.snapshot = PlaybackStatus { duration_ms: None, time_ms: 0, volume: VOLUME_FULL, playing: false };
    }

    /// Same as `stop`.
    pub fn reset(&mut self)
        ensures
            final(self).loaded == old(self).loaded,
            final(self).current_path == old(self).current_path,
            final(self).snapshot == old(self).snapshot,
            final(self).commands@ == if old(self).loaded {
                old(self).commands@.push(EngineCommand::Stop).push(EngineCommand::RefreshTracks)
            } else {
                old(self).commands@
            },
    {
        self.stop();
    }

    /// Reloads the engine's tracks, which draws a new shuffle.
    pub fn shuffle(&mut self)
        ensures
            final(self).loaded == old(self).loaded,
            final(self).current_path == old(self).current_path,
            final(self).snapshot == old(self).snapshot,
            final(self).commands@ == if old(self).loaded {
                old(self).commands@.push(EngineCommand::RefreshTracks)
            } else {
                old(self).commands@
            },
    {
        if self.loaded {
            self.commands.push(EngineCommand::RefreshTracks);
        }
    }

    /// Moves playback to `position_ms`.
    pub fn seek(&mut self, position_ms: u64)
        ensures
            final(self).loaded == old(self).loaded,
            final(self).current_path == old(self).current_path,
            final(self).snapshot == old(self).snapshot,
            final(self).commands@ == if old(self).loaded {
                old(self).commands@.push(EngineCommand::Seek { position_ms })
            } else {
                old(self).commands@
            },
    {
        if self.loaded {
            self.commands.push(EngineCommand::Seek { position_ms });
        }
    }

    /// Moves playback by `offset_ms` from the current time, staying within
    /// the track.
    pub fn seek_by(&mut self, offset_ms: i64)
        ensures
            final(self).loaded == old(self).loaded,
            final(self).current_path == old(self).current_path,
            final(self).snapshot == old(self).snapshot,
            final(self).commands@ == if old(self).loaded {
                old(self).commands@.push(
                    EngineCommand::Seek {
                        position_ms: seek_by_target(old(self).status_spec(), offset_ms as int) as u64,
                    },
                )
            } else {
                old(self).commands@
            },
    {
        let status = self.status();
        let t: i128 = status.time_ms as i128 + offset_ms as i128;
        let upper: u64 = match status.duration_ms {
            Some(d) => d,
            None => u64::MAX,
        };
        let next: u64 = if t < 0 {
            0
        } else if t > upper as i128 {
            upper
        } else {
            t as u64
        };
        self.seek(next);
    }

    /// Sets the engine's volume, kept within silence and full volume.
    pub fn set_volume(&mut self, level: i64)
        ensures
            final(self).loaded == old(self).loaded,
            final(self).current_path == old(self).current_path,
            final(self).snapshot == old(self).snapshot,
            final(self).commands@ == if old(self).loaded {
                old(self).commands@.push(
                    EngineCommand::SetVolume { level: clamp_volume(level as int) as u64 },
                )
            } else {
                old(self).commands@
            },
    {
        if self.loaded {
            let clamped: u64 = if level < 0 {
                0
            } else if level as u64 > VOLUME_FULL {
                VOLUME_FULL
            } else {
                level as u64
            };
            self.commands.push(EngineCommand::SetVolume { level: clamped });
        }
    }

    pub fn is_loaded(&self) -> (r: bool)
        ensures
            r == self.loaded,
    {
        self.loaded
    }

    /// Hands over the queued engine requests, oldest first, and empties the
    /// queue.
    pub fn take_commands(&mut self) -> (r: Vec<EngineCommand>)
        ensures
            r@ == old(self).commands@,
            final(self).commands@.len() == 0,
            final(self).loaded == old(self).loaded,
            final(self).current_path == old(self).current_path,
            final(self).snapshot == old(self).snapshot,
    {
        self.commands.split_off(0)
    }
}

/// A relative seek, from any position and by any offset, lands within the
/// track: never before its start, and never past its end when the duration
/// is known.
pub proof fn lemma_seek_by_within_track(status: PlaybackStatus, offset_ms: int)
    ensures
        0 <= seek_by_target(status, offset_ms) <= u64::MAX,
        status.duration_ms matches Some(d) ==> seek_by_target(status, offset_ms) <= d,
{
}

} // verus!
