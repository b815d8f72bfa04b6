use vstd::prelude::*;
use crate::media_path::{MediaPath, display_name, is_plain_file_name};
use crate::playback::{EngineCommand, LoadError, PlaybackController, PlaybackStatus, VOLUME_FULL, idle_status};

verus! {

/// A full slider, in hundredths of a percent.
pub const PERCENT_FULL: u64 = 10000;

/// How long a value the user set is shielded from the engine's reports.
pub const OVERRIDE_MS: u64 = 250;

/// Zoom factors, in tenths.
pub const ZOOM_MIN: u64 = 5;
pub const ZOOM_MAX: u64 = 20;
pub const ZOOM_DEFAULT: u64 = 10;

pub open spec fn clamp_percent(p: int) -> int {
    if p < 0 {
        0
    } else if p > PERCENT_FULL {
        PERCENT_FULL as int
    } else {
        p
    }
}

/// The end of an override window opened at `now`.
pub open spec fn override_deadline(now: u64) -> u64 {
    if now as int + OVERRIDE_MS > u64::MAX {
        u64::MAX
    } else {
        (now + OVERRIDE_MS) as u64
    }
}

/// Whether the engine's report may replace the shown value at `now`.
pub open spec fn override_expired(deadline: Option<u64>, now: u64) -> bool {
    match deadline {
        None => true,
        Some(d) => now >= d,
    }
}

/// Where the timeline stands for a report: the time as a share of the
/// duration, in hundredths of a percent and at most full, or zero without a
/// positive duration.
pub open spec fn timeline_percent_of(status: PlaybackStatus) -> int {
    match status.duration_ms {
        Some(d) => if d > 0 {
            let q = (status.time_ms * PERCENT_FULL) / (d as int);
            if q > PERCENT_FULL {
                PERCENT_FULL as int
            } else {
                q
            }
        } else {
            0
        },
        None => 0,
    }
}

/// The volume slider for a report, in hundredths of a percent.
pub open spec fn volume_percent_of(status: PlaybackStatus) -> int {
    if status.volume > PERCENT_FULL {
        PERCENT_FULL as int
    } else {
        status.volume as int
    }
}

/// The position a timeline percent stands for in a track of `duration_ms`.
pub open spec fn timeline_seek_target(duration_ms: u64, percent: int) -> int {
    (duration_ms * percent) / (PERCENT_FULL as int)
}

fn timeline_percent_from(status: PlaybackStatus) -> (r: u64)
    ensures
        r == timeline_percent_of(status),
{
    match status.duration_ms {
        Some(d) => {
            if d == 0 {
                0
            } else if status.time_ms >= d {
                proof {
                    let t = status.time_ms as int;
                    assert(t * 10000 >= d * 10000) by (nonlinear_arith)
                        requires t >= d;
                    assert((t * 10000) / (d as int) >= 10000) by (nonlinear_arith)
                        requires t * 10000 >= d * 10000, d > 0;
                }
                PERCENT_FULL
            } else {
                let q: u128 = (status.time_ms as u128 * 10000) / (d as u128);
                proof {
                    let t = status.time_ms as int;
                    assert((t * 10000) / (d as int) <= 10000) by (nonlinear_arith)
                        requires t < d, d > 0, t >= 0;
                }
                q as u64
            }
        },
        None => 0,
    }
}

fn clamp_percent_exec(p: i64) -> (r: u64)
    ensures
        r == clamp_percent(p as int),
{
    if p < 0 {
        0
    } else if p as u64 > PERCENT_FULL {
        PERCENT_FULL
    } else {
        p as u64
    }
}

fn override_deadline_exec(now: u64) -> (r: u64)
    ensures
        r == override_deadline(now),
{
    if now > u64::MAX - OVERRIDE_MS {
        u64::MAX
    } else {
        now + OVERRIDE_MS
    }
}

/// One window's player: its controller, what the window shows, and the
/// override windows that keep the user's own input on screen while the
/// engine catches up.
pub struct SessionState {
    pub id: u64,
    pub playback: PlaybackController,
    /// Timeline position shown, in hundredths of a percent.
    pub timeline_percent: u64,
    pub duration_ms: Option<u64>,
    pub current_time_ms: u64,
    /// Volume shown, in hundredths of a percent.
    pub volume_percent: u64,
    pub playing: bool,
    pub last_error: Option<LoadError>,
    /// Zoom factor, in tenths.
    pub zoom_tenths: u64,
    pub title: String,
    pub menu_open: bool,
    pub timeline_override_until: Option<u64>,
    pub volume_override_until: Option<u64>,
}

impl SessionState {
    pub open spec fn wf(&self) -> bool {
        &&& self.playback.wf()
        &&& self.timeline_percent <= PERCENT_FULL
        &&& self.volume_percent <= PERCENT_FULL
        &&& ZOOM_MIN <= self.zoom_tenths <= ZOOM_MAX
    }

    /// The parts of a window that transport and reconciliation leave alone.
    pub open spec fn same_window(&self, other: &SessionState) -> bool {
        &&& self.id == other.id
        &&& self.title == other.title
        &&& self.last_error == other.last_error
        &&& self.zoom_tenths == other.zoom_tenths
        &&& self.menu_open == other.menu_open
    }

    /// The shown values that `load` leaves alone.
    pub open spec fn same_display(&self, other: &SessionState) -> bool {
        &&& self.timeline_percent == other.timeline_percent
        &&& self.duration_ms == other.duration_ms
        &&& self.current_time_ms == other.current_time_ms
        &&& self.volume_percent == other.volume_percent
        &&& self.playing == other.playing
        &&& self.timeline_override_until == other.timeline_override_until
        &&& self.volume_override_until == other.volume_override_until
    }

    /// What `load` makes of a session for `path`.
    pub open spec fn load_outcome(&self, after: &SessionState, path: MediaPath) -> bool {
        let r = match path {
            MediaPath::Unicode(_) => Ok::<(), LoadError>(()),
            MediaPath::NotUnicode => Err(LoadError::InvalidPath),
        };
        &&& self.playback.load_outcome(after.playback, path, r)
        &&& after.id == self.id
        &&& after.zoom_tenths == self.zoom_tenths
        &&& after.menu_open == self.menu_open
        &&& self.same_display(after)
        &&& match path {
            MediaPath::NotUnicode => {
                &&& after.last_error == Some(LoadError::InvalidPath)
                &&& after.title == self.title
            },
            MediaPath::Unicode(p) => {
                &&& after.last_error is None
                &&& (is_plain_file_name(p@) ==> after.title@ == p@)
                &&& (p@ == seq!['.', '.'] ==> after.title == self.title)
            },
        }
    }

    /// What a session shows before anything is loaded.
    pub open spec fn is_fresh(&self, id: u64) -> bool {
        &&& self.id == id
        &&& self.timeline_percent == 0
        &&& self.duration_ms is None
        &&& self.current_time_ms == 0
        &&& self.volume_percent == PERCENT_FULL
        &&& !self.playing
        &&& self.last_error is None
        &&& self.zoom_tenths == ZOOM_DEFAULT
        &&& self.title@ == "Proteus Player"@
        &&& !self.menu_open
        &&& self.timeline_override_until is None
        &&& self.volume_override_until is None
        &&& !self.playback.loaded
        &&& self.playback.commands@.len() == 0
    }

    /// What `new` gives for window `id` and `path`.
    pub open spec fn new_outcome(id: u64, path: Option<MediaPath>, r: SessionState) -> bool {
        match path {
            None => r.is_fresh(id),
            Some(p) => exists|s: SessionState| s.is_fresh(id) && s.load_outcome(&r, p),
        }
    }

    /// A session for window `id`, with `path` loaded when one is given.
    pub fn new(id: u64, path: Option<MediaPath>) -> (r: SessionState)
        ensures
            r.wf(),
            SessionState::new_outcome(id, path, r),
    {
        let mut s = SessionState {
            id,
            playback: PlaybackController::new(),
            timeline_percent: 0,
            duration_ms: None,
            current_time_ms: 0,
            volume_percent: PERCENT_FULL,
            playing: false,
            last_error: None,
            zoom_tenths: ZOOM_DEFAULT,
            title: "Proteus Player".to_owned(),
            menu_open: false,
            timeline_override_until: None,
            volume_override_until: None,
        };
        if let Some(p) = path {
            let ghost fresh = s;
            s.load(&p);
            assert(fresh.is_fresh(id) && fresh.load_outcome(&s, p));
        }
        s
    }

    /// Loads `path` into this session's controller. On success the error
    /// is cleared and the window takes the file's name; on failure the error
    /// is recorded.
    pub fn load(&mut self, path: &MediaPath)
        requires
            old(self).wf(),
        ensures
            final(self).wf(),
            old(self).load_outcome(&*final(self), *path),
    {
        let r = self.playback.load(path);
        match r {
            Ok(()) => {
                self.last_error = None;
                match path {
                    MediaPath::Unicode(p) => {
                        if let Some(name) = display_name(p.as_str()) {
                            self.title = name;
                        }
                    },
                    MediaPath::NotUnicode => {},
                }
            },
            Err(e) => {
                self.last_error = Some(e);
            },
        }
    }

    /// Same as `load`.
    pub fn load_path(&mut self, path: &MediaPath)
        requires
            old(self).wf(),
        ensures
            final(self).wf(),
            old(self).load_outcome(&*final(self), *path),
    {
        self.load(path);
    }

    /// What `set_timeline_percent(percent, now)` makes of a session.
    pub open spec fn timeline_set_outcome(&self, after: &SessionState, percent: i64, now: u64) -> bool {
        &&& after.same_window(self)
        &&& after.timeline_percent == clamp_percent(percent as int)
        &&& after.timeline_override_until == Some(override_deadline(now))
        &&& after.duration_ms == self.duration_ms
        &&& after.current_time_ms == self.current_time_ms
        &&& after.volume_percent == self.volume_percent
        &&& after.volume_override_until == self.volume_override_until
        &&& after.playing == self.playing
        &&& after.playback.loaded == self.playback.loaded
        &&& after.playback.current_path == self.playback.current_path
        &&& after.playback.snapshot == self.playback.snapshot
        &&& after.playback.commands@ == match self.duration_ms {
            Some(d) => if self.playback.loaded {
                self.playback.commands@.push(
                    EngineCommand::Seek {
                        position_ms: timeline_seek_target(d, clamp_percent(percent as int))
                            as u64,
                    },
                )
            } else {
                self.playback.commands@
            },
            None => self.playback.commands@,
        }
    }

    /// What `set_volume_percent(percent, now)` makes of a session.
    pub open spec fn volume_set_outcome(&self, after: &SessionState, percent: i64, now: u64) -> bool {
        &&& after.same_window(self)
        &&& after.volume_percent == clamp_percent(percent as int)
        &&& after.volume_override_until == Some(override_deadline(now))
        &&& after.timeline_percent == self.timeline_percent
        &&& after.timeline_override_until == self.timeline_override_until
        &&& after.duration_ms == self.duration_ms
        &&& after.current_time_ms == self.current_time_ms
        &&& after.playing == self.playing
        &&& after.playback.loaded == self.playback.loaded
        &&& after.playback.current_path == self.playback.current_path
        &&& after.playback.snapshot == self.playback.snapshot
        &&& after.playback.commands@ == if self.playback.loaded {
            self.playback.commands@.push(
                EngineCommand::SetVolume {
                    level: clamp_percent(percent as int) as u64,
                },
            )
        } else {
            self.playback.commands@
        }
    }

    /// What `refresh_status` at `now` makes of a session.
    pub open spec fn refresh_outcome(&self, after: &SessionState, now: u64) -> bool {
        let st = self.playback.status_spec();
        &&& after.same_window(self)
        &&& after.playback == self.playback
        &&& after.duration_ms == st.duration_ms
        &&& after.current_time_ms == st.time_ms
        &&& after.playing == st.playing
        &&& if override_expired(self.timeline_override_until, now) {
            &&& after.timeline_percent == timeline_percent_of(st)
            &&& after.timeline_override_until is None
        } else {
            &&& after.timeline_percent == self.timeline_percent
            &&& after.timeline_override_until == self.timeline_override_until
        }
        &&& if override_expired(self.volume_override_until, now) {
            &&& after.volume_percent == volume_percent_of(st)
            &&& after.volume_override_until is None
        } else {
            &&& after.volume_percent == self.volume_percent
            &&& after.volume_override_until == self.volume_override_until
        }
    }

    /// Brings the shown values in line with the controller's status. Time,
    /// duration and play state follow it always; each slider follows it
    /// only once its override window has passed, which also closes the
    /// window.
    pub fn refresh_status(&mut self, now: u64)
        requires
            old(self).wf(),
        ensures
            final(self).wf(),
            old(self).refresh_outcome(&*final(self), now),
    {
        let status = self.playback.status();
        self.duration_ms = status.duration_ms;
        self.current_time_ms = status.time_ms;
        self.playing = status.playing;

        let timeline_free = match self.timeline_override_until {
            None => true,
            Some(d) => now >= d,
        };
        if timeline_free {
            self.timeline_percent = timeline_percent_from(status);
            self.timeline_override_until = None;
        }

        let volume_free = match self.volume_override_until {
            None => true,
            Some(d) => now >= d,
        };
        if volume_free {
            self.volume_percent = if status.volume > PERCENT_FULL {
                PERCENT_FULL
            } else {
                status.volume
            };
            self.volume_override_until = None;
        }
    }

    /// The user moved the timeline to `percent` (hundredths, kept within the
    /// slider). The window shows it at once and for the override window; the
    /// engine seeks there when the duration is known.
    pub fn set_timeline_percent(&mut self, percent: i64, now: u64)
        requires
            old(self).wf(),
        ensures
            final(self).wf(),
            old(self).timeline_set_outcome(&*final(self), percent, now),
    {
        let p = clamp_percent_exec(percent);
        self.timeline_percent = p;
        self.timeline_override_until = Some(override_deadline_exec(now));
        if let Some(d) = self.duration_ms {
            assert((d as u128) * (p as u128) <= (u64::MAX as u128) * 10000) by (nonlinear_arith)
                requires d <= u64::MAX, p <= 10000;
            let target: u128 = (d as u128 * p as u128) / 10000;
            proof {
                let di = d as int;
                let pi = p as int;
                assert((di * pi) / 10000 <= di) by (nonlinear_arith)
                    requires 0 <= pi <= 10000, di >= 0;
                assert((di * pi) / 10000 >= 0) by (nonlinear_arith)
                    requires 0 <= pi, di >= 0;
            }
            self.playback.seek(target as u64);
        }
    }

    /// The user moved the volume slider to `percent` (hundredths, kept within
    /// the slider). The window shows it at once and for the override window;
    /// the engine takes the same level.
    pub fn set_volume_percent(&mut self, percent: i64, now: u64)
        requires
            old(self).wf(),
        ensures
            final(self).wf(),
            old(self).volume_set_outcome(&*final(self), percent, now),
    {
        let p = clamp_percent_exec(percent);
        self.volume_percent = p;
        self.volume_override_until = Some(override_deadline_exec(now));
        self.playback.set_volume(p as i64);
    }

    /// Whether no engine is loaded in this session.
    pub fn is_empty(&self) -> (r: bool)
        ensures
            r == !self.playback.loaded,
    {
        !self.playback.is_loaded()
    }

    /// Zooms in by a tenth, up to the largest zoom.
    pub fn zoom_in(&mut self)
        requires
            old(self).wf(),
        ensures
            final(self).wf(),
            final(self).zoom_tenths == if old(self).zoom_tenths + 1 > ZOOM_MAX {
                ZOOM_MAX
            } else {
                (old(self).zoom_tenths + 1) as u64
            },
            *final(self) == (SessionState { zoom_tenths: final(self).zoom_tenths, ..*old(self) }),
    {
        if self.zoom_tenths < ZOOM_MAX {
            self.zoom_tenths = self.zoom_tenths + 1;
        }
    }

    /// Zooms out by a tenth, down to the smallest zoom.
    pub fn zoom_out(&mut self)
        requires
            old(self).wf(),
        ensures
            final(self).wf(),
            final(self).zoom_tenths == if old(self).zoom_tenths < ZOOM_MIN + 1 {
                ZOOM_MIN
            } else {
                (old(self).zoom_tenths - 1) as u64
            },
            *final(self) == (SessionState { zoom_tenths: final(self).zoom_tenths, ..*old(self) }),
    {
        if self.zoom_tenths > ZOOM_MIN {
            self.zoom_tenths = self.zoom_tenths - 1;
        }
    }
}

/// A timeline position the user set stays on screen through any
/// reconciliation that comes before its override window has passed, whatever
/// the engine reports.
pub proof fn lemma_timeline_override_holds(
    before: SessionState,
    set: SessionState,
    after: SessionState,
    percent: i64,
    now: u64,
    later: u64,
)
    requires
        0 <= percent <= PERCENT_FULL,
        before.timeline_set_outcome(&set, percent, now),
        set.refresh_outcome(&after, later),
        (later as int) < now + OVERRIDE_MS,
        now + OVERRIDE_MS <= u64::MAX,
    ensures
        after.timeline_percent == percent,
{
}

/// Once the override window of a timeline position has passed, the next
/// reconciliation shows where the engine stands: the time as a share of the
/// duration, within the slider, or zero without a duration.
pub proof fn lemma_timeline_follows_engine_after_override(
    before: SessionState,
    set: SessionState,
    after: SessionState,
    percent: i64,
    now: u64,
    later: u64,
)
    requires
        before.timeline_set_outcome(&set, percent, now),
        set.refresh_outcome(&after, later),
        later >= override_deadline(now),
    ensures
        after.timeline_percent == timeline_percent_of(set.playback.status_spec()),
        0 <= after.timeline_percent <= PERCENT_FULL,
        set.playback.status_spec().duration_ms is None ==> after.timeline_percent == 0,
        after.timeline_override_until is None,
{
    let st = set.playback.status_spec();
    if let Some(d) = st.duration_ms {
        if d > 0 {
            let q = (st.time_ms * PERCENT_FULL) / (d as int);
            assert(q >= 0) by (nonlinear_arith)
                requires st.time_ms >= 0, d > 0, q == (st.time_ms * PERCENT_FULL) / (d as int);
        }
    }
}

/// Setting the volume, whatever the input, leaves the shown volume within the
/// slider and asks the engine only for a level between silence and full.
pub proof fn lemma_volume_within_bounds(before: SessionState, after: SessionState, percent: i64, now: u64)
    requires
        before.volume_set_outcome(&after, percent, now),
    ensures
        0 <= after.volume_percent <= PERCENT_FULL,
        forall|k: int|
            before.playback.commands@.len() <= k < after.playback.commands@.len() ==> match #[trigger] after.playback.commands@[k] {
                EngineCommand::SetVolume { level } => level <= VOLUME_FULL,
                _ => false,
            },
{
}

/// How a time reads on the clock: whole minutes, and the seconds within the
/// minute of the time rounded to the nearest second.
pub open spec fn clock_of(time_ms: u64) -> (int, int) {
    ((time_ms as int) / 60000, ((time_ms as int + 500) / 1000) % 60)
}

/// The minutes and seconds a window's clock shows for `time_ms`.
pub fn clock_parts(time_ms: u64) -> (r: (u64, u64))
    ensures
        (r.0 as int, r.1 as int) == clock_of(time_ms),
{
    let minutes = time_ms / 60000;
    let seconds = ((time_ms as u128 + 500) / 1000) % 60;
    (minutes, seconds as u64)
}

/// Which of the four volume icons stands for a shown volume (hundredths of a
/// percent): muted, low below 30%, medium below 80%, else high.
pub open spec fn volume_level_of(volume_percent: u64) -> u8 {
    if volume_percent == 0 {
        0
    } else if volume_percent < 3000 {
        1
    } else if volume_percent < 8000 {
        2
    } else {
        3
    }
}

pub fn volume_level(volume_percent: u64) -> (r: u8)
    ensures
        r == volume_level_of(volume_percent),
{
    if volume_percent == 0 {
        0
    } else if volume_percent < 3000 {
        1
    } else if volume_percent < 8000 {
        2
    } else {
        3
    }
}

} // verus!
