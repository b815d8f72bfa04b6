use vstd::prelude::*;
use crate::media_path::MediaPath;
use crate::menu::MenuAction;
use crate::shortcuts::Shortcut;
use crate::playback::{EngineCommand, PlaybackController, PlaybackStatus, seek_by_target};
use crate::session::{
    SessionState, ZOOM_MAX, ZOOM_MIN, clamp_percent, override_deadline, timeline_seek_target,
};

verus! {

/// Where the next picked file goes. Consumed by the pick it was set for.
#[derive(Clone, Copy, Debug, PartialEq, Eq, Structural)]
pub enum FilePickTarget {
    NewWindow,
    OpenIntoSession(u64),
}

/// A failure that concerns the whole application rather than one window.
/// None of them is fatal.
#[derive(Clone, Debug, PartialEq, Eq)]
pub enum GlobalError {
    NativeMenu(String),
    AppIcon(String),
    OpenFileHook(String),
}

/// Work the orchestrator hands to its caller, to be carried out in order.
#[derive(Clone, Debug, PartialEq, Eq)]
pub enum Effect {
    /// Create the window of the new session with this id.
    OpenWindow(u64),
    /// Close the window of this session.
    CloseWindow(u64),
    /// Show the file-pick dialog; its result comes back through
    /// `handle_file_picked`.
    PickFile,
    ShowAbout,
    /// Pass a request to the engine of this session.
    Engine(u64, EngineCommand),
    /// End the process.
    Exit,
}

pub open spec fn engine_effects(id: u64, cmds: Seq<EngineCommand>) -> Seq<Effect> {
    cmds.map_values(|c: EngineCommand| Effect::Engine(id, c))
}

/// `after` is `before` with its queued engine requests handed over.
pub open spec fn drained(before: SessionState, after: SessionState) -> bool {
    &&& after.same_window(&before)
    &&& after.same_display(&before)
    &&& after.playback.loaded == before.playback.loaded
    &&& after.playback.current_path == before.playback.current_path
    &&& after.playback.snapshot == before.playback.snapshot
    &&& after.playback.commands@.len() == 0
    &&& after.wf() == before.wf()
}

/// `after` is `before` after a transport request: the shown values and the
/// window stay, the engine's snapshot becomes `snapshot`, and the requests
/// `produced` were handed over as `effects`.
pub open spec fn transport_outcome(
    before: SessionState,
    after: SessionState,
    snapshot: PlaybackStatus,
    produced: Seq<EngineCommand>,
    effects: Seq<Effect>,
) -> bool {
    &&& after.same_window(&before)
    &&& after.same_display(&before)
    &&& after.playback.loaded == before.playback.loaded
    &&& after.playback.current_path == before.playback.current_path
    &&& after.playback.snapshot == snapshot
    &&& after.playback.commands@.len() == 0
    &&& effects == engine_effects(before.id, produced)
}

/// `after` is `before` once the user set the timeline to `percent` at `now`.
pub open spec fn timeline_outcome(
    before: SessionState,
    after: SessionState,
    percent: int,
    now: u64,
    effects: Seq<Effect>,
) -> bool {
    let p = clamp_percent(percent);
    &&& after.same_window(&before)
    &&& after.timeline_percent == p
    &&& after.timeline_override_until == Some(override_deadline(now))
    &&& after.duration_ms == before.duration_ms
    &&& after.current_time_ms == before.current_time_ms
    &&& after.volume_percent == before.volume_percent
    &&& after.volume_override_until == before.volume_override_until
    &&& after.playing == before.playing
    &&& after.playback.loaded == before.playback.loaded
    &&& after.playback.current_path == before.playback.current_path
    &&& after.playback.snapshot == before.playback.snapshot
    &&& after.playback.commands@.len() == 0
    &&& effects == engine_effects(
        before.id,
        match before.duration_ms {
            Some(d) => if before.playback.loaded {
                seq![EngineCommand::Seek { position_ms: timeline_seek_target(d, p) as u64 }]
            } else {
                seq![]
            },
            None => seq![],
        },
    )
}

/// `after` is `before` once the user set the volume to `percent` at `now`.
pub open spec fn volume_outcome(
    before: SessionState,
    after: SessionState,
    percent: int,
    now: u64,
    effects: Seq<Effect>,
) -> bool {
    let p = clamp_percent(percent);
    &&& after.same_window(&before)
    &&& after.volume_percent == p
    &&& after.volume_override_until == Some(override_deadline(now))
    &&& after.timeline_percent == before.timeline_percent
    &&& after.timeline_override_until == before.timeline_override_until
    &&& after.duration_ms == before.duration_ms
    &&& after.current_time_ms == before.current_time_ms
    &&& after.playing == before.playing
    &&& after.playback.loaded == before.playback.loaded
    &&& after.playback.current_path == before.playback.current_path
    &&& after.playback.snapshot == before.playback.snapshot
    &&& after.playback.commands@.len() == 0
    &&& effects == engine_effects(
        before.id,
        if before.playback.loaded {
            seq![EngineCommand::SetVolume { level: p as u64 }]
        } else {
            seq![]
        },
    )
}

/// The zoom after one step in (`inward`) or out.
pub open spec fn zoom_step(zoom: u64, inward: bool) -> u64 {
    if inward {
        if zoom + 1 > ZOOM_MAX { ZOOM_MAX } else { (zoom + 1) as u64 }
    } else {
        if zoom < ZOOM_MIN + 1 { ZOOM_MIN } else { (zoom - 1) as u64 }
    }
}

/// The live sessions and everything that routes work to them.
pub struct Orchestrator {
    pub sessions: Vec<SessionState>,
    pub focused: Option<u64>,
    pub native_menu_attempted: bool,
    pub app_icon_attempted: bool,
    pub global_error: Option<GlobalError>,
    pub pending_target: FilePickTarget,
    /// When the start-up file dialog is due, if one is scheduled.
    pub startup_dialog_due: Option<u64>,
    /// The id the next session gets; ids are never reused.
    pub next_id: u64,
    /// Whether closing the last window ends the process.
    pub exit_on_last_close: bool,
}

impl Orchestrator {
    pub open spec fn has(&self, id: u64) -> bool {
        exists|i: int| 0 <= i < self.sessions@.len() && #[trigger] self.sessions@[i].id == id
    }

    pub open spec fn registry_ok(&self) -> bool {
        &&& forall|i: int|
            0 <= i < self.sessions@.len() ==> (#[trigger] self.sessions@[i]).wf()
                && self.sessions@[i].id < self.next_id
        &&& forall|i: int, j: int|
            0 <= i < j < self.sessions@.len() ==> (#[trigger] self.sessions@[i]).id
                != (#[trigger] self.sessions@[j]).id
        &&& (self.focused is None <==> self.sessions@.len() == 0)
        &&& (self.focused matches Some(f) ==> self.has(f))
    }

    /// No session holds engine requests that were not handed over.
    pub open spec fn quiet(&self) -> bool {
        forall|i: int|
            0 <= i < self.sessions@.len() ==> (#[trigger] self.sessions@[i]).playback.commands@.len()
                == 0
    }

    pub open spec fn wf(&self) -> bool {
        self.registry_ok() && self.quiet()
    }

    /// The one-shot flags, the global error and the exit policy are the
    /// same.
    pub open spec fn same_flags(&self, other: &Orchestrator) -> bool {
        &&& self.native_menu_attempted == other.native_menu_attempted
        &&& self.app_icon_attempted == other.app_icon_attempted
        &&& self.global_error == other.global_error
        &&& self.exit_on_last_close == other.exit_on_last_close
    }

    /// Everything but the sessions and the focus is the same.
    pub open spec fn same_settings(&self, other: &Orchestrator) -> bool {
        &&& self.same_flags(other)
        &&& self.pending_target == other.pending_target
        &&& self.startup_dialog_due == other.startup_dialog_due
        &&& self.next_id == other.next_id
    }

    /// What opening a window for `path` makes of `self`, and the effects.
    pub open spec fn open_outcome(
        &self,
        after: &Orchestrator,
        path: Option<MediaPath>,
        effects: Seq<Effect>,
    ) -> bool {
        let id = self.next_id;
        let n = self.sessions@.len();
        &&& after.sessions@.len() == n + 1
        &&& after.sessions@.subrange(0, n as int) == self.sessions@
        &&& after.sessions@[n as int].id == id
        &&& after.focused == Some(id)
        &&& after.next_id == id + 1
        &&& after.same_flags(self)
        &&& exists|m: SessionState|
            SessionState::new_outcome(id, path, m) && drained(m, after.sessions@[n as int])
                && effects == seq![Effect::OpenWindow(id)] + engine_effects(id, m.playback.commands@)
    }

    /// What closing the session at index `i` makes of `self`, and the
    /// effects.
    pub open spec fn close_outcome(&self, after: &Orchestrator, i: int, effects: Seq<Effect>) -> bool {
        let id = self.sessions@[i].id;
        &&& after.sessions@ == self.sessions@.remove(i)
        &&& effects == if self.sessions@[i].playback.loaded {
            seq![Effect::Engine(id, EngineCommand::Shutdown)]
        } else {
            seq![]
        }
        &&& after.focused == if self.focused == Some(id) {
            if after.sessions@.len() > 0 {
                Some(after.sessions@[0].id)
            } else {
                None
            }
        } else {
            self.focused
        }
        &&& after.same_settings(self)
    }

    /// What pressing play/pause in session `id` makes of `self`.
    pub open spec fn play_pause_outcome(&self, after: &Orchestrator, id: u64, effects: Seq<Effect>) -> bool {
        &&& self.only_session_changed(after, id, effects)
        &&& forall|j: int|
            0 <= j < self.sessions@.len() && #[trigger] self.sessions@[j].id == id ==> {
                let b = self.sessions@[j];
                transport_outcome(
                    b,
                    after.sessions@[j],
                    if b.playback.loaded {
                        PlaybackStatus { playing: !b.playback.snapshot.playing, ..b.playback.snapshot }
                    } else {
                        b.playback.snapshot
                    },
                    if b.playback.loaded {
                        seq![if b.playback.snapshot.playing { EngineCommand::Pause } else { EngineCommand::Play }]
                    } else {
                        seq![]
                    },
                    effects,
                )
            }
    }

    /// What seeking session `id` by `offset_ms` makes of `self`.
    pub open spec fn seek_by_outcome(&self, after: &Orchestrator, id: u64, offset_ms: i64, effects: Seq<Effect>) -> bool {
        &&& self.only_session_changed(after, id, effects)
        &&& forall|j: int|
            0 <= j < self.sessions@.len() && #[trigger] self.sessions@[j].id == id ==> {
                let b = self.sessions@[j];
                transport_outcome(
                    b,
                    after.sessions@[j],
                    b.playback.snapshot,
                    if b.playback.loaded {
                        seq![EngineCommand::Seek {
                            position_ms: seek_by_target(b.playback.status_spec(), offset_ms as int) as u64,
                        }]
                    } else {
                        seq![]
                    },
                    effects,
                )
            }
    }

    /// What zooming session `id` one step makes of `self`.
    pub open spec fn zoom_outcome(&self, after: &Orchestrator, id: u64, inward: bool) -> bool {
        &&& self.only_session_changed(after, id, seq![])
        &&& forall|j: int|
            0 <= j < self.sessions@.len() && #[trigger] self.sessions@[j].id == id
                ==> after.sessions@[j] == (SessionState {
                    zoom_tenths: zoom_step(self.sessions@[j].zoom_tenths, inward),
                    ..self.sessions@[j]
                })
    }

    /// The target an Open command sets: the focused session, or a new
    /// window when nothing has the focus.
    pub open spec fn open_target(&self) -> FilePickTarget {
        match self.focused {
            Some(f) => FilePickTarget::OpenIntoSession(f),
            None => FilePickTarget::NewWindow,
        }
    }

    /// Only the pending pick target changed, to `target`, and a file dialog
    /// was asked for.
    pub open spec fn dialog_outcome(&self, after: &Orchestrator, target: FilePickTarget, effects: Seq<Effect>) -> bool {
        &&& after.sessions == self.sessions
        &&& after.focused == self.focused
        &&& after.same_flags(self)
        &&& after.startup_dialog_due == self.startup_dialog_due
        &&& after.next_id == self.next_id
        &&& after.pending_target == target
        &&& effects == seq![Effect::PickFile]
    }

    /// What loading `path` into the live session `id` makes of `self`.
    pub open spec fn load_into_outcome(&self, after: &Orchestrator, id: u64, path: MediaPath, effects: Seq<Effect>) -> bool {
        &&& after.focused == self.focused
        &&& after.same_flags(self)
        &&& after.next_id == self.next_id
        &&& after.sessions@.len() == self.sessions@.len()
        &&& forall|j: int|
            0 <= j < self.sessions@.len() && self.sessions@[j].id != id ==> after.sessions@[j]
                == self.sessions@[j]
        &&& forall|j: int|
            0 <= j < self.sessions@.len() && #[trigger] self.sessions@[j].id == id ==> exists|m: SessionState|
                self.sessions@[j].load_outcome(&m, path) && drained(m, after.sessions@[j])
                    && effects == engine_effects(id, m.playback.commands@)
    }

    /// What a file request for `path` makes of `self`: it goes into session
    /// `into` when that session is live and empty, else into a new window.
    pub open spec fn route_outcome(
        &self,
        after: &Orchestrator,
        into: Option<u64>,
        path: MediaPath,
        effects: Seq<Effect>,
    ) -> bool {
        if into is Some && self.has(into->0) && self.session_is_empty(into->0) {
            self.load_into_outcome(after, into->0, path, effects)
        } else if self.next_id < u64::MAX {
            self.open_outcome(after, Some(path), effects)
        } else {
            after.sessions == self.sessions && after.focused == self.focused && after.same_flags(self)
                && after.next_id == self.next_id && effects.len() == 0
        }
    }

    /// Whether the live session `id` has no engine loaded.
    pub open spec fn session_is_empty(&self, id: u64) -> bool {
        forall|j: int|
            0 <= j < self.sessions@.len() && #[trigger] self.sessions@[j].id == id
                ==> !self.sessions@[j].playback.loaded
    }

    /// What a close request for the window of session `id` makes of `self`.
    pub open spec fn close_request_outcome(&self, after: &Orchestrator, id: u64, effects: Seq<Effect>) -> bool {
        &&& !self.has(id) ==> *after == *self && effects == seq![Effect::CloseWindow(id)]
        &&& forall|i: int|
            0 <= i < self.sessions@.len() && self.sessions@[i].id == id ==> exists|e: Seq<Effect>|
                self.close_outcome(after, i, e) && effects == e.push(Effect::CloseWindow(id))
    }

    /// What a platform request to open `path` makes of `self`.
    pub open spec fn external_open_outcome(&self, after: &Orchestrator, path: MediaPath, effects: Seq<Effect>) -> bool {
        &&& after.startup_dialog_due is None
        &&& after.pending_target == self.pending_target
        &&& (Orchestrator { startup_dialog_due: None, ..*self }).route_outcome(after, self.focused, path, effects)
    }

    /// What a native menu action makes of `self`.
    pub open spec fn menu_action_outcome(&self, after: &Orchestrator, action: MenuAction, effects: Seq<Effect>) -> bool {
        match action {
            MenuAction::About => *after == *self && effects == seq![Effect::ShowAbout],
            MenuAction::NewWindow => self.dialog_outcome(after, FilePickTarget::NewWindow, effects),
            MenuAction::Open => self.dialog_outcome(after, self.open_target(), effects),
            MenuAction::ZoomIn => effects.len() == 0 && match self.focused {
                Some(f) => self.zoom_outcome(after, f, true),
                None => *after == *self,
            },
            MenuAction::ZoomOut => effects.len() == 0 && match self.focused {
                Some(f) => self.zoom_outcome(after, f, false),
                None => *after == *self,
            },
        }
    }

    /// What reconciling every session at `now` makes of `self`.
    pub open spec fn refresh_all_outcome(&self, after: &Orchestrator, now: u64) -> bool {
        &&& after.focused == self.focused
        &&& after.same_settings(self)
        &&& after.sessions@.len() == self.sessions@.len()
        &&& forall|j: int|
            0 <= j < self.sessions@.len() ==> (#[trigger] self.sessions@[j]).refresh_outcome(
                &after.sessions@[j],
                now,
            )
    }

    /// What the shortcut `shortcut`, pressed in the window of session `id`,
    /// makes of `self`. The shortcut acts on that window, which takes the
    /// focus when it opens a dialog.
    pub open spec fn shortcut_outcome(&self, after: &Orchestrator, id: u64, shortcut: Shortcut, effects: Seq<Effect>) -> bool {
        let focused = Orchestrator { focused: if self.has(id) { Some(id) } else { self.focused }, ..*self };
        match shortcut {
            Shortcut::PlayPause => self.play_pause_outcome(after, id, effects),
            Shortcut::SeekBy(offset) => self.seek_by_outcome(after, id, offset, effects),
            Shortcut::NewWindow => focused.dialog_outcome(after, FilePickTarget::NewWindow, effects),
            Shortcut::Open => focused.dialog_outcome(after, focused.open_target(), effects),
            Shortcut::CloseWindow => self.close_request_outcome(after, id, effects),
            Shortcut::ZoomIn => self.zoom_outcome(after, id, true) && effects.len() == 0,
            Shortcut::ZoomOut => self.zoom_outcome(after, id, false) && effects.len() == 0,
        }
    }

    /// What dispatching `paths` one after another makes of `self`.
    pub open spec fn paths_outcome(&self, paths: Seq<MediaPath>, after: &Orchestrator, effects: Seq<Effect>) -> bool
        decreases paths.len(),
    {
        if paths.len() == 0 {
            *after == *self && effects.len() == 0
        } else {
            exists|mid: Orchestrator, e1: Seq<Effect>, e2: Seq<Effect>|
                self.paths_outcome(paths.drop_last(), &mid, e1) && mid.external_open_outcome(after, paths.last(), e2)
                    && effects == e1 + e2
        }
    }

    /// What carrying out `actions` one after another makes of `self`.
    pub open spec fn actions_outcome(&self, actions: Seq<MenuAction>, after: &Orchestrator, effects: Seq<Effect>) -> bool
        decreases actions.len(),
    {
        if actions.len() == 0 {
            *after == *self && effects.len() == 0
        } else {
            exists|mid: Orchestrator, e1: Seq<Effect>, e2: Seq<Effect>|
                self.actions_outcome(actions.drop_last(), &mid, e1) && mid.menu_action_outcome(after, actions.last(), e2)
                    && effects == e1 + e2
        }
    }

    /// The state once the native menu installation has been claimed.
    pub open spec fn menu_claimed(&self) -> Orchestrator {
        Orchestrator { native_menu_attempted: true, ..*self }
    }

    pub fn new(exit_on_last_close: bool) -> (r: Orchestrator)
        ensures
            r.wf(),
            r.sessions@.len() == 0,
            r.focused is None,
            !r.native_menu_attempted,
            !r.app_icon_attempted,
            r.global_error is None,
            r.pending_target == FilePickTarget::NewWindow,
            r.startup_dialog_due is None,
            r.exit_on_last_close == exit_on_last_close,
    {
        Orchestrator {
            sessions: Vec::new(),
            focused: None,
            native_menu_attempted: false,
            app_icon_attempted: false,
            global_error: None,
            pending_target: FilePickTarget::NewWindow,
            startup_dialog_due: None,
            next_id: 0,
            exit_on_last_close,
        }
    }

    /// The index of session `id`.
    fn find(&self, id: u64) -> (r: Option<usize>)
        requires
            self.registry_ok(),
        ensures
            match r {
                Some(i) => i < self.sessions@.len() && self.sessions@[i as int].id == id,
                None => !self.has(id),
            },
    {
        let mut i: usize = 0;
        while i < self.sessions.len()
            invariant
                i <= self.sessions@.len(),
                forall|j: int| 0 <= j < i ==> (#[trigger] self.sessions@[j]).id != id,
            decreases self.sessions@.len() - i,
        {
            if self.sessions[i].id == id {
                return Some(i);
            }
            i = i + 1;
        }
        None
    }

    /// Moves the queued engine requests of the session at `i` onto
    /// `effects`.
    fn drain(&mut self, i: usize, effects: &mut Vec<Effect>)
        requires
            i < old(self).sessions@.len(),
        ensures
            final(self).sessions@.len() == old(self).sessions@.len(),
            forall|j: int|
                0 <= j < old(self).sessions@.len() && j != i ==> final(self).sessions@[j]
                    == old(self).sessions@[j],
            drained(old(self).sessions@[i as int], final(self).sessions@[i as int]),
            final(effects)@ == old(effects)@ + engine_effects(
                old(self).sessions@[i as int].id,
                old(self).sessions@[i as int].playback.commands@,
            ),
            final(self).focused == old(self).focused,
            final(self).same_settings(&*old(self)),
    {
        let id = self.sessions[i].id;
        let mut cmds = self.sessions[i].playback.take_commands();
        let ghost all = cmds@;
        let ghost start = effects@;
        while cmds.len() > 0
            invariant
                cmds@.len() <= all.len(),
                cmds@ == all.subrange(all.len() - cmds@.len(), all.len() as int),
                effects@ == start + engine_effects(id, all.subrange(0, all.len() - cmds@.len())),
            decreases cmds@.len(),
        {
            let ghost done = all.len() - cmds@.len();
            let c = cmds.remove(0);
            assert(c == all[done]);
            effects.push(Effect::Engine(id, c));
            assert(all.subrange(0, done + 1) =~= all.subrange(0, done).push(c));
            assert(engine_effects(id, all.subrange(0, done + 1)) =~= engine_effects(
                id,
                all.subrange(0, done),
            ).push(Effect::Engine(id, c)));
            assert(cmds@ =~= all.subrange(all.len() - cmds@.len(), all.len() as int));
        }
        assert(all.subrange(0, all.len() as int) =~= all);
    }
    /// Opens a session, with `path` loaded when one is given, and focuses
    /// it. The caller creates its window. When no id is left nothing
    /// happens.
    pub fn open_window(&mut self, path: Option<MediaPath>) -> (effects: Vec<Effect>)
        requires
            old(self).wf(),
        ensures
            final(self).wf(),
            old(self).next_id == u64::MAX ==> *final(self) == *old(self) && effects@.len() == 0,
            old(self).next_id < u64::MAX ==> old(self).open_outcome(&*final(self), path, effects@),
            final(self).pending_target == old(self).pending_target,
            final(self).startup_dialog_due == old(self).startup_dialog_due,
    {
        if self.next_id == u64::MAX {
            return Vec::new();
        }
        let id = self.next_id;
        let s = SessionState::new(id, path);
        let ghost m = s;
        let ghost before = self.sessions@;
        self.sessions.push(s);
        self.next_id = id + 1;
        self.focused = Some(id);
        let mut effects: Vec<Effect> = Vec::new();
        effects.push(Effect::OpenWindow(id));
        let n = self.sessions.len() - 1;
        self.drain(n, &mut effects);
        proof {
            assert(self.sessions@.subrange(0, n as int) =~= before);
            assert(self.sessions@[n as int].id == id);
            assert(self.has(id));
            assert(effects@ =~= seq![Effect::OpenWindow(id)] + engine_effects(id, m.playback.commands@));
            assert(SessionState::new_outcome(id, path, m) && drained(m, self.sessions@[n as int]));
        }
        effects
    }

    /// Closes session `id`: its engine is shut down first, then the session
    /// leaves the registry. When it had the focus, the focus moves to a
    /// remaining session, or to none.
    pub fn close_window_state(&mut self, id: u64) -> (effects: Vec<Effect>)
        requires
            old(self).wf(),
        ensures
            final(self).wf(),
            !old(self).has(id) ==> *final(self) == *old(self) && effects@.len() == 0,
            forall|i: int|
                0 <= i < old(self).sessions@.len() && old(self).sessions@[i].id == id
                    ==> old(self).close_outcome(&*final(self), i, effects@),
    {
        match self.find(id) {
            None => Vec::new(),
            Some(i) => {
                let ghost old_self = *self;
                let mut effects: Vec<Effect> = Vec::new();
                self.sessions[i].playback.shutdown();
                self.drain(i, &mut effects);
                let _closed = self.sessions.remove(i);
                let ghost kept = self.focused;
                if self.focused == Some(id) {
                    self.focused = if self.sessions.len() > 0 {
                        Some(self.sessions[0].id)
                    } else {
                        None
                    };
                }
                proof {
                    assert(self.sessions@ =~= old_self.sessions@.remove(i as int));
                    assert forall|a: int, b: int|
                        0 <= a < b < self.sessions@.len() implies (#[trigger] self.sessions@[a]).id
                            != (#[trigger] self.sessions@[b]).id by {
                        let a0 = if a < i { a } else { a + 1 };
                        let b0 = if b < i { b } else { b + 1 };
                        assert(old_self.sessions@[a0].id != old_self.sessions@[b0].id);
                    }
                    assert forall|a: int| 0 <= a < self.sessions@.len() implies
                        (#[trigger] self.sessions@[a]).wf() && self.sessions@[a].id < self.next_id
                        && self.sessions@[a].playback.commands@.len() == 0 by {
                        let a0 = if a < i { a } else { a + 1 };
                        assert(self.sessions@[a] == old_self.sessions@[a0]);
                    }
                    if self.sessions@.len() > 0 {
                        assert(self.has(self.sessions@[0].id));
                    }
                    if kept != Some(id) && kept is Some {
                        let f = kept->0;
                        let j = choose|j: int| 0 <= j < old_self.sessions@.len()
                            && #[trigger] old_self.sessions@[j].id == f;
                        assert(j != i);
                        let j1 = if j < i { j } else { j - 1 };
                        assert(self.sessions@[j1].id == f);
                        assert(self.has(f));
                    }
                    assert forall|k: int|
                        0 <= k < old_self.sessions@.len() && old_self.sessions@[k].id == id
                            implies k == i by {
                        if k != i {
                            if k < i {
                                assert(old_self.sessions@[k].id != old_self.sessions@[i as int].id);
                            } else {
                                assert(old_self.sessions@[i as int].id != old_self.sessions@[k].id);
                            }
                        }
                    }
                    assert(effects@ =~= if old_self.sessions@[i as int].playback.loaded {
                        seq![Effect::Engine(id, EngineCommand::Shutdown)]
                    } else {
                        seq![]
                    });
                }
                effects
            },
        }
    }

    /// Gives the focus to session `id`, when it is live.
    pub fn set_focused_window(&mut self, id: u64)
        requires
            old(self).wf(),
        ensures
            final(self).wf(),
            final(self).sessions == old(self).sessions,
            final(self).same_settings(&*old(self)),
            final(self).focused == if old(self).has(id) { Some(id) } else { old(self).focused },
    {
        if let Some(_) = self.find(id) {
            self.focused = Some(id);
        }
    }
    /// Only session `id` may have changed, and nothing happened when there
    /// is no such session.
    pub open spec fn only_session_changed(&self, after: &Orchestrator, id: u64, effects: Seq<Effect>) -> bool {
        &&& after.focused == self.focused
        &&& after.same_settings(self)
        &&& after.sessions@.len() == self.sessions@.len()
        &&& forall|j: int|
            0 <= j < self.sessions@.len() && self.sessions@[j].id != id ==> after.sessions@[j]
                == self.sessions@[j]
        &&& (!self.has(id) ==> after.sessions == self.sessions && effects.len() == 0)
    }

    pub proof fn lemma_replace_session(a: Orchestrator, b: Orchestrator, i: int)
        requires
            a.wf(),
            0 <= i < a.sessions@.len(),
            b.sessions@.len() == a.sessions@.len(),
            forall|j: int| 0 <= j < a.sessions@.len() && j != i ==> b.sessions@[j] == a.sessions@[j],
            b.sessions@[i].id == a.sessions@[i].id,
            b.sessions@[i].wf(),
            b.sessions@[i].playback.commands@.len() == 0,
            b.focused == a.focused,
            b.next_id == a.next_id,
        ensures
            b.wf(),
            forall|j: int|
                0 <= j < a.sessions@.len() && a.sessions@[j].id == a.sessions@[i].id ==> j == i,
            forall|j: int|
                0 <= j < a.sessions@.len() && j != i ==> a.sessions@[j].id != a.sessions@[i].id,
    {
        assert forall|x: int, y: int|
            0 <= x < y < b.sessions@.len() implies (#[trigger] b.sessions@[x]).id
                != (#[trigger] b.sessions@[y]).id by {
            assert(a.sessions@[x].id != a.sessions@[y].id);
        }
        assert forall|x: int| 0 <= x < b.sessions@.len() implies
            (#[trigger] b.sessions@[x]).wf() && b.sessions@[x].id < b.next_id
            && b.sessions@[x].playback.commands@.len() == 0 by {
            if x != i {
                assert(b.sessions@[x] == a.sessions@[x]);
            }
        }
        if b.focused is Some {
            let f = b.focused->0;
            let j = choose|j: int| 0 <= j < a.sessions@.len() && #[trigger] a.sessions@[j].id == f;
            assert(b.sessions@[j].id == f);
        }
        assert forall|j: int|
            0 <= j < a.sessions@.len() && j != i implies a.sessions@[j].id != a.sessions@[i].id by {
            if j < i {
                assert(a.sessions@[j].id != a.sessions@[i].id);
            } else {
                assert(a.sessions@[i].id != a.sessions@[j].id);
            }
        }
    }

    /// Toggles play and pause in session `id`.
    pub fn play_pause_pressed(&mut self, id: u64) -> (effects: Vec<Effect>)
        requires
            old(self).wf(),
        ensures
            final(self).wf(),
            old(self).play_pause_outcome(&*final(self), id, effects@),
    {
        let mut effects: Vec<Effect> = Vec::new();
        if let Some(i) = self.find(id) {
            let ghost a = *self;
            self.sessions[i].playback.play_pause();
            self.drain(i, &mut effects);
            proof {
                Orchestrator::lemma_replace_session(a, *self, i as int);
                assert(a.sessions@[i as int].playback.commands@.len() == 0);
                let b = a.sessions@[i as int];
                let produced: Seq<EngineCommand> = if b.playback.loaded {
                    seq![if b.playback.snapshot.playing { EngineCommand::Pause } else { EngineCommand::Play }]
                } else {
                    seq![]
                };
                assert(b.playback.commands@ =~= Seq::<EngineCommand>::empty());
                assert(effects@ =~= engine_effects(id, produced));
            }
        }
        effects
    }

    /// Stops session `id` and reloads its tracks.
    pub fn reset_pressed(&mut self, id: u64) -> (effects: Vec<Effect>)
        requires
            old(self).wf(),
        ensures
            final(self).wf(),
            old(self).only_session_changed(&*final(self), id, effects@),
            forall|j: int|
                0 <= j < old(self).sessions@.len() && #[trigger] old(self).sessions@[j].id == id ==> {
                    let b = old(self).sessions@[j];
                    transport_outcome(
                        b,
                        final(self).sessions@[j],
                        b.playback.snapshot,
                        if b.playback.loaded {
                            seq![EngineCommand::Stop, EngineCommand::RefreshTracks]
                        } else {
                            seq![]
                        },
                        effects@,
                    )
                },
    {
        let mut effects: Vec<Effect> = Vec::new();
        if let Some(i) = self.find(id) {
            let ghost a = *self;
            self.sessions[i].playback.reset();
            self.drain(i, &mut effects);
            proof {
                Orchestrator::lemma_replace_session(a, *self, i as int);
                assert(a.sessions@[i as int].playback.commands@.len() == 0);
                let produced: Seq<EngineCommand> = if a.sessions@[i as int].playback.loaded {
                    seq![EngineCommand::Stop, EngineCommand::RefreshTracks]
                } else {
                    seq![]
                };
                assert(a.sessions@[i as int].playback.commands@ =~= Seq::<EngineCommand>::empty());
                assert(effects@ =~= engine_effects(id, produced));
            }
        }
        effects
    }

    /// Reshuffles session `id`.
    pub fn shuffle_pressed(&mut self, id: u64) -> (effects: Vec<Effect>)
        requires
            old(self).wf(),
        ensures
            final(self).wf(),
            old(self).only_session_changed(&*final(self), id, effects@),
            forall|j: int|
                0 <= j < old(self).sessions@.len() && #[trigger] old(self).sessions@[j].id == id ==> {
                    let b = old(self).sessions@[j];
                    transport_outcome(
                        b,
                        final(self).sessions@[j],
                        b.playback.snapshot,
                        if b.playback.loaded { seq![EngineCommand::RefreshTracks] } else { seq![] },
                        effects@,
                    )
                },
    {
        let mut effects: Vec<Effect> = Vec::new();
        if let Some(i) = self.find(id) {
            let ghost a = *self;
            self.sessions[i].playback.shuffle();
            self.drain(i, &mut effects);
            proof {
                Orchestrator::lemma_replace_session(a, *self, i as int);
                assert(a.sessions@[i as int].playback.commands@.len() == 0);
                let produced: Seq<EngineCommand> = if a.sessions@[i as int].playback.loaded {
                    seq![EngineCommand::RefreshTracks]
                } else {
                    seq![]
                };
                assert(a.sessions@[i as int].playback.commands@ =~= Seq::<EngineCommand>::empty());
                assert(effects@ =~= engine_effects(id, produced));
            }
        }
        effects
    }

    /// Seeks session `id` by `offset_ms` from its current time, within the
    /// track.
    pub fn seek_by_pressed(&mut self, id: u64, offset_ms: i64) -> (effects: Vec<Effect>)
        requires
            old(self).wf(),
        ensures
            final(self).wf(),
            old(self).seek_by_outcome(&*final(self), id, offset_ms, effects@),
    {
        let mut effects: Vec<Effect> = Vec::new();
        if let Some(i) = self.find(id) {
            let ghost a = *self;
            self.sessions[i].playback.seek_by(offset_ms);
            self.drain(i, &mut effects);
            proof {
                Orchestrator::lemma_replace_session(a, *self, i as int);
                assert(a.sessions@[i as int].playback.commands@.len() == 0);
                if a.sessions@[i as int].playback.loaded {
                    let c = EngineCommand::Seek {
                        position_ms: seek_by_target(
                            a.sessions@[i as int].playback.status_spec(), offset_ms as int) as u64,
                    };
                    assert(a.sessions@[i as int].playback.commands@ =~= Seq::<EngineCommand>::empty());
                    assert(effects@ =~= engine_effects(id, seq![c]));
                } else {
                    assert(effects@ =~= engine_effects(id, seq![]));
                }
            }
        }
        effects
    }
    /// The user moved the timeline of session `id`.
    pub fn timeline_changed(&mut self, id: u64, percent: i64, now: u64) -> (effects: Vec<Effect>)
        requires
            old(self).wf(),
        ensures
            final(self).wf(),
            old(self).only_session_changed(&*final(self), id, effects@),
            forall|j: int|
                0 <= j < old(self).sessions@.len() && #[trigger] old(self).sessions@[j].id == id
                    ==> timeline_outcome(old(self).sessions@[j], final(self).sessions@[j], percent as int, now, effects@),
    {
        let mut effects: Vec<Effect> = Vec::new();
        if let Some(i) = self.find(id) {
            let ghost a = *self;
            self.sessions[i].set_timeline_percent(percent, now);
            self.drain(i, &mut effects);
            proof {
                Orchestrator::lemma_replace_session(a, *self, i as int);
                let b = a.sessions@[i as int];
                let p = clamp_percent(percent as int);
                let produced: Seq<EngineCommand> = match b.duration_ms {
                    Some(d) => if b.playback.loaded {
                        seq![EngineCommand::Seek { position_ms: timeline_seek_target(d, p) as u64 }]
                    } else {
                        seq![]
                    },
                    None => seq![],
                };
                assert(b.playback.commands@ =~= Seq::<EngineCommand>::empty());
                assert(effects@ =~= engine_effects(id, produced));
            }
        }
        effects
    }

    /// The user moved the volume slider of session `id`.
    pub fn volume_changed(&mut self, id: u64, percent: i64, now: u64) -> (effects: Vec<Effect>)
        requires
            old(self).wf(),
        ensures
            final(self).wf(),
            old(self).only_session_changed(&*final(self), id, effects@),
            forall|j: int|
                0 <= j < old(self).sessions@.len() && #[trigger] old(self).sessions@[j].id == id
                    ==> volume_outcome(old(self).sessions@[j], final(self).sessions@[j], percent as int, now, effects@),
    {
        let mut effects: Vec<Effect> = Vec::new();
        if let Some(i) = self.find(id) {
            let ghost a = *self;
            self.sessions[i].set_volume_percent(percent, now);
            self.drain(i, &mut effects);
            proof {
                Orchestrator::lemma_replace_session(a, *self, i as int);
                let b = a.sessions@[i as int];
                let p = clamp_percent(percent as int);
                let produced: Seq<EngineCommand> = if b.playback.loaded {
                    seq![EngineCommand::SetVolume { level: p as u64 }]
                } else {
                    seq![]
                };
                assert(b.playback.commands@ =~= Seq::<EngineCommand>::empty());
                assert(effects@ =~= engine_effects(id, produced));
            }
        }
        effects
    }

    /// Zooms session `id` one step in (`inward`) or out.
    pub fn zoom_window(&mut self, id: u64, inward: bool)
        requires
            old(self).wf(),
        ensures
            final(self).wf(),
            old(self).zoom_outcome(&*final(self), id, inward),
    {
        if let Some(i) = self.find(id) {
            let ghost a = *self;
            if inward {
                self.sessions[i].zoom_in();
            } else {
                self.sessions[i].zoom_out();
            }
            proof {
                Orchestrator::lemma_replace_session(a, *self, i as int);
            }
        }
    }

    /// Opens or closes the in-window menu of session `id` (`open` as given,
    /// or flipped when `toggle`).
    fn set_window_menu(&mut self, id: u64, toggle: bool, open: bool)
        requires
            old(self).wf(),
        ensures
            final(self).wf(),
            old(self).only_session_changed(&*final(self), id, seq![]),
            forall|j: int|
                0 <= j < old(self).sessions@.len() && #[trigger] old(self).sessions@[j].id == id
                    ==> final(self).sessions@[j] == (SessionState {
                        menu_open: if toggle { !old(self).sessions@[j].menu_open } else { open },
                        ..old(self).sessions@[j]
                    }),
    {
        if let Some(i) = self.find(id) {
            let ghost a = *self;
            let v = if toggle { !self.sessions[i].menu_open } else { open };
            self.sessions[i].menu_open = v;
            proof {
                Orchestrator::lemma_replace_session(a, *self, i as int);
            }
        }
    }

    /// Flips the in-window menu of session `id`.
    pub fn toggle_window_menu(&mut self, id: u64)
        requires
            old(self).wf(),
        ensures
            final(self).wf(),
            old(self).only_session_changed(&*final(self), id, seq![]),
            forall|j: int|
                0 <= j < old(self).sessions@.len() && #[trigger] old(self).sessions@[j].id == id
                    ==> final(self).sessions@[j] == (SessionState {
                        menu_open: !old(self).sessions@[j].menu_open,
                        ..old(self).sessions@[j]
                    }),
    {
        self.set_window_menu(id, true, false);
    }

    /// Closes the in-window menu of session `id`.
    pub fn close_window_menu(&mut self, id: u64)
        requires
            old(self).wf(),
        ensures
            final(self).wf(),
            old(self).only_session_changed(&*final(self), id, seq![]),
            forall|j: int|
                0 <= j < old(self).sessions@.len() && #[trigger] old(self).sessions@[j].id == id
                    ==> final(self).sessions@[j] == (SessionState { menu_open: false, ..old(self).sessions@[j] }),
    {
        self.set_window_menu(id, false, false);
    }

    /// Records what the engine of session `id` reported.
    pub fn report_engine_status(&mut self, id: u64, status: PlaybackStatus)
        requires
            old(self).wf(),
        ensures
            final(self).wf(),
            old(self).only_session_changed(&*final(self), id, seq![]),
            forall|j: int|
                0 <= j < old(self).sessions@.len() && #[trigger] old(self).sessions@[j].id == id
                    ==> {
                    let b = old(self).sessions@[j];
                    final(self).sessions@[j] == (SessionState {
                        playback: PlaybackController {
                            snapshot: if b.playback.loaded { status } else { b.playback.snapshot },
                            ..b.playback
                        },
                        ..b
                    })
                },
    {
        if let Some(i) = self.find(id) {
            let ghost a = *self;
            self.sessions[i].playback.report_status(status);
            proof {
                Orchestrator::lemma_replace_session(a, *self, i as int);
            }
        }
    }

    /// Reconciles every session against its controller at `now`.
    pub fn refresh_windows(&mut self, now: u64)
        requires
            old(self).wf(),
        ensures
            final(self).wf(),
            old(self).refresh_all_outcome(&*final(self), now),
    {
        let ghost a = *self;
        let mut i: usize = 0;
        while i < self.sessions.len()
            invariant
                a.wf(),
                i <= self.sessions@.len(),
                self.sessions@.len() == a.sessions@.len(),
                self.focused == a.focused,
                self.same_settings(&a),
                forall|j: int| 0 <= j < i ==> (#[trigger] a.sessions@[j]).refresh_outcome(&self.sessions@[j], now),
                forall|j: int| 0 <= j < i ==> (#[trigger] self.sessions@[j]).wf(),
                forall|j: int| i <= j < self.sessions@.len() ==> #[trigger] self.sessions@[j] == a.sessions@[j],
            decreases self.sessions@.len() - i,
        {
            self.sessions[i].refresh_status(now);
            i = i + 1;
        }
        proof {
            assert forall|x: int, y: int|
                0 <= x < y < self.sessions@.len() implies (#[trigger] self.sessions@[x]).id
                    != (#[trigger] self.sessions@[y]).id by {
                assert(a.sessions@[x].refresh_outcome(&self.sessions@[x], now));
                assert(a.sessions@[y].refresh_outcome(&self.sessions@[y], now));
                assert(a.sessions@[x].id != a.sessions@[y].id);
            }
            assert forall|x: int| 0 <= x < self.sessions@.len() implies
                (#[trigger] self.sessions@[x]).wf() && self.sessions@[x].id < self.next_id
                && self.sessions@[x].playback.commands@.len() == 0 by {
                assert(a.sessions@[x].refresh_outcome(&self.sessions@[x], now));
            }
            if self.focused is Some {
                let f = self.focused->0;
                let j = choose|j: int| 0 <= j < a.sessions@.len() && #[trigger] a.sessions@[j].id == f;
                assert(a.sessions@[j].refresh_outcome(&self.sessions@[j], now));
                assert(self.sessions@[j].id == f);
            }
        }
    }
    pub proof fn lemma_id_unique(a: Orchestrator, i: int)
        requires
            a.registry_ok(),
            0 <= i < a.sessions@.len(),
        ensures
            forall|j: int| 0 <= j < a.sessions@.len() && a.sessions@[j].id == a.sessions@[i].id ==> j == i,
    {
        assert forall|j: int|
            0 <= j < a.sessions@.len() && a.sessions@[j].id == a.sessions@[i].id implies j == i by {
            if j < i {
                assert(a.sessions@[j].id != a.sessions@[i].id);
            } else if j > i {
                assert(a.sessions@[i].id != a.sessions@[j].id);
            }
        }
    }

    /// Asks for a file dialog whose pick opens a new window.
    pub fn start_new_window_open_dialog(&mut self) -> (effects: Vec<Effect>)
        requires
            old(self).wf(),
        ensures
            final(self).wf(),
            old(self).dialog_outcome(&*final(self), FilePickTarget::NewWindow, effects@),
    {
        self.pending_target = FilePickTarget::NewWindow;
        let mut effects: Vec<Effect> = Vec::new();
        effects.push(Effect::PickFile);
        proof {
            assert(effects@ =~= seq![Effect::PickFile]);
        }
        effects
    }

    /// Asks for a file dialog whose pick goes to the focused session.
    pub fn start_open_command_dialog(&mut self) -> (effects: Vec<Effect>)
        requires
            old(self).wf(),
        ensures
            final(self).wf(),
            old(self).dialog_outcome(&*final(self), old(self).open_target(), effects@),
    {
        self.pending_target = match self.focused {
            Some(f) => FilePickTarget::OpenIntoSession(f),
            None => FilePickTarget::NewWindow,
        };
        let mut effects: Vec<Effect> = Vec::new();
        effects.push(Effect::PickFile);
        proof {
            assert(effects@ =~= seq![Effect::PickFile]);
        }
        effects
    }

    /// Loads `path` into the session at `i`.
    fn load_into(&mut self, i: usize, path: MediaPath) -> (effects: Vec<Effect>)
        requires
            old(self).wf(),
            i < old(self).sessions@.len(),
        ensures
            final(self).wf(),
            old(self).load_into_outcome(&*final(self), old(self).sessions@[i as int].id, path, effects@),
            final(self).pending_target == old(self).pending_target,
            final(self).startup_dialog_due == old(self).startup_dialog_due,
    {
        let ghost a = *self;
        let id = self.sessions[i].id;
        self.sessions[i].load(&path);
        let ghost m = self.sessions@[i as int];
        let mut effects: Vec<Effect> = Vec::new();
        self.drain(i, &mut effects);
        proof {
            Orchestrator::lemma_replace_session(a, *self, i as int);
            assert(effects@ =~= engine_effects(id, m.playback.commands@));
            assert(a.sessions@[i as int].load_outcome(&m, path) && drained(m, self.sessions@[i as int]));
        }
        effects
    }

    /// Sends `path` into session `into` when that session is live and
    /// empty, else into a new window.
    fn route_path(&mut self, into: Option<u64>, path: MediaPath) -> (effects: Vec<Effect>)
        requires
            old(self).wf(),
        ensures
            final(self).wf(),
            old(self).route_outcome(&*final(self), into, path, effects@),
            final(self).pending_target == old(self).pending_target,
            final(self).startup_dialog_due == old(self).startup_dialog_due,
    {
        if let Some(id) = into {
            if let Some(i) = self.find(id) {
                proof {
                    Orchestrator::lemma_id_unique(*self, i as int);
                }
                if self.sessions[i].is_empty() {
                    return self.load_into(i, path);
                }
            }
        }
        self.open_window(Some(path))
    }

    /// A file dialog came back, with the picked path or none. The pending
    /// target is consumed: the path goes where it said, or into a new
    /// window when the target session is gone or already playing.
    pub fn handle_file_picked(&mut self, path: Option<MediaPath>) -> (effects: Vec<Effect>)
        requires
            old(self).wf(),
        ensures
            final(self).wf(),
            final(self).pending_target == FilePickTarget::NewWindow,
            final(self).startup_dialog_due == old(self).startup_dialog_due,
            path is None ==> {
                &&& final(self).sessions == old(self).sessions
                &&& final(self).focused == old(self).focused
                &&& final(self).same_flags(&*old(self))
                &&& final(self).next_id == old(self).next_id
                &&& effects@.len() == 0
            },
            path is Some ==> old(self).route_outcome(
                &*final(self),
                match old(self).pending_target {
                    FilePickTarget::OpenIntoSession(id) => Some(id),
                    FilePickTarget::NewWindow => None,
                },
                path->0,
                effects@,
            ),
    {
        let target = self.pending_target;
        self.pending_target = FilePickTarget::NewWindow;
        match path {
            None => Vec::new(),
            Some(p) => match target {
                FilePickTarget::NewWindow => self.route_path(None, p),
                FilePickTarget::OpenIntoSession(id) => self.route_path(Some(id), p),
            },
        }
    }

    /// The platform asked to open `path`: it goes into the focused session
    /// when that one is empty, else into a new window. Any start-up dialog
    /// still due is called off.
    pub fn handle_external_open_path(&mut self, path: MediaPath) -> (effects: Vec<Effect>)
        requires
            old(self).wf(),
        ensures
            final(self).wf(),
            old(self).external_open_outcome(&*final(self), path, effects@),
    {
        self.startup_dialog_due = None;
        let focused = self.focused;
        self.route_path(focused, path)
    }

    /// Schedules the start-up file dialog `delay_ms` after `now`.
    pub fn schedule_startup_open_dialog(&mut self, now: u64, delay_ms: u64)
        requires
            old(self).wf(),
        ensures
            final(self).wf(),
            *final(self) == (Orchestrator {
                startup_dialog_due: Some(
                    if now as int + delay_ms > u64::MAX { u64::MAX } else { (now + delay_ms) as u64 },
                ),
                ..*old(self)
            }),
    {
        self.startup_dialog_due = Some(now.saturating_add(delay_ms));
    }

    /// Shows the start-up file dialog once it is due, unless some session
    /// already plays a file by then.
    pub fn maybe_startup_open_dialog(&mut self, now: u64) -> (effects: Vec<Effect>)
        requires
            old(self).wf(),
        ensures
            final(self).wf(),
            match old(self).startup_dialog_due {
                Some(due) if now >= due => {
                    let cleared = Orchestrator { startup_dialog_due: None, ..*old(self) };
                    if exists|j: int| 0 <= j < old(self).sessions@.len() && #[trigger] old(self).sessions@[j].playback.loaded {
                        *final(self) == cleared && effects@.len() == 0
                    } else {
                        cleared.dialog_outcome(&*final(self), old(self).open_target(), effects@)
                    }
                },
                _ => *final(self) == *old(self) && effects@.len() == 0,
            },
    {
        let due = match self.startup_dialog_due {
            None => {
                return Vec::new();
            },
            Some(d) => d,
        };
        if now < due {
            return Vec::new();
        }
        self.startup_dialog_due = None;
        let ghost cleared = *self;
        assert(cleared == Orchestrator { startup_dialog_due: None, ..*old(self) });
        let mut i: usize = 0;
        while i < self.sessions.len()
            invariant
                *self == cleared,
                cleared.wf(),
                cleared == (Orchestrator { startup_dialog_due: None, ..*old(self) }),
                old(self).startup_dialog_due == Some(due),
                now >= due,
                i <= self.sessions@.len(),
                forall|j: int| 0 <= j < i ==> !(#[trigger] self.sessions@[j]).playback.loaded,
            decreases self.sessions@.len() - i,
        {
            if self.sessions[i].playback.loaded {
                return Vec::new();
            }
            i = i + 1;
        }
        self.start_open_command_dialog()
    }

    /// Claims the native menu installation: true only the first time.
    pub fn claim_native_menu_install(&mut self) -> (r: bool)
        ensures
            r == !old(self).native_menu_attempted,
            *final(self) == old(self).menu_claimed(),
    {
        if self.native_menu_attempted {
            return false;
        }
        self.native_menu_attempted = true;
        true
    }

    /// Claims the application icon installation: true only the first time.
    pub fn claim_app_icon_install(&mut self) -> (r: bool)
        ensures
            r == !old(self).app_icon_attempted,
            *final(self) == (Orchestrator { app_icon_attempted: true, ..*old(self) }),
    {
        if self.app_icon_attempted {
            return false;
        }
        self.app_icon_attempted = true;
        true
    }

    /// Records an application-wide failure for display.
    pub fn report_global_error(&mut self, error: GlobalError)
        ensures
            *final(self) == (Orchestrator { global_error: Some(error), ..*old(self) }),
    {
        self.global_error = Some(error);
    }

    /// Carries out a native menu action. Zooming applies to the focused
    /// session.
    pub fn handle_menu_action(&mut self, action: MenuAction) -> (effects: Vec<Effect>)
        requires
            old(self).wf(),
        ensures
            final(self).wf(),
            old(self).menu_action_outcome(&*final(self), action, effects@),
    {
        match action {
            MenuAction::About => {
                let mut effects: Vec<Effect> = Vec::new();
                effects.push(Effect::ShowAbout);
                proof {
                    assert(effects@ =~= seq![Effect::ShowAbout]);
                }
                effects
            },
            MenuAction::NewWindow => self.start_new_window_open_dialog(),
            MenuAction::Open => self.start_open_command_dialog(),
            MenuAction::ZoomIn => {
                if let Some(f) = self.focused {
                    self.zoom_window(f, true);
                }
                Vec::new()
            },
            MenuAction::ZoomOut => {
                if let Some(f) = self.focused {
                    self.zoom_window(f, false);
                }
                Vec::new()
            },
        }
    }

    /// The user asked to close the window of session `id`: the session is
    /// closed, then its window.
    pub fn window_close_requested(&mut self, id: u64) -> (effects: Vec<Effect>)
        requires
            old(self).wf(),
        ensures
            final(self).wf(),
            old(self).close_request_outcome(&*final(self), id, effects@),
    {
        let mut effects = self.close_window_state(id);
        effects.push(Effect::CloseWindow(id));
        proof {
            if !old(self).has(id) {
                assert(effects@ =~= seq![Effect::CloseWindow(id)]);
            }
        }
        effects
    }

    /// The window of session `id` has closed. When it was the last one and
    /// the platform does not keep windowless applications running, the
    /// process is to end.
    pub fn window_closed(&mut self, id: u64) -> (effects: Vec<Effect>)
        requires
            old(self).wf(),
        ensures
            final(self).wf(),
            !old(self).has(id) ==> *final(self) == *old(self),
            forall|i: int|
                0 <= i < old(self).sessions@.len() && old(self).sessions@[i].id == id ==> exists|e: Seq<Effect>|
                    old(self).close_outcome(&*final(self), i, e) && effects@ == if final(self).sessions@.len() == 0
                        && old(self).exit_on_last_close {
                        e.push(Effect::Exit)
                    } else {
                        e
                    },
            !old(self).has(id) ==> effects@ == if old(self).sessions@.len() == 0 && old(self).exit_on_last_close {
                seq![Effect::Exit]
            } else {
                seq![]
            },
    {
        let mut effects = self.close_window_state(id);
        let ghost e = effects@;
        if self.sessions.len() == 0 && self.exit_on_last_close {
            effects.push(Effect::Exit);
        }
        proof {
            assert forall|i: int|
                0 <= i < old(self).sessions@.len() && old(self).sessions@[i].id == id implies exists|e2: Seq<Effect>|
                    old(self).close_outcome(&*self, i, e2) && effects@ == if self.sessions@.len() == 0
                        && old(self).exit_on_last_close {
                        e2.push(Effect::Exit)
                    } else {
                        e2
                    } by {
                assert(old(self).close_outcome(&*self, i, e));
            }
            if !old(self).has(id) {
                assert(effects@ =~= if old(self).sessions@.len() == 0 && old(self).exit_on_last_close {
                    seq![Effect::Exit]
                } else {
                    seq![]
                });
            }
        }
        effects
    }
    /// Carries out a keyboard shortcut pressed in the window of session
    /// `id`.
    pub fn handle_shortcut(&mut self, id: u64, shortcut: Shortcut) -> (effects: Vec<Effect>)
        requires
            old(self).wf(),
        ensures
            final(self).wf(),
            old(self).shortcut_outcome(&*final(self), id, shortcut, effects@),
    {
        match shortcut {
            Shortcut::PlayPause => self.play_pause_pressed(id),
            Shortcut::SeekBy(offset) => self.seek_by_pressed(id, offset),
            Shortcut::NewWindow => {
                self.set_focused_window(id);
                self.start_new_window_open_dialog()
            },
            Shortcut::Open => {
                self.set_focused_window(id);
                self.start_open_command_dialog()
            },
            Shortcut::CloseWindow => self.window_close_requested(id),
            Shortcut::ZoomIn => {
                self.zoom_window(id, true);
                Vec::new()
            },
            Shortcut::ZoomOut => {
                self.zoom_window(id, false);
                Vec::new()
            },
        }
    }

    /// Dispatches the paths the platform asked to open, in order.
    pub fn dispatch_opened_paths(&mut self, opened: Vec<MediaPath>) -> (effects: Vec<Effect>)
        requires
            old(self).wf(),
        ensures
            final(self).wf(),
            old(self).paths_outcome(opened@, &*final(self), effects@),
    {
        let ghost r = *self;
        let mut effects: Vec<Effect> = Vec::new();
        let mut opened = opened;
        let ghost all_paths = opened@;
        assert(r.paths_outcome(all_paths.subrange(0, 0), &*self, effects@)) by {
            assert(all_paths.subrange(0, 0).len() == 0);
        }
        while opened.len() > 0
            invariant
                self.wf(),
                opened@.len() <= all_paths.len(),
                opened@ == all_paths.subrange(all_paths.len() - opened@.len(), all_paths.len() as int),
                r.paths_outcome(all_paths.subrange(0, all_paths.len() - opened@.len()), &*self, effects@),
            decreases opened@.len(),
        {
            let ghost done = all_paths.len() - opened@.len();
            let ghost mid = *self;
            let ghost e1 = effects@;
            let path = opened.remove(0);
            assert(path == all_paths[done]);
            let mut more = self.handle_external_open_path(path);
            let ghost e2 = more@;
            effects.append(&mut more);
            proof {
                let prefix = all_paths.subrange(0, done + 1);
                assert(prefix.drop_last() =~= all_paths.subrange(0, done));
                assert(prefix.last() == path);
                assert(mid.external_open_outcome(&*self, path, e2));
                assert(effects@ == e1 + e2);
                assert(r.paths_outcome(prefix, &*self, effects@));
                assert(opened@ =~= all_paths.subrange(all_paths.len() - opened@.len(), all_paths.len() as int));
            }
        }
        assert(all_paths.subrange(0, all_paths.len() as int) =~= all_paths);
        effects
    }

    /// Carries out the native menu's actions, in order.
    pub fn dispatch_menu_actions(&mut self, actions: Vec<MenuAction>) -> (effects: Vec<Effect>)
        requires
            old(self).wf(),
        ensures
            final(self).wf(),
            old(self).actions_outcome(actions@, &*final(self), effects@),
    {
        let ghost p = *self;
        let mut tail: Vec<Effect> = Vec::new();
        let mut actions = actions;
        let ghost all_actions = actions@;
        assert(p.actions_outcome(all_actions.subrange(0, 0), &*self, tail@)) by {
            assert(all_actions.subrange(0, 0).len() == 0);
        }
        while actions.len() > 0
            invariant
                self.wf(),
                actions@.len() <= all_actions.len(),
                actions@ == all_actions.subrange(all_actions.len() - actions@.len(), all_actions.len() as int),
                p.actions_outcome(all_actions.subrange(0, all_actions.len() - actions@.len()), &*self, tail@),
            decreases actions@.len(),
        {
            let ghost done = all_actions.len() - actions@.len();
            let ghost mid = *self;
            let ghost e1 = tail@;
            let action = actions.remove(0);
            assert(action == all_actions[done]);
            let mut more = self.handle_menu_action(action);
            let ghost e2 = more@;
            tail.append(&mut more);
            proof {
                let prefix = all_actions.subrange(0, done + 1);
                assert(prefix.drop_last() =~= all_actions.subrange(0, done));
                assert(prefix.last() == action);
                assert(mid.menu_action_outcome(&*self, action, e2));
                assert(tail@ == e1 + e2);
                assert(p.actions_outcome(prefix, &*self, tail@));
                assert(actions@ =~= all_actions.subrange(all_actions.len() - actions@.len(), all_actions.len() as int));
            }
        }
        assert(all_actions.subrange(0, all_actions.len() as int) =~= all_actions);
        tail
    }

    /// One tick of the fixed-rate timer, after the caller has run the
    /// one-shot installations and passed on its engines' reports: every
    /// session is reconciled at `now`, then the paths the platform asked to
    /// open are dispatched, then the native menu's actions, each in order.
    pub fn tick(&mut self, now: u64, opened: Vec<MediaPath>, actions: Vec<MenuAction>) -> (effects: Vec<Effect>)
        requires
            old(self).wf(),
        ensures
            final(self).wf(),
            exists|r: Orchestrator, p: Orchestrator, e1: Seq<Effect>, e2: Seq<Effect>|
                old(self).refresh_all_outcome(&r, now) && r.paths_outcome(opened@, &p, e1)
                    && p.actions_outcome(actions@, &*final(self), e2) && effects@ == e1 + e2,
    {
        self.refresh_windows(now);
        let ghost r = *self;
        let mut effects = self.dispatch_opened_paths(opened);
        let ghost p = *self;
        let ghost e1 = effects@;
        let mut tail = self.dispatch_menu_actions(actions);
        let ghost e2 = tail@;
        effects.append(&mut tail);
        assert(r.paths_outcome(opened@, &p, e1) && p.actions_outcome(actions@, &*self, e2));
        effects
    }

    /// The first step after start-up. A file named at launch opens in a
    /// window. Without one, on platforms that hand files over through
    /// open-file requests (`ask_when_nothing`), the requests that came in
    /// are dispatched, or, when there are none, a file dialog is shown;
    /// elsewhere an empty window opens.
    pub fn boot(&mut self, initial: Option<MediaPath>, opened: Vec<MediaPath>, ask_when_nothing: bool) -> (effects: Vec<Effect>)
        requires
            old(self).wf(),
            old(self).next_id < u64::MAX,
        ensures
            final(self).wf(),
            match initial {
                Some(p) => old(self).open_outcome(&*final(self), Some(p), effects@),
                None => if !ask_when_nothing {
                    old(self).open_outcome(&*final(self), None, effects@)
                } else if opened@.len() == 0 {
                    old(self).dialog_outcome(&*final(self), old(self).open_target(), effects@)
                } else {
                    old(self).paths_outcome(opened@, &*final(self), effects@)
                },
            },
    {
        match initial {
            Some(p) => self.open_window(Some(p)),
            None => {
                if !ask_when_nothing {
                    self.open_window(None)
                } else if opened.len() == 0 {
                    self.start_open_command_dialog()
                } else {
                    self.dispatch_opened_paths(opened)
                }
            },
        }
    }
}

} // verus!
