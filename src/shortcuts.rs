use vstd::prelude::*;
use crate::text::{lower_of, lowercase, same_text};

verus! {

/// How far the arrow keys seek, in milliseconds.
pub const SEEK_STEP_MS: i64 = 5000;

/// A key press, as far as the shortcuts look at it.
#[derive(Clone, Debug, PartialEq, Eq)]
pub enum KeyInput {
    Space,
    ArrowRight,
    ArrowLeft,
    Character(String),
    Other,
}

/// What a keyboard shortcut asks of the window it was pressed in.
#[derive(Clone, Copy, Debug, PartialEq, Eq, Structural)]
pub enum Shortcut {
    PlayPause,
    SeekBy(i64),
    NewWindow,
    Open,
    CloseWindow,
    ZoomIn,
    ZoomOut,
}

/// The shortcut of a lower-cased character pressed with the command key.
pub open spec fn character_shortcut(lowered: Seq<char>) -> Option<Shortcut> {
    if lowered == "n"@ {
        Some(Shortcut::NewWindow)
    } else if lowered == "o"@ {
        Some(Shortcut::Open)
    } else if lowered == "w"@ {
        Some(Shortcut::CloseWindow)
    } else if lowered == "+"@ || lowered == "="@ {
        Some(Shortcut::ZoomIn)
    } else if lowered == "-"@ {
        Some(Shortcut::ZoomOut)
    } else {
        None
    }
}

/// The shortcut of a key press; `command` tells whether the platform's
/// command key was held.
pub open spec fn key_shortcut(key: KeyInput, command: bool) -> Option<Shortcut> {
    match key {
        KeyInput::Space => Some(Shortcut::PlayPause),
        KeyInput::ArrowRight => Some(Shortcut::SeekBy(SEEK_STEP_MS)),
        KeyInput::ArrowLeft => Some(Shortcut::SeekBy((-SEEK_STEP_MS) as i64)),
        KeyInput::Character(v) => if command {
            character_shortcut(lower_of(v@))
        } else {
            None
        },
        KeyInput::Other => None,
    }
}

/// The shortcut of an already lower-cased character pressed with the
/// command key.
pub fn shortcut_for_character(lowered: &str) -> (r: Option<Shortcut>)
    ensures
        r == character_shortcut(lowered@),
{
    if same_text(lowered, "n") {
        Some(Shortcut::NewWindow)
    } else if same_text(lowered, "o") {
        Some(Shortcut::Open)
    } else if same_text(lowered, "w") {
        Some(Shortcut::CloseWindow)
    } else if same_text(lowered, "+") || same_text(lowered, "=") {
        Some(Shortcut::ZoomIn)
    } else if same_text(lowered, "-") {
        Some(Shortcut::ZoomOut)
    } else {
        None
    }
}

/// Maps a key press to its shortcut, if it has one.
pub fn handle_key_press(key: &KeyInput, command: bool) -> (r: Option<Shortcut>)
    ensures
        r == key_shortcut(*key, command),
{
    match key {
        KeyInput::Space => Some(Shortcut::PlayPause),
        KeyInput::ArrowRight => Some(Shortcut::SeekBy(SEEK_STEP_MS)),
        KeyInput::ArrowLeft => Some(Shortcut::SeekBy(-SEEK_STEP_MS)),
        KeyInput::Character(v) => {
            if command {
                let lowered = lowercase(v.as_str());
                shortcut_for_character(lowered.as_str())
            } else {
                None
            }
        },
        KeyInput::Other => None,
    }
}

} // verus!
