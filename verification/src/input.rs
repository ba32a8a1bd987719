use vstd::prelude::*;

use crate::editor::{DigitAction, EditorState, WaypointsState};
use crate::level::LightId;
use crate::movement::WaypointId;

verus! {

/// A key the level editor reacts to.
#[derive(Debug, Clone, Copy, PartialEq, Eq)]
pub enum EditorKey {
    ArrowLeft,
    ArrowRight,
    C,
    D,
    E,
    F,
    H,
    Q,
    S,
    V,
    W,
    X,
    Z,
    Backquote,
    Escape,
    Enter,
    Space,
    /// A digit key, 0 to 9.
    Digit(u8),
    F1,
    F5,
    F11,
    /// Any other key.
    Other,
}

/// The modifier keys held while a key is pressed.
#[derive(Debug, Clone, Copy, PartialEq, Eq)]
pub struct KeyModifiers {
    pub ctrl: bool,
    pub shift: bool,
    pub alt: bool,
}

/// How fast scrolling through time goes.
#[derive(Debug, Clone, Copy, PartialEq, Eq)]
pub enum ScrollSpeed {
    Slow,
    Normal,
    Fast,
}

/// Degrees by which one key press rotates.
pub const ROTATE_STEP_DEGREES: i32 = 15;

/// What a key press asks the editor to do. Commands on "the selection" act on every
/// selected light, as one grouped action.
#[derive(Debug, Clone, Copy, PartialEq, Eq)]
pub enum EditorCommand<S> {
    /// Finish editing a text field.
    StopTextEdit,
    /// Scroll through time by a number of steps of the given speed.
    ScrollTimeBy(ScrollSpeed, i64),
    Copy,
    Paste,
    /// Flip the selected lights vertically around their anchor.
    FlipSelectionVertical,
    /// Flip the selected lights horizontally around their anchor.
    FlipSelectionHorizontal,
    ToggleDynamicVisual,
    DeleteWaypoint(LightId, WaypointId),
    DeleteSelection,
    Save,
    /// Rotate what is being placed by some degrees.
    RotatePlacement(i32),
    /// Rotate a waypoint by some degrees.
    RotateWaypoint(LightId, WaypointId, i32),
    /// Rotate the selected lights around their anchor by some degrees.
    RotateSelection(i32),
    Undo,
    Redo,
    ToggleUi,
    ToggleDangerPlacement,
    ToggleSelectionDanger,
    ToggleWaypointsView,
    ToggleGrid,
    ToggleGridSnap,
    Cancel,
    StartPlaying,
    StopPlaying,
    NewLight(S),
    NewWaypoint,
    StartPlaytest,
    ToggleFullscreen,
}

/// The scroll speed chosen by the modifiers: shift scrolls slower, alt faster.
pub open spec fn scroll_speed_of(m: KeyModifiers) -> ScrollSpeed {
    if m.shift {
        ScrollSpeed::Slow
    } else if m.alt {
        ScrollSpeed::Fast
    } else {
        ScrollSpeed::Normal
    }
}

/// What rotating by `degrees` does: the placement turns while placing (a light or a new
/// waypoint); otherwise the selected waypoint turns; otherwise the selected lights.
pub open spec fn rotate_command<S>(
    state: EditorState<S>,
    degrees: i32,
    has_selection: bool,
    waypoints: Option<(LightId, Option<WaypointId>)>,
) -> Option<EditorCommand<S>> {
    if state is Place || state matches EditorState::Waypoints { state: WaypointsState::New, .. } {
        Some(EditorCommand::RotatePlacement(degrees))
    } else {
        match waypoints {
            Some((light, Some(waypoint))) => Some(EditorCommand::RotateWaypoint(light, waypoint, degrees)),
            _ => if has_selection {
                Some(EditorCommand::RotateSelection(degrees))
            } else {
                None
            },
        }
    }
}

/// The command of a digit key.
pub open spec fn digit_command<S>(state: EditorState<S>, shapes: Seq<S>, digit: u8) -> Option<
    EditorCommand<S>,
> {
    match state.digit_action_spec(shapes, digit) {
        Some(DigitAction::NewLight(shape)) => Some(EditorCommand::NewLight(shape)),
        Some(DigitAction::NewWaypoint) => Some(EditorCommand::NewWaypoint),
        None => None,
    }
}

/// The command for a key press in the level editor.
///
/// While a text field is edited, only Escape and Enter do something (they finish the
/// edit). Otherwise nothing happens unless a level is open for editing. `waypoints` is
/// the light whose waypoints are shown, with its selected waypoint, if the waypoint view
/// is open.
pub open spec fn key_command_spec<S>(
    state: EditorState<S>,
    key: EditorKey,
    m: KeyModifiers,
    text_editing: bool,
    level_open: bool,
    has_selection: bool,
    waypoints: Option<(LightId, Option<WaypointId>)>,
    shapes: Seq<S>,
) -> Option<EditorCommand<S>> {
    if text_editing {
        if key == EditorKey::Escape || key == EditorKey::Enter {
            Some(EditorCommand::StopTextEdit)
        } else {
            None
        }
    } else if !level_open {
        None
    } else {
        match key {
            EditorKey::ArrowLeft => Some(EditorCommand::ScrollTimeBy(scroll_speed_of(m), -1i64)),
            EditorKey::ArrowRight => Some(EditorCommand::ScrollTimeBy(scroll_speed_of(m), 1i64)),
            EditorKey::C => if m.ctrl {
                Some(EditorCommand::Copy)
            } else {
                None
            },
            EditorKey::V => if m.ctrl {
                Some(EditorCommand::Paste)
            } else if m.shift && has_selection {
                Some(EditorCommand::FlipSelectionVertical)
            } else {
                None
            },
            EditorKey::H => if m.shift {
                if has_selection {
                    Some(EditorCommand::FlipSelectionHorizontal)
                } else {
                    None
                }
            } else {
                Some(EditorCommand::ToggleUi)
            },
            EditorKey::F => Some(EditorCommand::ToggleDynamicVisual),
            EditorKey::X => match waypoints {
                Some((light, Some(waypoint))) => Some(EditorCommand::DeleteWaypoint(light, waypoint)),
                Some((_, None)) => None,
                None => if has_selection {
                    Some(EditorCommand::DeleteSelection)
                } else {
                    None
                },
            },
            EditorKey::S => if m.ctrl {
                Some(EditorCommand::Save)
            } else {
                None
            },
            EditorKey::Q => rotate_command(state, ROTATE_STEP_DEGREES, has_selection, waypoints),
            EditorKey::E => rotate_command(state, (-ROTATE_STEP_DEGREES) as i32, has_selection, waypoints),
            EditorKey::Z => if m.ctrl {
                if m.shift {
                    Some(EditorCommand::Redo)
                } else {
                    Some(EditorCommand::Undo)
                }
            } else {
                None
            },
            EditorKey::D => if state is Place {
                Some(EditorCommand::ToggleDangerPlacement)
            } else if has_selection {
                Some(EditorCommand::ToggleSelectionDanger)
            } else {
                None
            },
            EditorKey::W => Some(EditorCommand::ToggleWaypointsView),
            EditorKey::Backquote => if m.ctrl {
                Some(EditorCommand::ToggleGrid)
            } else {
                Some(EditorCommand::ToggleGridSnap)
            },
            EditorKey::Escape => Some(EditorCommand::Cancel),
            EditorKey::Space => if state is Playing {
                Some(EditorCommand::StopPlaying)
            } else {
                Some(EditorCommand::StartPlaying)
            },
            EditorKey::Digit(d) => if d <= 9 {
                digit_command(state, shapes, d)
            } else {
                None
            },
            EditorKey::F1 => Some(EditorCommand::ToggleUi),
            EditorKey::F5 => Some(EditorCommand::StartPlaytest),
            EditorKey::F11 => Some(EditorCommand::ToggleFullscreen),
            EditorKey::Enter | EditorKey::Other => None,
        }
    }
}

/// Space toggles playing: it stops the playback while playing and starts it otherwise
/// (when no text is edited and a level is open), whatever the modifiers and selection.
pub proof fn law_space_toggles_playing<S>(
    state: EditorState<S>,
    m: KeyModifiers,
    has_selection: bool,
    waypoints: Option<(LightId, Option<WaypointId>)>,
    shapes: Seq<S>,
)
    ensures
        state is Playing ==> key_command_spec(state, EditorKey::Space, m, false, true, has_selection, waypoints, shapes)
            == Some(EditorCommand::<S>::StopPlaying),
        !(state is Playing) ==> key_command_spec(state, EditorKey::Space, m, false, true, has_selection, waypoints, shapes)
            == Some(EditorCommand::<S>::StartPlaying),
{
}

/// While a text field is edited, keys only finish the edit (Escape or Enter); with no
/// level open, keys do nothing; Ctrl+Z undoes and Ctrl+Shift+Z redoes; X deletes the
/// selected waypoint when the waypoint view has one.
pub proof fn law_key_guards<S>(
    state: EditorState<S>,
    key: EditorKey,
    m: KeyModifiers,
    has_selection: bool,
    waypoints: Option<(LightId, Option<WaypointId>)>,
    shapes: Seq<S>,
)
    ensures
        key != EditorKey::Escape && key != EditorKey::Enter ==> key_command_spec(state, key, m, true, true, has_selection, waypoints, shapes) is None,
        key_command_spec(state, EditorKey::Escape, m, true, true, has_selection, waypoints, shapes) == Some(EditorCommand::<S>::StopTextEdit),
        key_command_spec(state, key, m, false, false, has_selection, waypoints, shapes) is None,
        m.ctrl && !m.shift ==> key_command_spec(state, EditorKey::Z, m, false, true, has_selection, waypoints, shapes) == Some(EditorCommand::<S>::Undo),
        m.ctrl && m.shift ==> key_command_spec(state, EditorKey::Z, m, false, true, has_selection, waypoints, shapes) == Some(EditorCommand::<S>::Redo),
        waypoints matches Some((light, Some(w))) ==> key_command_spec(state, EditorKey::X, m, false, true, has_selection, waypoints, shapes) == Some(EditorCommand::<S>::DeleteWaypoint(light, w)),
{
}

impl<S: Copy> EditorState<S> {
    fn rotate_command(
        &self,
        degrees: i32,
        selection: &Vec<LightId>,
        waypoints: Option<(LightId, Option<WaypointId>)>,
    ) -> (res: Option<EditorCommand<S>>)
        ensures
            res == rotate_command(*self, degrees, selection@.len() > 0, waypoints),
    {
        match self {
            EditorState::Place { .. } | EditorState::Waypoints { state: WaypointsState::New, .. } => {
                return Some(EditorCommand::RotatePlacement(degrees));
            },
            _ => {},
        }
        if let Some((light, Some(waypoint))) = waypoints {
            return Some(EditorCommand::RotateWaypoint(light, waypoint, degrees));
        }
        if selection.len() > 0 {
            Some(EditorCommand::RotateSelection(degrees))
        } else {
            None
        }
    }

    /// The command for a key press in the level editor (see [`key_command_spec`]).
    pub fn key_command(
        &self,
        key: EditorKey,
        modifiers: KeyModifiers,
        text_editing: bool,
        level_open: bool,
        selection: &Vec<LightId>,
        waypoints: Option<(LightId, Option<WaypointId>)>,
        shapes: &Vec<S>,
    ) -> (res: Option<EditorCommand<S>>)
        ensures
            res == key_command_spec(
                *self,
                key,
                modifiers,
                text_editing,
                level_open,
                selection@.len() > 0,
                waypoints,
                shapes@,
            ),
    {
        if text_editing {
            return match key {
                EditorKey::Escape | EditorKey::Enter => Some(EditorCommand::StopTextEdit),
                _ => None,
            };
        }
        if !level_open {
            return None;
        }
        let has_selection = selection.len() > 0;
        let speed = if modifiers.shift {
            ScrollSpeed::Slow
        } else if modifiers.alt {
            ScrollSpeed::Fast
        } else {
            ScrollSpeed::Normal
        };
        match key {
            EditorKey::ArrowLeft => Some(EditorCommand::ScrollTimeBy(speed, -1)),
            EditorKey::ArrowRight => Some(EditorCommand::ScrollTimeBy(speed, 1)),
            EditorKey::C => if modifiers.ctrl {
                Some(EditorCommand::Copy)
            } else {
                None
            },
            EditorKey::V => if modifiers.ctrl {
                Some(EditorCommand::Paste)
            } else if modifiers.shift && has_selection {
                Some(EditorCommand::FlipSelectionVertical)
            } else {
                None
            },
            EditorKey::H => if modifiers.shift {
                if has_selection {
                    Some(EditorCommand::FlipSelectionHorizontal)
                } else {
                    None
                }
            } else {
                Some(EditorCommand::ToggleUi)
            },
            EditorKey::F => Some(EditorCommand::ToggleDynamicVisual),
            EditorKey::X => match waypoints {
                Some((light, Some(waypoint))) => Some(EditorCommand::DeleteWaypoint(light, waypoint)),
                Some((_, None)) => None,
                None => if has_selection {
                    Some(EditorCommand::DeleteSelection)
                } else {
                    None
                },
            },
            EditorKey::S => if modifiers.ctrl {
                Some(EditorCommand::Save)
            } else {
                None
            },
            EditorKey::Q => self.rotate_command(ROTATE_STEP_DEGREES, selection, waypoints),
            EditorKey::E => self.rotate_command(-ROTATE_STEP_DEGREES, selection, waypoints),
            EditorKey::Z => if modifiers.ctrl {
                if modifiers.shift {
                    Some(EditorCommand::Redo)
                } else {
                    Some(EditorCommand::Undo)
                }
            } else {
                None
            },
            EditorKey::D => match self {
                EditorState::Place { .. } => Some(EditorCommand::ToggleDangerPlacement),
                _ => if has_selection {
                    Some(EditorCommand::ToggleSelectionDanger)
                } else {
                    None
                },
            },
            EditorKey::W => Some(EditorCommand::ToggleWaypointsView),
            EditorKey::Backquote => if modifiers.ctrl {
                Some(EditorCommand::ToggleGrid)
            } else {
                Some(EditorCommand::ToggleGridSnap)
            },
            EditorKey::Escape => Some(EditorCommand::Cancel),
            EditorKey::Space => match self {
                EditorState::Playing { .. } => Some(EditorCommand::StopPlaying),
                _ => Some(EditorCommand::StartPlaying),
            },
            EditorKey::Digit(d) => if d <= 9 {
                match self.digit_action(shapes, d) {
                    Some(DigitAction::NewLight(shape)) => Some(EditorCommand::NewLight(shape)),
                    Some(DigitAction::NewWaypoint) => Some(EditorCommand::NewWaypoint),
                    None => None,
                }
            } else {
                None
            },
            EditorKey::F1 => Some(EditorCommand::ToggleUi),
            EditorKey::F5 => Some(EditorCommand::StartPlaytest),
            EditorKey::F11 => Some(EditorCommand::ToggleFullscreen),
            EditorKey::Enter | EditorKey::Other => None,
        }
    }
}

} // verus!
