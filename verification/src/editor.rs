use vstd::prelude::*;

use crate::history::History;
use crate::level::LightId;
use crate::snapshot::Snapshot;
use crate::movement::{reordered_id, waypoint_at, WaypointId};
use crate::time::Time;

verus! {

/// What the waypoint view is doing.
#[derive(Debug, Clone, Copy, PartialEq, Eq, Structural)]
pub enum WaypointsState {
    Idle,
    /// Placing a new waypoint.
    New,
}

/// What the level editor is doing; `S` is the shape of lights being placed.
#[derive(Debug)]
pub enum EditorState<S> {
    Idle,
    /// Place a new light.
    Place { shape: S, danger: bool },
    /// Playing the level from some time; the state to return to is kept.
    Playing { start_time: Time, start_target_time: Time, old_state: Box<EditorState<S>> },
    /// Control waypoints of an existing light.
    Waypoints { light_id: LightId, state: WaypointsState },
}

/// What cancelling did.
#[derive(Debug, Clone, Copy, PartialEq, Eq, Structural)]
pub enum CancelOutcome {
    /// Nothing was in progress: the selected light should be deselected.
    DeselectLight,
    /// The state changed (or nothing could be cancelled).
    Done,
}

impl<S> EditorState<S> {
    /// Whether undo and redo are allowed (not while playing or placing).
    pub open spec fn history_allowed(self) -> bool {
        self is Idle || self is Waypoints
    }

    /// Whether undo and redo are allowed (not while playing or placing).
    pub fn allows_history(&self) -> (res: bool)
        ensures
            res == self.history_allowed(),
    {
        match self {
            EditorState::Idle | EditorState::Waypoints { .. } => true,
            _ => false,
        }
    }

    /// Start placing a new light of the given shape (not dangerous).
    pub fn new_light(&mut self, shape: S)
        ensures
            *final(self) == (EditorState::Place { shape, danger: false }),
    {
        *self = EditorState::Place { shape, danger: false };
    }

    /// Toggle whether the light being placed is dangerous.
    pub fn toggle_danger_placement(&mut self)
        ensures
            match *old(self) {
                EditorState::Place { shape, danger } => *final(self) == (EditorState::Place {
                    shape,
                    danger: !danger,
                }),
                _ => *final(self) == *old(self),
            },
    {
        if let EditorState::Place { danger, .. } = self {
            *danger = !*danger;
        }
    }

    /// Toggle the waypoint view of the selected light.
    pub fn view_waypoints(&mut self, selected_light: Option<LightId>)
        ensures
            match (*old(self), selected_light) {
                (EditorState::Idle, Some(light_id)) => *final(self) == (EditorState::<S>::Waypoints {
                    light_id,
                    state: WaypointsState::Idle,
                }),
                (EditorState::Waypoints { .. }, _) => *final(self) == EditorState::<S>::Idle,
                _ => *final(self) == *old(self),
            },
    {
        match self {
            EditorState::Idle => {
                if let Some(selected) = selected_light {
                    *self = EditorState::Waypoints {
                        light_id: selected,
                        state: WaypointsState::Idle,
                    };
                }
            },
            EditorState::Waypoints { .. } => {
                *self = EditorState::Idle;
            },
            _ => {},
        }
    }

    /// Start placing a new waypoint, when the waypoint view is open.
    pub fn new_waypoint(&mut self)
        ensures
            match *old(self) {
                EditorState::Waypoints { light_id, .. } => *final(self) == (
                EditorState::<S>::Waypoints { light_id, state: WaypointsState::New }),
                _ => *final(self) == *old(self),
            },
    {
        if let EditorState::Waypoints { state, .. } = self {
            *state = WaypointsState::New;
        }
    }

    /// Select a light: the editor goes back to idle.
    pub fn select_light(&mut self)
        ensures
            *final(self) == EditorState::<S>::Idle,
    {
        *self = EditorState::Idle;
    }

    /// Cancel what is in progress: placing stops, a new waypoint is abandoned, a
    /// selected waypoint is deselected, and otherwise the waypoint view closes; when
    /// idle, the selected light should be deselected.
    pub fn cancel(&mut self, selected_waypoint: &mut Option<WaypointId>) -> (res: CancelOutcome)
        ensures
            match *old(self) {
                EditorState::Idle => res == CancelOutcome::DeselectLight && *final(self)
                    == *old(self) && *final(selected_waypoint) == *old(selected_waypoint),
                EditorState::Place { .. } => res == CancelOutcome::Done && *final(self)
                    == EditorState::<S>::Idle && *final(selected_waypoint) == *old(
                    selected_waypoint,
                ),
                EditorState::Waypoints { light_id, state: WaypointsState::New } => res
                    == CancelOutcome::Done && *final(self) == (EditorState::<S>::Waypoints {
                    light_id,
                    state: WaypointsState::Idle,
                }) && *final(selected_waypoint) == *old(selected_waypoint),
                EditorState::Waypoints { state: WaypointsState::Idle, .. } => {
                    &&& res == CancelOutcome::Done
                    &&& *final(selected_waypoint) is None
                    &&& *final(self) == (if (*old(selected_waypoint)) is Some {
                        *old(self)
                    } else {
                        EditorState::<S>::Idle
                    })
                },
                EditorState::Playing { .. } => res == CancelOutcome::Done && *final(self)
                    == *old(self) && *final(selected_waypoint) == *old(selected_waypoint),
            },
    {
        match self {
            EditorState::Idle => CancelOutcome::DeselectLight,
            EditorState::Place { .. } => {
                *self = EditorState::Idle;
                CancelOutcome::Done
            },
            EditorState::Waypoints { state, .. } => {
                match state {
                    WaypointsState::Idle => {
                        if selected_waypoint.take().is_some() {
                            return CancelOutcome::Done;
                        }
                        *self = EditorState::Idle;
                    },
                    WaypointsState::New => *state = WaypointsState::Idle,
                }
                CancelOutcome::Done
            },
            EditorState::Playing { .. } => CancelOutcome::Done,
        }
    }

    /// The state after toggling the danger of the light being placed.
    pub open spec fn danger_placement_toggled(self) -> EditorState<S> {
        match self {
            EditorState::Place { shape, danger } => EditorState::Place { shape, danger: !danger },
            _ => self,
        }
    }

    /// The state after toggling the waypoint view with `selected_light` selected.
    pub open spec fn waypoints_toggled(self, selected_light: Option<LightId>) -> EditorState<S> {
        match (self, selected_light) {
            (EditorState::Idle, Some(light_id)) => EditorState::Waypoints {
                light_id,
                state: WaypointsState::Idle,
            },
            (EditorState::Waypoints { .. }, _) => EditorState::Idle,
            _ => self,
        }
    }

    /// The state after starting to place a new waypoint.
    pub open spec fn waypoint_started(self) -> EditorState<S> {
        match self {
            EditorState::Waypoints { light_id, .. } => EditorState::Waypoints {
                light_id,
                state: WaypointsState::New,
            },
            _ => self,
        }
    }

    /// The state, selected waypoint and outcome after cancelling.
    pub open spec fn cancelled(self, selected_waypoint: Option<WaypointId>) -> (
        EditorState<S>,
        Option<WaypointId>,
        CancelOutcome,
    ) {
        match self {
            EditorState::Idle => (self, selected_waypoint, CancelOutcome::DeselectLight),
            EditorState::Place { .. } => (EditorState::Idle, selected_waypoint, CancelOutcome::Done),
            EditorState::Waypoints { light_id, state: WaypointsState::New } => (
                EditorState::Waypoints { light_id, state: WaypointsState::Idle },
                selected_waypoint,
                CancelOutcome::Done,
            ),
            EditorState::Waypoints { state: WaypointsState::Idle, .. } => (
                if selected_waypoint is Some {
                    self
                } else {
                    EditorState::Idle
                },
                None,
                CancelOutcome::Done,
            ),
            EditorState::Playing { .. } => (self, selected_waypoint, CancelOutcome::Done),
        }
    }

    /// The state after starting to play.
    pub open spec fn started(self, start_time: Time, start_target_time: Time) -> EditorState<S> {
        EditorState::Playing { start_time, start_target_time, old_state: Box::new(self) }
    }

    /// The state after stopping, and the times playing started from (if it was playing).
    pub open spec fn stopped(self) -> (EditorState<S>, Option<(Time, Time)>) {
        match self {
            EditorState::Playing { start_time, start_target_time, old_state } => (
                *old_state,
                Some((start_time, start_target_time)),
            ),
            _ => (self, None),
        }
    }

    /// Start playing from the current time, remembering the state to return to.
    pub fn start_playing(&mut self, start_time: Time, start_target_time: Time)
        ensures
            *final(self) == old(self).started(start_time, start_target_time),
    {
        let mut old_state = EditorState::Idle;
        std::mem::swap(&mut old_state, self);
        *self = EditorState::Playing { start_time, start_target_time, old_state: Box::new(old_state) };
    }

    /// Stop playing: the remembered state comes back, and the times playing started
    /// from are returned (for the time cursor to go back to).
    pub fn stop_playing(&mut self) -> (res: Option<(Time, Time)>)
        ensures
            (*final(self), res) == old(self).stopped(),
    {
        let mut current = EditorState::Idle;
        std::mem::swap(&mut current, self);
        match current {
            EditorState::Playing { start_time, start_target_time, old_state } => {
                *self = *old_state;
                Some((start_time, start_target_time))
            },
            other => {
                *self = other;
                None
            },
        }
    }
}

/// Stopping right after starting to play gives back the state and the start times.
pub proof fn law_stop_undoes_start<S>(state: EditorState<S>, start_time: Time, target: Time)
    ensures
        state.started(start_time, target).stopped() == (state, Some((start_time, target))),
{
}

/// An action of the editor that waits for the player's confirmation.
#[derive(Debug, Clone, Copy, PartialEq, Eq, Structural)]
pub enum ConfirmAction {
    ExitUnsaved,
    ChangeLevelUnsaved(usize),
    DeleteLevel(usize),
}

impl ConfirmAction {
    /// The question a confirmation popup asks for the action.
    pub fn title(&self) -> (res: &'static str)
        ensures
            res@ == (match self {
                ConfirmAction::ExitUnsaved => "Exit the editor?"@,
                ConfirmAction::ChangeLevelUnsaved(_) => "Switch to another difficulty?"@,
                ConfirmAction::DeleteLevel(_) => "Delete this difficulty?"@,
            }),
    {
        match self {
            ConfirmAction::ExitUnsaved => "Exit the editor?",
            ConfirmAction::ChangeLevelUnsaved(_) => "Switch to another difficulty?",
            ConfirmAction::DeleteLevel(_) => "Delete this difficulty?",
        }
    }
}

/// The editor's configuration panel. It keeps no state of its own.
pub struct EditorConfigUi {}

impl EditorConfigUi {
    pub fn new() -> (res: Self) {
        EditorConfigUi {  }
    }
}

/// The levels (difficulties) of the group open in the editor, and which one is being edited.
pub struct GroupLevels<L> {
    pub levels: Vec<L>,
    /// Index of the level open in the level editor.
    pub active: Option<usize>,
}

impl<L> GroupLevels<L> {
    /// Delete a level. If it is the one being edited, the level editor closes first.
    /// Returns whether the index was valid.
    pub fn delete_level(&mut self, level_index: usize) -> (deleted: bool)
        ensures
            deleted == (level_index < old(self).levels@.len()),
            final(self).active == (if old(self).active == Some(level_index) {
                None
            } else {
                old(self).active
            }),
            deleted ==> final(self).levels@ == old(self).levels@.remove(level_index as int),
            !deleted ==> final(self).levels@ == old(self).levels@,
    {
        if self.active == Some(level_index) {
            self.active = None;
        }
        if level_index >= self.levels.len() {
            return false;
        }
        self.levels.remove(level_index);
        true
    }

    /// Swap two levels; the level being edited stays open under its new index.
    /// Returns whether both indices were valid (otherwise nothing changes).
    pub fn swap_levels(&mut self, i: usize, j: usize) -> (swapped: bool)
        ensures
            swapped == (i < old(self).levels@.len() && j < old(self).levels@.len()),
            !swapped ==> final(self).levels@ == old(self).levels@ && final(self).active == old(
                self,
            ).active,
            swapped ==> {
                &&& final(self).levels@ == old(self).levels@.update(
                    i as int,
                    old(self).levels@[j as int],
                ).update(j as int, old(self).levels@[i as int])
                &&& final(self).active == (match old(self).active {
                    Some(a) => Some(
                        if a == i {
                            j
                        } else if a == j {
                            i
                        } else {
                            a
                        },
                    ),
                    None => None,
                })
            },
    {
        let n = self.levels.len();
        if i >= n || j >= n {
            return false;
        }
        let ghost before = self.levels@;
        if i != j {
            let (lo, hi) = if i < j {
                (i, j)
            } else {
                (j, i)
            };
            let b = self.levels.remove(hi);
            let a = self.levels.remove(lo);
            self.levels.insert(lo, b);
            self.levels.insert(hi, a);
            assert(self.levels@ =~= before.update(i as int, before[j as int]).update(
                j as int,
                before[i as int],
            ));
        } else {
            assert(self.levels@ =~= before.update(i as int, before[j as int]).update(
                j as int,
                before[i as int],
            ));
        }
        if let Some(active) = self.active {
            if i == active {
                self.active = Some(j);
            } else if j == active {
                self.active = Some(i);
            }
        }
        true
    }

    /// Move a level one place lower (towards index 0).
    pub fn move_level_low(&mut self, level_index: usize) -> (moved: bool)
        ensures
            moved == (0 < level_index < old(self).levels@.len()),
            moved ==> final(self).levels@ == old(self).levels@.update(
                level_index as int,
                old(self).levels@[level_index - 1],
            ).update(level_index - 1, old(self).levels@[level_index as int]),
            moved ==> final(self).active == (match old(self).active {
                Some(a) => Some(
                    if a == level_index {
                        (level_index - 1) as usize
                    } else if a == (level_index - 1) as usize {
                        level_index
                    } else {
                        a
                    },
                ),
                None => None,
            }),
            !moved ==> final(self).levels@ == old(self).levels@ && final(self).active == old(
                self,
            ).active,
    {
        if level_index == 0 {
            return false;
        }
        self.swap_levels(level_index, level_index - 1)
    }

    /// Move a level one place higher.
    pub fn move_level_high(&mut self, level_index: usize) -> (moved: bool)
        requires
            level_index < usize::MAX,
        ensures
            moved == (level_index + 1 < old(self).levels@.len()),
            moved ==> final(self).levels@ == old(self).levels@.update(
                level_index as int,
                old(self).levels@[level_index + 1],
            ).update(level_index + 1, old(self).levels@[level_index as int]),
            moved ==> final(self).active == (match old(self).active {
                Some(a) => Some(
                    if a == level_index {
                        (level_index + 1) as usize
                    } else if a == (level_index + 1) as usize {
                        level_index
                    } else {
                        a
                    },
                ),
                None => None,
            }),
            !moved ==> final(self).levels@ == old(self).levels@ && final(self).active == old(
                self,
            ).active,
    {
        self.swap_levels(level_index, level_index + 1)
    }
}

/// Swapping two levels keeps the level being edited open: the active index after the
/// swap points at the same level as before.
pub proof fn law_swap_keeps_active_level<L>(levels: Seq<L>, i: int, j: int, a: int)
    requires
        0 <= i < levels.len(),
        0 <= j < levels.len(),
        0 <= a < levels.len(),
    ensures
        ({
            let swapped = levels.update(i, levels[j]).update(j, levels[i]);
            let a2 = if a == i {
                j
            } else if a == j {
                i
            } else {
                a
            };
            swapped[a2] == levels[a]
        }),
{
}

/// Swapping the same two levels twice gives back the original order.
pub proof fn law_swap_twice_is_identity<L>(levels: Seq<L>, i: int, j: int)
    requires
        0 <= i < levels.len(),
        0 <= j < levels.len(),
    ensures
        ({
            let once = levels.update(i, levels[j]).update(j, levels[i]);
            once.update(i, once[j]).update(j, once[i]) == levels
        }),
{
    let once = levels.update(i, levels[j]).update(j, levels[i]);
    assert(once.update(i, once[j]).update(j, once[i]) =~= levels);
}


/// A light being dragged; `P` is a position.
#[derive(Debug, Clone, Copy)]
pub struct DragLight<P> {
    pub id: LightId,
    pub initial_time: Time,
    pub initial_translation: P,
}

/// What is being dragged in the editor; `Sel` is a selection, `P` a position and
/// `C` a coordinate.
#[derive(Debug)]
pub enum DragTarget<Sel, P, C> {
    SelectionArea { original: Sel, extra: Sel },
    Camera { initial_center: P },
    /// Move the whole light event through time and space.
    Light {
        /// Whether it was the second click on the light.
        double: bool,
        lights: Vec<DragLight<P>>,
    },
    WaypointMove {
        light: LightId,
        waypoint: WaypointId,
        initial_translation: P,
        initial_time: Time,
    },
    WaypointScale { light: LightId, waypoint: WaypointId, initial_scale: C, scale_direction: P },
}

impl<Sel, P, C> DragTarget<Sel, P, C> {
    /// After the waypoints of a light were reordered (`order` lists the original ids in
    /// their new order), a drag that moves the selected waypoint follows it to its new id.
    pub fn retarget_waypoint(&mut self, selected: Option<WaypointId>, order: &Vec<WaypointId>)
        ensures
            match (*old(self), selected) {
                (
                    DragTarget::WaypointMove { light, waypoint, initial_translation, initial_time },
                    Some(s),
                ) => if waypoint == s && order@.contains(waypoint) {
                    exists|i: int|
                        0 <= i < order@.len() && order@[i] == waypoint && *final(self) == (
                        DragTarget::<Sel, P, C>::WaypointMove {
                            light,
                            waypoint: waypoint_at(i),
                            initial_translation,
                            initial_time,
                        })
                } else {
                    *final(self) == *old(self)
                },
                _ => *final(self) == *old(self),
            },
    {
        if let Some(selected) = selected {
            if let DragTarget::WaypointMove { waypoint, .. } = self {
                if *waypoint == selected {
                    if let Some(new_id) = reordered_id(order, *waypoint) {
                        *waypoint = new_id;
                    }
                }
            }
        }
    }
}


/// Undo the last change of the level, unless the editor is playing or placing a light.
/// Returns whether something was undone.
pub fn undo<S, L: Snapshot>(state: &EditorState<S>, history: &mut History<L>, level: &mut L) -> (undone: bool)
    ensures
        undone == (state.history_allowed() && old(history)@.undo.len() > 0),
        undone ==> (final(history)@, final(level)@) == old(history)@.undone(old(level)@),
        !undone ==> final(history)@ == old(history)@ && final(level)@ == old(level)@,
{
    if state.allows_history() {
        history.undo(level)
    } else {
        false
    }
}

/// Redo the last undone change of the level, unless the editor is playing or placing a
/// light. Returns whether something was redone.
pub fn redo<S, L: Snapshot>(state: &EditorState<S>, history: &mut History<L>, level: &mut L) -> (redone: bool)
    ensures
        redone == (state.history_allowed() && old(history)@.redo.len() > 0),
        redone ==> (final(history)@, final(level)@) == old(history)@.redone(old(level)@),
        !redone ==> final(history)@ == old(history)@ && final(level)@ == old(level)@,
{
    if state.allows_history() {
        history.redo(level)
    } else {
        false
    }
}


/// What pressing a digit key asks the level editor to do.
#[derive(Debug, Clone, Copy, PartialEq, Eq)]
pub enum DigitAction<S> {
    /// Start placing a light of this shape.
    NewLight(S),
    /// Start placing a new waypoint.
    NewWaypoint,
}

impl<S: Copy> EditorState<S> {
    /// The action for a digit key: while idle or placing, digit `d` picks the `d`-th
    /// configured shape (0 picks the first); in the waypoint view it starts a new waypoint.
    pub fn digit_action(&self, shapes: &Vec<S>, digit: u8) -> (res: Option<DigitAction<S>>)
        ensures
            res == self.digit_action_spec(shapes@, digit),
    {
        match self {
            EditorState::Idle | EditorState::Place { .. } => {
                let i = (digit as usize).saturating_sub(1);
                if i < shapes.len() {
                    Some(DigitAction::NewLight(shapes[i]))
                } else {
                    None
                }
            },
            EditorState::Waypoints { .. } => Some(DigitAction::NewWaypoint),
            EditorState::Playing { .. } => None,
        }
    }
}

impl<S> EditorState<S> {
    /// What `digit_action` returns.
    pub open spec fn digit_action_spec(self, shapes: Seq<S>, digit: u8) -> Option<DigitAction<S>> {
        match self {
                EditorState::Idle | EditorState::Place { .. } => {
                    let i = if digit == 0 {
                        0
                    } else {
                        digit - 1
                    };
                    if i < shapes.len() {
                        Some(DigitAction::NewLight(shapes[i]))
                    } else {
                        None
                    }
                },
                EditorState::Waypoints { .. } => Some(DigitAction::NewWaypoint),
                EditorState::Playing { .. } => None,
            }
    }
}

/// The time range of a level selected for practice.
#[derive(Debug, Clone, Copy)]
pub struct PracticeRange {
    pub level_duration: Time,
    pub select_from: Time,
    pub select_to: Time,
}

impl PracticeRange {
    /// A fresh selection for a level of the given duration.
    pub fn reload(&mut self, level_duration: Time)
        ensures
            final(self).level_duration == level_duration,
            final(self).select_from == 0,
            final(self).select_to == 0,
    {
        self.level_duration = level_duration;
        self.select_from = 0;
        self.select_to = 0;
    }

    /// The selected range with its ends in order.
    pub fn selected_range(&self) -> (res: (Time, Time))
        ensures
            res.0 == (if self.select_from <= self.select_to {
                self.select_from
            } else {
                self.select_to
            }),
            res.1 == (if self.select_from <= self.select_to {
                self.select_to
            } else {
                self.select_from
            }),
            res.0 <= res.1,
    {
        if self.select_from <= self.select_to {
            (self.select_from, self.select_to)
        } else {
            (self.select_to, self.select_from)
        }
    }
}

} // verus!
