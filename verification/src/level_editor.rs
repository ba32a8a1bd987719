use vstd::prelude::*;

use crate::change::Change;
use crate::editor::{CancelOutcome, EditorState, WaypointsState};
use crate::history::{History, HistoryLabel, HistoryView};
use crate::level::{
    EventView, Level, LevelView, LightEventView, LightId, TimedEventView, WaypointDeletion,
};
use crate::movement::{
    change_in_range, reordered_id, waypoint_at, waypoint_index, MovementView, WaypointId,
};
use crate::snapshot::{Same, Snapshot};
use crate::time::Time;

verus! {

/// An edit of the level or of the editor's state, as one step of an action.
#[derive(Debug, Clone, Copy)]
pub enum EditAction<S> {
    Cancel,
    ToggleWaypointsView,
    /// Start playing from the given current time.
    StartPlaying(Time),
    StopPlaying,
    NewLight(S),
    ToggleDangerPlacement,
    DeleteLight(LightId),
    SelectLight(LightId),
    DeselectLight,
    ToggleDanger(LightId),
    ChangeFadeOut(LightId, Change<Time>),
    ChangeFadeIn(LightId, Change<Time>),
    /// Move a light through time.
    MoveLight(LightId, Change<Time>),
    NewWaypoint,
    DeleteWaypoint(LightId, WaypointId),
    SelectWaypoint(WaypointId),
    DeselectWaypoint,
    /// Change the time of a waypoint, reordering the waypoints by time.
    MoveWaypointTime(LightId, WaypointId, Change<Time>),
}

/// An action of the level editor.
#[derive(Debug, Clone)]
pub enum LevelAction<S> {
    /// One edit, saved in the history with its own label.
    Edit(EditAction<S>),
    /// Several edits that make one undo step, with an optional label.
    List(Option<HistoryLabel>, Vec<EditAction<S>>),
    Undo,
    Redo,
    /// Close the current undo step (only if it has the given label, when one is given).
    FlushChanges(Option<HistoryLabel>),
}

impl<S> EditAction<S> {
    /// Whether the edit has no effect: a change of time by zero.
    pub open spec fn noop(self) -> bool {
        match self {
            EditAction::ChangeFadeOut(_, change) => change == Change::Add(0i64),
            EditAction::ChangeFadeIn(_, change) => change == Change::Add(0i64),
            EditAction::MoveLight(_, change) => change == Change::Add(0i64),
            EditAction::MoveWaypointTime(_, _, change) => change == Change::Add(0i64),
            _ => false,
        }
    }

    /// Whether the values of the edit lie in the accepted time range.
    pub open spec fn in_range(self) -> bool {
        match self {
            EditAction::ChangeFadeOut(_, change) => change_in_range(change),
            EditAction::ChangeFadeIn(_, change) => change_in_range(change),
            EditAction::MoveLight(_, change) => change_in_range(change),
            EditAction::MoveWaypointTime(_, _, change) => change_in_range(change),
            _ => true,
        }
    }

    /// The label the edit is saved under in the history.
    pub open spec fn label(self) -> HistoryLabel {
        match self {
            EditAction::ChangeFadeOut(id, _) => HistoryLabel::FadeOut(id),
            EditAction::ChangeFadeIn(id, _) => HistoryLabel::FadeIn(id),
            EditAction::MoveLight(id, _) => HistoryLabel::MoveLight(id),
            EditAction::MoveWaypointTime(light, waypoint, _) => HistoryLabel::MoveWaypointTime(
                light,
                waypoint,
            ),
            _ => HistoryLabel::Unknown,
        }
    }

    /// Whether the edit has no effect.
    pub fn is_noop(&self) -> (res: bool)
        ensures
            res == self.noop(),
    {
        match self {
            EditAction::ChangeFadeOut(_, change) => change.is_noop(&0),
            EditAction::ChangeFadeIn(_, change) => change.is_noop(&0),
            EditAction::MoveLight(_, change) => change.is_noop(&0),
            EditAction::MoveWaypointTime(_, _, change) => change.is_noop(&0),
            _ => false,
        }
    }

    /// The label the edit is saved under in the history.
    pub fn history_label(&self) -> (res: HistoryLabel)
        ensures
            res == self.label(),
    {
        match self {
            EditAction::ChangeFadeOut(id, _) => HistoryLabel::FadeOut(*id),
            EditAction::ChangeFadeIn(id, _) => HistoryLabel::FadeIn(*id),
            EditAction::MoveLight(id, _) => HistoryLabel::MoveLight(*id),
            EditAction::MoveWaypointTime(light, waypoint, _) => HistoryLabel::MoveWaypointTime(
                *light,
                *waypoint,
            ),
            _ => HistoryLabel::Unknown,
        }
    }
}

/// Whether every edit of a list has no effect.
pub open spec fn all_noop<S>(actions: Seq<EditAction<S>>) -> bool {
    forall|i: int| 0 <= i < actions.len() ==> (#[trigger] actions[i]).noop()
}

/// Whether every edit of a list lies in the accepted time range.
pub open spec fn all_in_range<S>(actions: Seq<EditAction<S>>) -> bool {
    forall|i: int| 0 <= i < actions.len() ==> (#[trigger] actions[i]).in_range()
}

/// The level editor: the level being edited, its history, what the editor is doing,
/// the selected light and waypoint, and the time the editor scrolls to.
pub struct LevelEditor<S, T> {
    pub level: Level<S, T>,
    pub history: History<Level<S, T>>,
    pub state: EditorState<S>,
    pub selected_light: Option<LightId>,
    /// The selected waypoint of the waypoint view.
    pub selected_waypoint: Option<WaypointId>,
    /// The time the editor scrolls to.
    pub scroll_target: Time,
}

/// Mathematical view of a [`LevelEditor`].
pub struct LevelEditorView<S, T> {
    pub level: LevelView<S, T>,
    pub history: HistoryView<LevelView<S, T>>,
    pub state: EditorState<S>,
    pub selected_light: Option<LightId>,
    pub selected_waypoint: Option<WaypointId>,
    pub scroll_target: Time,
}

impl<S, T> View for LevelEditor<S, T> {
    type V = LevelEditorView<S, T>;

    open spec fn view(&self) -> LevelEditorView<S, T> {
        LevelEditorView {
            level: self.level@,
            history: self.history@,
            state: self.state,
            selected_light: self.selected_light,
            selected_waypoint: self.selected_waypoint,
            scroll_target: self.scroll_target,
        }
    }
}

/// After the waypoints of a light were reordered (`order` lists the original ids in
/// their new order), the selected waypoint `q` is the old selection `p` under its new id,
/// or `p` itself when `p` is not listed.
pub open spec fn selection_follows(p: Option<WaypointId>, q: Option<WaypointId>, order: Seq<
    WaypointId,
>) -> bool {
    match p {
        Some(w) => if order.contains(w) {
            exists|i: int|
                0 <= i < order.len() && order[i] == w && q == Some(waypoint_at(i)) && forall|
                    j: int,
                | 0 <= j < i ==> order[j] != w
        } else {
            q == p
        },
        None => q == p,
    }
}

impl<S, T> LevelEditorView<S, T> {
    /// `q` is this editor after the edit `a` (the history is left alone).
    pub open spec fn applies(self, a: EditAction<S>, q: LevelEditorView<S, T>) -> bool {
        let p = self;
        match a {
            EditAction::Cancel => {
                let (state, selected_waypoint, outcome) = p.state.cancelled(p.selected_waypoint);
                if outcome == CancelOutcome::DeselectLight {
                    q == LevelEditorView { selected_light: None, selected_waypoint: None, ..p }
                } else {
                    q == LevelEditorView { state, selected_waypoint, ..p }
                }
            },
            EditAction::ToggleWaypointsView => q == LevelEditorView {
                state: p.state.waypoints_toggled(p.selected_light),
                ..p
            },
            EditAction::StartPlaying(now) => q == LevelEditorView {
                state: p.state.started(now, p.scroll_target),
                ..p
            },
            EditAction::StopPlaying => {
                let (state, start) = p.state.stopped();
                q == LevelEditorView {
                    state,
                    scroll_target: match start {
                        Some((_, target)) => target,
                        None => p.scroll_target,
                    },
                    ..p
                }
            },
            EditAction::NewLight(shape) => q == LevelEditorView {
                state: EditorState::Place { shape, danger: false },
                selected_light: None,
                selected_waypoint: None,
                ..p
            },
            EditAction::ToggleDangerPlacement => q == LevelEditorView {
                state: p.state.danger_placement_toggled(),
                ..p
            },
            EditAction::DeleteLight(id) => if id.event < p.level.events.len() {
                q == LevelEditorView {
                    level: LevelView {
                        events: p.level.events.update(id.event as int, p.level.events.last()).drop_last(),
                    },
                    selected_light: None,
                    ..p
                }
            } else {
                q == p
            },
            EditAction::SelectLight(id) => q == LevelEditorView {
                state: EditorState::Idle,
                selected_light: Some(id),
                selected_waypoint: None,
                ..p
            },
            EditAction::DeselectLight => q == LevelEditorView {
                selected_light: None,
                selected_waypoint: None,
                ..p
            },
            EditAction::ToggleDanger(id) => {
                &&& q == LevelEditorView { level: q.level, ..p }
                &&& if p.level.is_light(id) {
                    let e = p.level.events[id.event as int];
                    let l = e.event->Light_0;
                    &&& p.level.same_except(q.level, id.event as int)
                    &&& q.level.events[id.event as int] == TimedEventView {
                        time: e.time,
                        event: EventView::Light(LightEventView { danger: !l.danger, ..l }),
                    }
                } else {
                    q.level == p.level
                }
            },
            EditAction::ChangeFadeOut(id, change) => {
                &&& q == LevelEditorView { level: q.level, ..p }
                &&& if p.level.is_light(id) {
                    let e = p.level.events[id.event as int];
                    let l = e.event->Light_0;
                    &&& p.level.same_except(q.level, id.event as int)
                    &&& q.level.events[id.event as int] == TimedEventView {
                        time: e.time,
                        event: EventView::Light(
                            LightEventView {
                                movement: MovementView {
                                    fade_out: change.applied(l.movement.fade_out as int) as Time,
                                    ..l.movement
                                },
                                ..l
                            },
                        ),
                    }
                } else {
                    q.level == p.level
                }
            },
            EditAction::ChangeFadeIn(id, change) => {
                &&& q == LevelEditorView { level: q.level, ..p }
                &&& if p.level.is_light(id) {
                    let e = p.level.events[id.event as int];
                    let l = e.event->Light_0;
                    let delta = change.delta_from(l.movement.fade_in as int);
                    &&& p.level.same_except(q.level, id.event as int)
                    &&& q.level.events[id.event as int] == TimedEventView {
                        time: (e.time - delta) as Time,
                        event: EventView::Light(
                            LightEventView {
                                movement: MovementView {
                                    fade_in: (l.movement.fade_in + delta) as Time,
                                    ..l.movement
                                },
                                ..l
                            },
                        ),
                    }
                } else {
                    q.level == p.level
                }
            },
            EditAction::MoveLight(id, change) => {
                &&& q == LevelEditorView { level: q.level, ..p }
                &&& if p.level.is_light(id) {
                    let e = p.level.events[id.event as int];
                    &&& p.level.same_except(q.level, id.event as int)
                    &&& q.level.events[id.event as int] == TimedEventView {
                        time: change.applied(e.time as int) as Time,
                        ..e
                    }
                } else {
                    q.level == p.level
                }
            },
            EditAction::NewWaypoint => q == LevelEditorView {
                state: p.state.waypoint_started(),
                selected_waypoint: None,
                ..p
            },
            EditAction::DeleteWaypoint(light, waypoint) => exists|res: WaypointDeletion|
                {
                    &&& #[trigger] p.level.waypoint_deleted(q.level, light, waypoint, res)
                    &&& q == LevelEditorView {
                        level: q.level,
                        state: if res == WaypointDeletion::LightDeleted {
                            EditorState::Idle
                        } else {
                            p.state
                        },
                        selected_waypoint: None,
                        ..p
                    }
                },
            EditAction::SelectWaypoint(waypoint) => match p.selected_light {
                Some(light) => if p.level.is_light(light) && p.level.movement_of(light).has_index(
                    waypoint_index(waypoint),
                ) {
                    q == LevelEditorView {
                        state: if p.state is Waypoints {
                            p.state
                        } else {
                            EditorState::Waypoints { light_id: light, state: WaypointsState::Idle }
                        },
                        selected_waypoint: Some(waypoint),
                        ..p
                    }
                } else {
                    q == p
                },
                None => q == p,
            },
            EditAction::DeselectWaypoint => q == LevelEditorView { selected_waypoint: None, ..p },
            EditAction::MoveWaypointTime(light, waypoint, change) => exists|
                res: Option<Seq<WaypointId>>,
            |
                {
                    &&& #[trigger] p.level.waypoint_retimed(q.level, light, waypoint, change, res)
                    &&& q == LevelEditorView {
                        level: q.level,
                        selected_waypoint: q.selected_waypoint,
                        ..p
                    }
                    &&& match res {
                        Some(order) => if p.selected_light == Some(light) && p.state is Waypoints {
                            selection_follows(p.selected_waypoint, q.selected_waypoint, order)
                        } else {
                            q.selected_waypoint == p.selected_waypoint
                        },
                        None => q.selected_waypoint == p.selected_waypoint,
                    }
                },
        }
    }

    /// `q` is this editor after the edit `a`, which does nothing when it has no effect.
    pub open spec fn steps_to(self, a: EditAction<S>, q: LevelEditorView<S, T>) -> bool {
        if a.noop() {
            q == self
        } else {
            self.applies(a, q)
        }
    }
}

impl<S: Copy + Same, T: Copy + Same> LevelEditor<S, T> {
    /// A new editor for `level`, idle, with nothing selected.
    pub fn new(level: Level<S, T>) -> (res: Self)
        ensures
            res.level@ == level@,
            res.history@ == (HistoryView {
                buffer: level@,
                label: HistoryLabel::Unknown,
                undo: Seq::<LevelView<S, T>>::empty(),
                redo: Seq::<LevelView<S, T>>::empty(),
            }),
            res.state == EditorState::<S>::Idle,
            res.selected_light is None,
            res.selected_waypoint is None,
            res.scroll_target == 0,
    {
        let history = History::new(&level);
        LevelEditor {
            level,
            history,
            state: EditorState::Idle,
            selected_light: None,
            selected_waypoint: None,
            scroll_target: 0,
        }
    }

    /// Carry out one edit without touching the history.
    fn apply(&mut self, a: EditAction<S>)
        requires
            old(self).level@.fits(),
            a.in_range(),
        ensures
            old(self)@.applies(a, final(self)@),
    {
        match a {
            EditAction::Cancel => {
                let outcome = self.state.cancel(&mut self.selected_waypoint);
                if outcome == CancelOutcome::DeselectLight {
                    self.selected_waypoint = None;
                    self.selected_light = None;
                }
            },
            EditAction::ToggleWaypointsView => self.state.view_waypoints(self.selected_light),
            EditAction::StartPlaying(now) => self.state.start_playing(now, self.scroll_target),
            EditAction::StopPlaying => {
                if let Some((_, target)) = self.state.stop_playing() {
                    self.scroll_target = target;
                }
            },
            EditAction::NewLight(shape) => {
                self.selected_waypoint = None;
                self.selected_light = None;
                self.state.new_light(shape);
            },
            EditAction::ToggleDangerPlacement => self.state.toggle_danger_placement(),
            EditAction::DeleteLight(id) => {
                if self.level.delete_light(id) {
                    self.selected_light = None;
                }
            },
            EditAction::SelectLight(id) => {
                self.selected_waypoint = None;
                self.state.select_light();
                self.selected_light = Some(id);
            },
            EditAction::DeselectLight => {
                self.selected_waypoint = None;
                self.selected_light = None;
            },
            EditAction::ToggleDanger(id) => {
                self.level.toggle_danger(id);
            },
            EditAction::ChangeFadeOut(id, change) => {
                self.level.change_fade_out(id, change);
            },
            EditAction::ChangeFadeIn(id, change) => {
                self.level.change_fade_in(id, change);
            },
            EditAction::MoveLight(id, change) => {
                self.level.move_light_time(id, change);
            },
            EditAction::NewWaypoint => {
                self.selected_waypoint = None;
                self.state.new_waypoint();
            },
            EditAction::DeleteWaypoint(light, waypoint) => {
                let res = self.level.delete_waypoint(light, waypoint);
                if res == WaypointDeletion::LightDeleted {
                    self.state = EditorState::Idle;
                }
                self.selected_waypoint = None;
                assert(old(self)@.level.waypoint_deleted(self@.level, light, waypoint, res));
            },
            EditAction::SelectWaypoint(waypoint) => {
                if let Some(light) = self.selected_light {
                    if self.level.waypoint_time(light, waypoint).is_some() {
                        match self.state {
                            EditorState::Waypoints { .. } => {},
                            _ => {
                                self.state = EditorState::Waypoints {
                                    light_id: light,
                                    state: WaypointsState::Idle,
                                };
                            },
                        }
                        self.selected_waypoint = Some(waypoint);
                    }
                }
            },
            EditAction::DeselectWaypoint => {
                self.selected_waypoint = None;
            },
            EditAction::MoveWaypointTime(light, waypoint, change) => {
                let res = self.level.move_waypoint_time(light, waypoint, change);
                let ghost res_view = match &res {
                    Some(order) => Some(order@),
                    None => None,
                };
                let in_view = match self.state {
                    EditorState::Waypoints { .. } => true,
                    _ => false,
                };
                if let Some(order) = &res {
                    if self.selected_light == Some(light) && in_view {
                        if let Some(selected) = self.selected_waypoint {
                            if let Some(new_id) = reordered_id(order, selected) {
                                self.selected_waypoint = Some(new_id);
                            }
                        }
                    }
                }
                assert(old(self)@.level.waypoint_retimed(
                    self@.level,
                    light,
                    waypoint,
                    change,
                    res_view,
                ));
            },
        }
    }

    /// Carry out an action.
    ///
    /// An edit that has no effect does nothing. Otherwise an edit changes the level or the
    /// editor's state and is saved in the history under its label (consecutive edits with
    /// the same label make one undo step). Undo and redo work unless the editor is playing
    /// or placing a light. A list first closes the current undo step, then carries out its
    /// edits in order and saves all of them as one undo step with the list's label, which
    /// it closes again. A list stops early if an edit moved the level out of the accepted
    /// time range.
    pub fn execute(&mut self, action: LevelAction<S>)
        requires
            old(self).level@.fits(),
            match action {
                LevelAction::Edit(a) => a.in_range(),
                LevelAction::List(_, actions) => all_in_range(actions@),
                _ => true,
            },
        ensures
            match action {
                LevelAction::Edit(a) => if a.noop() {
                    final(self)@ == old(self)@
                } else {
                    &&& old(self)@.applies(a, LevelEditorView { history: old(self)@.history, ..final(self)@ })
                    &&& final(self)@.history == old(self)@.history.saved(final(self)@.level, a.label())
                },
                LevelAction::List(label, actions) => if all_noop(actions@) {
                    final(self)@ == old(self)@
                } else {
                    let start = old(self)@.history.flushed(old(self)@.level);
                    let lab = match label {
                        Some(l) => l,
                        None => HistoryLabel::Unknown,
                    };
                    exists|steps: Seq<LevelEditorView<S, T>>|
                        {
                            &&& 1 <= steps.len() <= actions@.len() + 1
                            &&& steps[0] == LevelEditorView { history: start, ..old(self)@ }
                            &&& forall|i: int|
                                0 <= i < steps.len() - 1 ==> #[trigger] steps[i].steps_to(
                                    actions@[i],
                                    steps[i + 1],
                                )
                            &&& steps.len() < actions@.len() + 1 ==> !steps.last().level.fits()
                            &&& final(self)@ == LevelEditorView {
                                history: start.saved(steps.last().level, lab).flushed(
                                    steps.last().level,
                                ),
                                ..steps.last()
                            }
                        }
                },
                LevelAction::Undo => {
                    let undone = old(self).state.history_allowed() && old(self)@.history.undo.len() > 0;
                    &&& undone ==> (final(self)@.history, final(self)@.level) == old(self)@.history.undone(old(self)@.level)
                    &&& !undone ==> final(self)@ == old(self)@
                    &&& final(self)@ == LevelEditorView { history: final(self)@.history, level: final(self)@.level, ..old(self)@ }
                },
                LevelAction::Redo => {
                    let redone = old(self).state.history_allowed() && old(self)@.history.redo.len() > 0;
                    &&& redone ==> (final(self)@.history, final(self)@.level) == old(self)@.history.redone(old(self)@.level)
                    &&& !redone ==> final(self)@ == old(self)@
                    &&& final(self)@ == LevelEditorView { history: final(self)@.history, level: final(self)@.level, ..old(self)@ }
                },
                LevelAction::FlushChanges(label) => if label is None || label == Some(old(self)@.history.label) {
                    final(self)@ == LevelEditorView { history: old(self)@.history.flushed(old(self)@.level), ..old(self)@ }
                } else {
                    final(self)@ == old(self)@
                },
            },
    {
        match action {
            LevelAction::Edit(a) => {
                if a.is_noop() {
                    return;
                }
                self.apply(a);
                let label = a.history_label();
                self.history.save_state(&self.level, label);
            },
            LevelAction::List(label, actions) => {
                let n = actions.len();
                let mut all: bool = true;
                let mut k: usize = 0;
                while k < n
                    invariant
                        0 <= k <= n,
                        n == actions@.len(),
                        all == forall|i: int| 0 <= i < k ==> (#[trigger] actions@[i]).noop(),
                    decreases n - k,
                {
                    if !actions[k].is_noop() {
                        all = false;
                    }
                    k = k + 1;
                }
                if all {
                    return;
                }
                self.history.flush(&self.level);
                let ghost start = self@;
                let ghost mut steps: Seq<LevelEditorView<S, T>> = seq![self@];
                let mut i: usize = 0;
                let mut fits = true;
                while i < n && fits
                    invariant
                        0 <= i <= n,
                        n == actions@.len(),
                        all_in_range(actions@),
                        fits == self.level@.fits(),
                        steps.len() == i + 1,
                        steps[0] == start,
                        steps.last() == self@,
                        self@.history == start.history,
                        forall|j: int|
                            0 <= j < steps.len() - 1 ==> #[trigger] steps[j].steps_to(
                                actions@[j],
                                steps[j + 1],
                            ),
                    decreases n - i,
                {
                    let a = actions[i];
                    assert(actions@[i as int] == a);
                    if !a.is_noop() {
                        self.apply(a);
                    }
                    proof {
                        let prev = steps;
                        steps = steps.push(self@);
                        assert forall|j: int| 0 <= j < steps.len() - 1 implies #[trigger] steps[j].steps_to(
                            actions@[j],
                            steps[j + 1],
                        ) by {
                            if j < prev.len() - 1 {
                                assert(steps[j] == prev[j]);
                                assert(steps[j + 1] == prev[j + 1]);
                            } else {
                                assert(steps[j] == prev.last());
                            }
                        }
                    }
                    fits = self.level.fits_range();
                    i = i + 1;
                }
                let lab = match label {
                    Some(l) => l,
                    None => HistoryLabel::Unknown,
                };
                self.history.save_state(&self.level, lab);
                self.history.flush(&self.level);
                assert(steps.len() < actions@.len() + 1 ==> !steps.last().level.fits());
            },
            LevelAction::Undo => {
                crate::editor::undo(&self.state, &mut self.history, &mut self.level);
            },
            LevelAction::Redo => {
                crate::editor::redo(&self.state, &mut self.history, &mut self.level);
            },
            LevelAction::FlushChanges(label) => {
                let matches = match label {
                    None => true,
                    Some(l) => l == self.history.buffer_label,
                };
                if matches {
                    self.history.flush(&self.level);
                }
            },
        }
    }
}

} // verus!
