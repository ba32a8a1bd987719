use close_to_light::editor::{
    CancelOutcome, ConfirmAction, DragLight, DragTarget, EditorConfigUi, EditorState,
    GroupLevels, WaypointsState,
};
use close_to_light::level::LightId;
use close_to_light::movement::WaypointId;

type State = EditorState<u32>;

fn is_idle(s: &State) -> bool {
    matches!(s, EditorState::Idle)
}

#[test]
fn editor_view_waypoints_toggles() {
    let mut s: State = EditorState::Idle;
    s.view_waypoints(None);
    assert!(is_idle(&s));
    s.view_waypoints(Some(LightId { event: 2 }));
    assert!(matches!(
        s,
        EditorState::Waypoints { light_id: LightId { event: 2 }, state: WaypointsState::Idle }
    ));
    s.view_waypoints(None);
    assert!(is_idle(&s));
}

#[test]
fn editor_new_light_and_danger_toggle() {
    let mut s: State = EditorState::Idle;
    s.new_light(5);
    assert!(matches!(s, EditorState::Place { shape: 5, danger: false }));
    s.toggle_danger_placement();
    assert!(matches!(s, EditorState::Place { shape: 5, danger: true }));
    assert!(!s.allows_history());
}

#[test]
fn editor_cancel_steps() {
    let mut selected = Some(WaypointId::Frame(0));
    let mut s: State = EditorState::Idle;
    assert_eq!(s.cancel(&mut selected), CancelOutcome::DeselectLight);

    s.new_light(1);
    assert_eq!(s.cancel(&mut selected), CancelOutcome::Done);
    assert!(is_idle(&s));

    let light = LightId { event: 0 };
    s = EditorState::Waypoints { light_id: light, state: WaypointsState::New };
    assert_eq!(s.cancel(&mut selected), CancelOutcome::Done);
    assert!(matches!(s, EditorState::Waypoints { state: WaypointsState::Idle, .. }));
    assert_eq!(selected, Some(WaypointId::Frame(0)));

    // First cancel deselects the waypoint, the second closes the view.
    assert_eq!(s.cancel(&mut selected), CancelOutcome::Done);
    assert_eq!(selected, None);
    assert!(matches!(s, EditorState::Waypoints { .. }));
    assert_eq!(s.cancel(&mut selected), CancelOutcome::Done);
    assert!(is_idle(&s));
}

#[test]
fn editor_new_waypoint() {
    let mut s: State = EditorState::Waypoints { light_id: LightId { event: 1 }, state: WaypointsState::Idle };
    s.new_waypoint();
    assert!(matches!(s, EditorState::Waypoints { state: WaypointsState::New, .. }));
    let mut idle: State = EditorState::Idle;
    idle.new_waypoint();
    assert!(is_idle(&idle));
}

#[test]
fn editor_play_and_stop() {
    let mut s: State = EditorState::Waypoints { light_id: LightId { event: 1 }, state: WaypointsState::New };
    s.start_playing(1500, 2000);
    assert!(!s.allows_history());
    assert_eq!(s.stop_playing(), Some((1500, 2000)));
    assert!(matches!(s, EditorState::Waypoints { light_id: LightId { event: 1 }, state: WaypointsState::New }));
    assert_eq!(s.stop_playing(), None);
    assert!(s.allows_history());
}

#[test]
fn editor_confirm_titles() {
    assert_eq!(ConfirmAction::ExitUnsaved.title(), "Exit the editor?");
    assert_eq!(ConfirmAction::ChangeLevelUnsaved(1).title(), "Switch to another difficulty?");
    assert_eq!(ConfirmAction::DeleteLevel(0).title(), "Delete this difficulty?");
    let _ui = EditorConfigUi::new();
}

#[test]
fn editor_swap_levels_tracks_active() {
    let mut g = GroupLevels { levels: vec!["easy", "normal", "hard"], active: Some(0) };
    assert!(g.swap_levels(0, 2));
    assert_eq!(g.levels, vec!["hard", "normal", "easy"]);
    assert_eq!(g.active, Some(2));
    assert_eq!(g.levels[g.active.unwrap()], "easy");
    assert!(!g.swap_levels(0, 3));
    assert!(g.swap_levels(0, 2));
    assert_eq!(g.levels, vec!["easy", "normal", "hard"]);
    assert_eq!(g.active, Some(0));
}

#[test]
fn editor_move_levels() {
    let mut g = GroupLevels { levels: vec![1, 2, 3], active: Some(1) };
    assert!(!g.move_level_low(0));
    assert!(g.move_level_low(1));
    assert_eq!(g.levels, vec![2, 1, 3]);
    assert_eq!(g.active, Some(0));
    assert!(g.move_level_high(1));
    assert_eq!(g.levels, vec![2, 3, 1]);
    assert!(!g.move_level_high(2));
}

#[test]
fn editor_delete_level() {
    let mut g = GroupLevels { levels: vec![1, 2, 3], active: Some(1) };
    assert!(g.delete_level(1));
    assert_eq!(g.levels, vec![1, 3]);
    assert_eq!(g.active, None);
    assert!(!g.delete_level(5));
    assert_eq!(g.levels, vec![1, 3]);
}

#[test]
fn editor_drag_follows_reordered_waypoint() {
    let order = vec![WaypointId::Initial, WaypointId::Frame(1), WaypointId::Frame(0)];
    let mut drag: DragTarget<(), (i32, i32), i32> = DragTarget::WaypointMove {
        light: LightId { event: 0 },
        waypoint: WaypointId::Frame(1),
        initial_translation: (0, 0),
        initial_time: 100,
    };
    drag.retarget_waypoint(Some(WaypointId::Frame(1)), &order);
    assert!(matches!(drag, DragTarget::WaypointMove { waypoint: WaypointId::Frame(0), .. }));
    // A drag of another waypoint than the selected one stays.
    drag.retarget_waypoint(Some(WaypointId::Initial), &order);
    assert!(matches!(drag, DragTarget::WaypointMove { waypoint: WaypointId::Frame(0), .. }));
    let mut lights: DragTarget<(), (i32, i32), i32> = DragTarget::Light {
        double: false,
        lights: vec![DragLight { id: LightId { event: 0 }, initial_time: 0, initial_translation: (1, 1) }],
    };
    lights.retarget_waypoint(Some(WaypointId::Initial), &order);
    assert!(matches!(lights, DragTarget::Light { double: false, .. }));
}
