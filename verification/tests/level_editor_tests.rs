use close_to_light::change::Change;
use close_to_light::editor::{EditorState, WaypointsState};
use close_to_light::history::HistoryLabel;
use close_to_light::input::{EditorCommand, EditorKey, KeyModifiers, ScrollSpeed};
use close_to_light::level::{Event, Level, LightEvent, LightId, TimedEvent};
use close_to_light::level_editor::{EditAction, LevelAction, LevelEditor};
use close_to_light::light::{render_light, Light, Telegraph};
use close_to_light::movement::{MoveFrame, Movement, WaypointId};

fn movement(frames: &[(i64, i64)]) -> Movement<i64> {
    Movement {
        fade_in: 1000,
        fade_out: 1000,
        initial: 0,
        key_frames: frames
            .iter()
            .map(|&(lerp_time, transform)| MoveFrame { lerp_time, transform })
            .collect(),
    }
}

fn light(time: i64, m: Movement<i64>) -> TimedEvent<u32, i64> {
    TimedEvent { time, event: Event::Light(LightEvent { shape: 1, movement: m, danger: false }) }
}

fn editor() -> LevelEditor<u32, i64> {
    LevelEditor::new(Level {
        events: vec![light(0, movement(&[(500, 1), (500, 2)])), light(5000, movement(&[]))],
    })
}

fn light_movement(e: &LevelEditor<u32, i64>, i: usize) -> &Movement<i64> {
    match &e.level.events[i].event {
        Event::Light(l) => &l.movement,
        Event::PaletteSwap => panic!("not a light"),
    }
}

const L0: LightId = LightId { event: 0 };
const L1: LightId = LightId { event: 1 };

fn no_mods() -> KeyModifiers {
    KeyModifiers { ctrl: false, shift: false, alt: false }
}

#[test]
fn level_editor_noop_edit_changes_nothing() {
    let mut e = editor();
    e.execute(LevelAction::Edit(EditAction::MoveLight(L0, Change::Add(0))));
    assert_eq!(e.level.events[0].time, 0);
    assert!(e.history.undo_stack.is_empty());
}

#[test]
fn level_editor_edit_is_saved_and_undone() {
    let mut e = editor();
    e.execute(LevelAction::Edit(EditAction::MoveLight(L0, Change::Add(200))));
    assert_eq!(e.level.events[0].time, 200);
    assert_eq!(e.history.undo_stack.len(), 1);
    assert_eq!(e.history.buffer_label, HistoryLabel::MoveLight(L0));
    // The same label merges into the same undo step.
    e.execute(LevelAction::Edit(EditAction::MoveLight(L0, Change::SetTo(700))));
    assert_eq!(e.level.events[0].time, 700);
    assert_eq!(e.history.undo_stack.len(), 1);
    e.execute(LevelAction::Undo);
    assert_eq!(e.level.events[0].time, 0);
    e.execute(LevelAction::Redo);
    assert_eq!(e.level.events[0].time, 700);
}

#[test]
fn level_editor_list_is_one_undo_step() {
    let mut e = editor();
    e.execute(LevelAction::List(
        None,
        vec![EditAction::ToggleDanger(L0), EditAction::MoveLight(L1, Change::Add(100))],
    ));
    assert_eq!(e.level.events[1].time, 5100);
    assert_eq!(e.history.undo_stack.len(), 1);
    assert_eq!(e.history.buffer_label, HistoryLabel::Unknown);
    e.execute(LevelAction::Undo);
    assert_eq!(e.level.events[1].time, 5000);
    match &e.level.events[0].event {
        Event::Light(l) => assert!(!l.danger),
        Event::PaletteSwap => panic!("not a light"),
    }
}

#[test]
fn level_editor_fades() {
    let mut e = editor();
    e.execute(LevelAction::Edit(EditAction::ChangeFadeIn(L0, Change::SetTo(1500))));
    // The event starts earlier so that the waypoints keep their times.
    assert_eq!(light_movement(&e, 0).fade_in, 1500);
    assert_eq!(e.level.events[0].time, -500);
    assert_eq!(e.level.waypoint_time(L0, WaypointId::Initial), Some(1000));
    e.execute(LevelAction::Edit(EditAction::ChangeFadeOut(L0, Change::Add(-400))));
    assert_eq!(light_movement(&e, 0).fade_out, 600);
    assert_eq!(e.history.buffer_label, HistoryLabel::FadeOut(L0));
}

#[test]
fn level_editor_delete_clears_selection() {
    let mut e = editor();
    e.execute(LevelAction::Edit(EditAction::SelectLight(L0)));
    assert_eq!(e.selected_light, Some(L0));
    e.execute(LevelAction::Edit(EditAction::SelectWaypoint(WaypointId::Frame(1))));
    assert_eq!(e.selected_waypoint, Some(WaypointId::Frame(1)));
    assert!(matches!(
        e.state,
        EditorState::Waypoints { light_id: L0, state: WaypointsState::Idle }
    ));
    e.execute(LevelAction::Edit(EditAction::DeleteWaypoint(L0, WaypointId::Frame(1))));
    assert_eq!(e.selected_waypoint, None);
    assert_eq!(light_movement(&e, 0).key_frames.len(), 1);
    e.execute(LevelAction::Edit(EditAction::DeleteLight(L0)));
    assert_eq!(e.selected_light, None);
    assert_eq!(e.level.events.len(), 1);
    assert_eq!(e.level.events[0].time, 5000);
}

#[test]
fn level_editor_move_waypoint_time_follows_selection() {
    let mut e = editor();
    e.execute(LevelAction::Edit(EditAction::SelectLight(L0)));
    e.execute(LevelAction::Edit(EditAction::SelectWaypoint(WaypointId::Initial)));
    // Initial waypoint at 1000 moves after both frames (1500, 2000).
    e.execute(LevelAction::Edit(EditAction::MoveWaypointTime(
        L0,
        WaypointId::Initial,
        Change::SetTo(2500),
    )));
    assert_eq!(e.selected_waypoint, Some(WaypointId::Frame(1)));
    assert_eq!(e.level.waypoint_time(L0, WaypointId::Frame(1)), Some(2500));
}

#[test]
fn level_editor_flush_changes_with_label() {
    let mut e = editor();
    e.execute(LevelAction::Edit(EditAction::MoveLight(L0, Change::Add(100))));
    e.execute(LevelAction::FlushChanges(Some(HistoryLabel::FadeIn(L0))));
    assert_eq!(e.history.buffer_label, HistoryLabel::MoveLight(L0));
    e.execute(LevelAction::FlushChanges(Some(HistoryLabel::MoveLight(L0))));
    assert_eq!(e.history.buffer_label, HistoryLabel::Unknown);
    e.execute(LevelAction::Edit(EditAction::MoveLight(L0, Change::Add(100))));
    assert_eq!(e.history.undo_stack.len(), 2);
}

#[test]
fn level_editor_play_and_stop_restores_target() {
    let mut e = editor();
    e.scroll_target = 1234;
    e.execute(LevelAction::Edit(EditAction::StartPlaying(1200)));
    assert!(matches!(e.state, EditorState::Playing { .. }));
    e.scroll_target = 9999;
    e.execute(LevelAction::Edit(EditAction::StopPlaying));
    assert_eq!(e.scroll_target, 1234);
    assert!(matches!(e.state, EditorState::Idle));
}

#[test]
fn editor_key_commands() {
    let state: EditorState<u32> = EditorState::Idle;
    let none: Vec<LightId> = vec![];
    let some = vec![L0];
    let shapes = vec![7u32, 8];
    let ctrl = KeyModifiers { ctrl: true, ..no_mods() };
    let shift = KeyModifiers { shift: true, ..no_mods() };
    let k = |key, m, sel: &Vec<LightId>| state.key_command(key, m, false, true, sel, None, &shapes);
    assert_eq!(k(EditorKey::ArrowLeft, shift, &none), Some(EditorCommand::ScrollTimeBy(ScrollSpeed::Slow, -1)));
    assert_eq!(k(EditorKey::Z, ctrl, &none), Some(EditorCommand::Undo));
    assert_eq!(
        k(EditorKey::Z, KeyModifiers { ctrl: true, shift: true, alt: false }, &none),
        Some(EditorCommand::Redo)
    );
    assert_eq!(k(EditorKey::X, no_mods(), &none), None);
    assert_eq!(k(EditorKey::X, no_mods(), &some), Some(EditorCommand::DeleteSelection));
    assert_eq!(k(EditorKey::H, no_mods(), &none), Some(EditorCommand::ToggleUi));
    assert_eq!(k(EditorKey::Q, no_mods(), &some), Some(EditorCommand::RotateSelection(15)));
    assert_eq!(k(EditorKey::Digit(2), no_mods(), &none), Some(EditorCommand::NewLight(8)));
    assert_eq!(k(EditorKey::Digit(3), no_mods(), &none), None);
    assert_eq!(k(EditorKey::Space, no_mods(), &none), Some(EditorCommand::StartPlaying));
    // Text editing swallows keys but Escape and Enter.
    assert_eq!(state.key_command(EditorKey::W, no_mods(), true, true, &none, None, &shapes), None);
    assert_eq!(
        state.key_command(EditorKey::Enter, no_mods(), true, true, &none, None, &shapes),
        Some(EditorCommand::StopTextEdit)
    );
    // No level open: nothing.
    assert_eq!(state.key_command(EditorKey::W, no_mods(), false, false, &none, None, &shapes), None);
    // Waypoint view with a selected waypoint: X deletes it, E rotates it.
    let wp = Some((L1, Some(WaypointId::Frame(0))));
    assert_eq!(
        state.key_command(EditorKey::X, no_mods(), false, true, &some, wp, &shapes),
        Some(EditorCommand::DeleteWaypoint(L1, WaypointId::Frame(0)))
    );
    assert_eq!(
        state.key_command(EditorKey::E, no_mods(), false, true, &some, wp, &shapes),
        Some(EditorCommand::RotateWaypoint(L1, WaypointId::Frame(0), -15))
    );
    let placing: EditorState<u32> = EditorState::Place { shape: 1, danger: false };
    assert_eq!(
        placing.key_command(EditorKey::D, no_mods(), false, true, &some, None, &shapes),
        Some(EditorCommand::ToggleDangerPlacement)
    );
}

#[test]
fn render_light_builds_event_light() {
    let tele = Telegraph { precede_time: 500, speed: 3u32 };
    let (t, l) = render_light(9u32, true, tele, 2000, 700, Some(4), 11u32, 12u32);
    let t = t.unwrap();
    assert_eq!(t.light.collider, 11);
    assert_eq!(t.light.event_id, Some(4));
    assert!(t.light.danger);
    assert_eq!(t.speed, 3);
    assert_eq!(t.lifetime, 0);
    let l: Light<u32> = l.unwrap();
    assert_eq!(l.collider, 12);
    assert_eq!(l.base_collider, 9);
    assert_eq!(l.event_id, Some(4));
    let (t, l) = render_light(9u32, false, tele, 2000, 400, None, 11u32, 12u32);
    assert!(t.is_some());
    assert!(l.is_none());
    let (t, l) = render_light(9u32, false, tele, 2000, 2200, None, 11u32, 12u32);
    assert!(t.is_none());
    assert!(l.is_some());
}

#[test]
fn level_fits_range() {
    let e = editor();
    assert!(e.level.fits_range());
    let far = Level { events: vec![light(i64::MAX, movement(&[]))] };
    assert!(!far.fits_range());
    let long = Level { events: vec![light(0, movement(&[(i64::MAX, 1)]))] };
    assert!(!long.fits_range());
}
