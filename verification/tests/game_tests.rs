use close_to_light::config::LevelModifiers;
use close_to_light::editor::{DigitAction, EditorState, PracticeRange, WaypointsState};
use close_to_light::game::{playing_outcome, GamePhase, PlayOutcome, Transition};
use close_to_light::level::LightId;

#[test]
fn game_playing_outcome() {
    let mods = LevelModifiers::default();
    assert_eq!(playing_outcome(true, &mods, true), PlayOutcome::Finish);
    assert_eq!(playing_outcome(false, &mods, true), PlayOutcome::Lose);
    assert_eq!(playing_outcome(false, &mods, false), PlayOutcome::Continue);
    let nofail = LevelModifiers { nofail: true, ..mods };
    assert_eq!(playing_outcome(false, &nofail, true), PlayOutcome::Continue);
    let auto = LevelModifiers { clean_auto: true, ..mods };
    assert_eq!(playing_outcome(false, &auto, true), PlayOutcome::Continue);
}

#[test]
fn game_phase_transitions() {
    let mut phase = GamePhase::Starting { music_start_time: 0 };
    assert!(!phase.clock_runs());
    phase.start();
    assert_eq!(phase, GamePhase::Playing);
    assert!(phase.clock_runs());
    assert_eq!(phase.ignore_time(), None);
    assert_eq!(phase.lose(4200), Transition::LoadLeaderboard { submit_score: false });
    assert_eq!(phase.ignore_time(), Some(4200));
    assert_eq!(phase.finish(), Transition::LoadLeaderboard { submit_score: true });
    assert_eq!(phase, GamePhase::Finished);
}

#[test]
fn editor_digit_actions() {
    let shapes = vec![10u32, 20, 30];
    let idle: EditorState<u32> = EditorState::Idle;
    assert_eq!(idle.digit_action(&shapes, 1), Some(DigitAction::NewLight(10)));
    assert_eq!(idle.digit_action(&shapes, 0), Some(DigitAction::NewLight(10)));
    assert_eq!(idle.digit_action(&shapes, 3), Some(DigitAction::NewLight(30)));
    assert_eq!(idle.digit_action(&shapes, 4), None);
    let waypoints: EditorState<u32> =
        EditorState::Waypoints { light_id: LightId { event: 0 }, state: WaypointsState::Idle };
    assert_eq!(waypoints.digit_action(&shapes, 2), Some(DigitAction::NewWaypoint));
    let mut playing: EditorState<u32> = EditorState::Idle;
    playing.start_playing(0, 0);
    assert_eq!(playing.digit_action(&shapes, 1), None);
}

#[test]
fn practice_selected_range() {
    let mut range = PracticeRange { level_duration: 0, select_from: 5000, select_to: 1000 };
    assert_eq!(range.selected_range(), (1000, 5000));
    range.select_from = 200;
    assert_eq!(range.selected_range(), (200, 1000));
    range.reload(9000);
    assert_eq!(range.selected_range(), (0, 0));
    assert_eq!(range.level_duration, 9000);
}
