use close_to_light::movement::WaypointId;
use close_to_light::score::{
    at_waypoint, can_miss, is_missed_rhythm, light_leaving, track_missed_rhythm, DiscreteMetrics,
    GameEvent, LightContact, LitState, RhythmLight,
};

fn contact(in_danger: bool, in_light: bool, is_perfect: bool) -> LightContact {
    LightContact { in_danger, in_light, is_perfect, is_keyframe: true }
}

#[test]
fn discrete_metrics_start_empty() {
    let m = DiscreteMetrics::new();
    assert_eq!((m.perfect, m.total, m.score), (0, 0, 0));
}

#[test]
fn discrete_metrics_count_perfect_hits() {
    let mut m = DiscreteMetrics::new();
    let events = m.update(&contact(false, true, true));
    assert_eq!(events, vec![GameEvent::Rhythm { perfect: true }]);
    assert_eq!((m.perfect, m.total, m.score), (1, 1, 1000));
}

#[test]
fn discrete_metrics_ignore_non_perfect_contact() {
    let mut m = DiscreteMetrics::new();
    assert!(m.update(&contact(true, true, true)).is_empty());
    assert!(m.update(&contact(false, false, true)).is_empty());
    assert!(m.update(&contact(false, true, false)).is_empty());
    assert_eq!((m.perfect, m.total, m.score), (0, 0, 0));
}

#[test]
fn discrete_metrics_missed_rhythm() {
    let mut m = DiscreteMetrics::new();
    m.missed_rhythm();
    assert_eq!((m.perfect, m.total, m.score), (0, 1, 100));
}

#[test]
fn discrete_metrics_score_formula() {
    let mut m = DiscreteMetrics::new();
    for i in 0..10 {
        if i % 3 == 0 {
            m.missed_rhythm();
        } else {
            let _ = m.update(&contact(false, true, true));
        }
    }
    assert!(m.perfect <= m.total);
    assert_eq!(m.score as usize, 1000 * m.perfect + 100 * (m.total - m.perfect));
}

#[test]
fn lit_state_priority() {
    assert_eq!(contact(true, true, false).lit_state(), LitState::Danger);
    assert_eq!(contact(false, true, false).lit_state(), LitState::Light);
    assert_eq!(contact(false, false, false).lit_state(), LitState::Dark);
}

#[test]
fn rhythm_at_waypoint_window() {
    let last = (0usize, WaypointId::Initial);
    assert!(at_waypoint((50, WaypointId::Frame(1)), Some(0), last));
    assert!(at_waypoint((-99, WaypointId::Frame(1)), Some(0), last));
    assert!(!at_waypoint((-100, WaypointId::Frame(1)), Some(0), last));
    assert!(!at_waypoint((100, WaypointId::Frame(1)), Some(0), last));
    // Already collected
    assert!(!at_waypoint((0, WaypointId::Initial), Some(0), last));
    assert!(!at_waypoint((0, WaypointId::Initial), None, last));
}

#[test]
fn rhythm_can_miss() {
    assert!(can_miss(-50, false));
    assert!(!can_miss(-150, false));
    assert!(can_miss(-150, true));
    assert!(!can_miss(-200, true));
    assert!(!can_miss(0, true));
}

#[test]
fn rhythm_missed_detection() {
    let last_rhythm = (3usize, WaypointId::Frame(0));
    let a = Some((1usize, WaypointId::Frame(2)));
    assert!(is_missed_rhythm(a, None, last_rhythm));
    assert!(!is_missed_rhythm(a, a, last_rhythm));
    assert!(!is_missed_rhythm(None, a, last_rhythm));
    assert!(!is_missed_rhythm(Some(last_rhythm), None, last_rhythm));
}

#[test]
fn score_light_leaving_finds_first_light_of_event() {
    let lights = vec![
        RhythmLight { event_id: Some(1), closest_waypoint: (50, WaypointId::Initial) },
        RhythmLight { event_id: Some(2), closest_waypoint: (-50, WaypointId::Frame(0)) },
        RhythmLight { event_id: Some(2), closest_waypoint: (-10, WaypointId::Frame(3)) },
        RhythmLight { event_id: Some(3), closest_waypoint: (-150, WaypointId::Frame(1)) },
    ];
    assert_eq!(light_leaving(&lights, None, false), None);
    // Just left its waypoint: can be missed.
    assert_eq!(light_leaving(&lights, Some(2), false), Some((2, WaypointId::Frame(0))));
    // Not yet at its waypoint.
    assert_eq!(light_leaving(&lights, Some(1), false), None);
    // Past the coyote time, unless the previous frame's light is checked.
    assert_eq!(light_leaving(&lights, Some(3), false), None);
    assert_eq!(light_leaving(&lights, Some(3), true), Some((3, WaypointId::Frame(1))));
    assert_eq!(light_leaving(&lights, Some(9), true), None);
}

#[test]
fn score_track_missed_rhythm_counts_miss() {
    let mut m = DiscreteMetrics::new();
    let last = Some((2, WaypointId::Frame(0)));
    assert_eq!(track_missed_rhythm(&mut m, last, last, (0, WaypointId::Initial)), None);
    assert_eq!(m.total, 0);
    assert_eq!(
        track_missed_rhythm(&mut m, last, None, (0, WaypointId::Initial)),
        Some(GameEvent::Rhythm { perfect: false })
    );
    assert_eq!(m.total, 1);
    assert_eq!(m.score, 100);
    // The rhythm was already collected: no miss.
    assert_eq!(track_missed_rhythm(&mut m, last, None, (2, WaypointId::Frame(0))), None);
    assert_eq!(m.total, 1);
}
