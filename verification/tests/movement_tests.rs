use close_to_light::change::Change;
use close_to_light::movement::{
    reordered_id, MoveFrame, Movement, WaypointId, WaypointRemoval,
};

fn sample() -> Movement<i64> {
    // Waypoints at 1000 (10), 1500 (20), 2000 (30); fades of 1000.
    Movement {
        fade_in: 1000,
        fade_out: 1000,
        initial: 10,
        key_frames: vec![
            MoveFrame { lerp_time: 500, transform: 20 },
            MoveFrame { lerp_time: 500, transform: 30 },
        ],
    }
}

fn times(m: &Movement<i64>) -> Vec<(i64, i64)> {
    m.timed_positions().into_iter().map(|(_, t, time)| (t, time)).collect()
}

#[test]
fn movement_timed_positions() {
    let m = sample();
    let p = m.timed_positions();
    assert_eq!(p.len(), 3);
    assert_eq!(p[0], (WaypointId::Initial, 10, 1000));
    assert_eq!(p[1], (WaypointId::Frame(0), 20, 1500));
    assert_eq!(p[2], (WaypointId::Frame(1), 30, 2000));
}

#[test]
fn movement_durations() {
    let m = sample();
    assert_eq!(m.movement_duration(), 1000);
    assert_eq!(m.total_duration(), 3000);
    let empty = Movement::<i64> { fade_in: 200, fade_out: 300, initial: 0, key_frames: vec![] };
    assert_eq!(empty.movement_duration(), 0);
    assert_eq!(empty.total_duration(), 500);
}

#[test]
fn movement_get_time() {
    let m = sample();
    assert_eq!(m.get_time(WaypointId::Initial), Some(1000));
    assert_eq!(m.get_time(WaypointId::Frame(1)), Some(2000));
    assert_eq!(m.get_time(WaypointId::Frame(2)), None);
    assert_eq!(m.get_time(WaypointId::Frame(usize::MAX)), None);
}

#[test]
fn movement_is_at_waypoint() {
    let m = sample();
    assert!(m.is_at_waypoint(1490, 10));
    assert!(!m.is_at_waypoint(1250, 100));
    assert!(m.is_at_waypoint(2000, 0));
}

#[test]
fn movement_get_and_set_frame() {
    let mut m = sample();
    assert_eq!(m.get_frame(WaypointId::Frame(0)), Some(20));
    assert_eq!(m.get_frame(WaypointId::Frame(5)), None);
    assert!(m.set_frame(WaypointId::Frame(1), 99));
    assert_eq!(m.get_frame(WaypointId::Frame(1)), Some(99));
    assert_eq!(m.key_frames[1].lerp_time, 500);
    assert!(!m.set_frame(WaypointId::Frame(2), 1));
    assert!(m.set_frame(WaypointId::Initial, 7));
    assert_eq!(m.initial, 7);
}

#[test]
fn movement_retime_reorders_waypoints() {
    let mut m = sample();
    // Move the last waypoint (at 2000) to 1200: it now comes second.
    let res = m.retime_waypoint(0, WaypointId::Frame(1), Change::SetTo(1200));
    let (new_time, order) = res.expect("valid reorder");
    assert_eq!(new_time, 0);
    assert_eq!(order, vec![WaypointId::Initial, WaypointId::Frame(1), WaypointId::Frame(0)]);
    assert_eq!(times(&m), vec![(10, 1000), (30, 1200), (20, 1500)]);
    assert_eq!(m.fade_in, 1000);
    assert_eq!(m.fade_out, 1000);
}

#[test]
fn movement_retime_initial_moves_event_start() {
    let mut m = sample();
    // Event starts at 5000: initial at 6000; move it 250 later.
    let (new_time, order) =
        m.retime_waypoint(5000, WaypointId::Initial, Change::Add(250)).expect("valid");
    assert_eq!(new_time, 5250);
    assert_eq!(order, vec![WaypointId::Initial, WaypointId::Frame(0), WaypointId::Frame(1)]);
    let abs: Vec<(i64, i64)> =
        times(&m).into_iter().map(|(t, time)| (t, time + new_time)).collect();
    assert_eq!(abs, vec![(10, 6250), (20, 6500), (30, 7000)]);
}

#[test]
fn movement_retime_clash_changes_nothing() {
    let mut m = sample();
    let before = times(&m);
    assert!(m.retime_waypoint(0, WaypointId::Frame(1), Change::SetTo(1500)).is_none());
    assert_eq!(times(&m), before);
}

#[test]
fn movement_retime_missing_waypoint_keeps_times() {
    let mut m = sample();
    let (new_time, order) =
        m.retime_waypoint(0, WaypointId::Frame(9), Change::Add(100)).expect("no clash");
    assert_eq!(new_time, 0);
    assert_eq!(order.len(), 3);
    assert_eq!(times(&m), vec![(10, 1000), (20, 1500), (30, 2000)]);
}

#[test]
fn movement_delete_initial_waypoint() {
    let mut m = sample();
    assert_eq!(m.delete_waypoint(WaypointId::Initial), WaypointRemoval::Removed { time_shift: 500 });
    // Remaining waypoints keep their absolute times (start moved by 500).
    assert_eq!(times(&m), vec![(20, 1000), (30, 1500)]);
}

#[test]
fn movement_delete_middle_frame_merges_time() {
    let mut m = sample();
    assert_eq!(m.delete_waypoint(WaypointId::Frame(0)), WaypointRemoval::Removed { time_shift: 0 });
    assert_eq!(times(&m), vec![(10, 1000), (30, 2000)]);
}

#[test]
fn movement_delete_last_frame() {
    let mut m = sample();
    assert_eq!(m.delete_waypoint(WaypointId::Frame(1)), WaypointRemoval::Removed { time_shift: 0 });
    assert_eq!(times(&m), vec![(10, 1000), (20, 1500)]);
}

#[test]
fn movement_delete_missing_or_only_waypoint() {
    let mut m = sample();
    assert_eq!(m.delete_waypoint(WaypointId::Frame(2)), WaypointRemoval::Missing);
    assert_eq!(m.key_frames.len(), 2);
    let mut single = Movement::<i64> { fade_in: 1, fade_out: 1, initial: 0, key_frames: vec![] };
    assert_eq!(single.delete_waypoint(WaypointId::Initial), WaypointRemoval::OnlyWaypoint);
}

#[test]
fn movement_insert_waypoint_in_the_middle() {
    let mut m = sample();
    assert_eq!(m.insert_waypoint(0, 1, 1200, 15), Some(0));
    assert_eq!(times(&m), vec![(10, 1000), (15, 1200), (20, 1500), (30, 2000)]);
}

#[test]
fn movement_insert_waypoint_at_the_end() {
    let mut m = sample();
    assert_eq!(m.insert_waypoint(0, 3, 2600, 40), Some(0));
    assert_eq!(times(&m), vec![(10, 1000), (20, 1500), (30, 2000), (40, 2600)]);
}

#[test]
fn movement_insert_waypoint_as_initial() {
    let mut m = sample();
    // Event at 0; new initial at 400 moves the event start to 400 - 1000.
    let new_time = m.insert_waypoint(0, 0, 400, 5).expect("inserted");
    assert_eq!(new_time, -600);
    let abs: Vec<(i64, i64)> =
        times(&m).into_iter().map(|(t, time)| (t, time + new_time)).collect();
    assert_eq!(abs, vec![(5, 400), (10, 1000), (20, 1500), (30, 2000)]);
}

#[test]
fn movement_insert_waypoint_past_the_end() {
    let mut m = sample();
    assert_eq!(m.insert_waypoint(0, 4, 3000, 1), None);
    assert_eq!(times(&m), vec![(10, 1000), (20, 1500), (30, 2000)]);
}

#[test]
fn movement_new_waypoint_position() {
    let m = sample();
    assert_eq!(m.new_waypoint_position(500), 0);
    assert_eq!(m.new_waypoint_position(1200), 1);
    assert_eq!(m.new_waypoint_position(1500), 1);
    assert_eq!(m.new_waypoint_position(2500), 3);
}

#[test]
fn movement_reordered_id() {
    let order = vec![WaypointId::Initial, WaypointId::Frame(1), WaypointId::Frame(0)];
    assert_eq!(reordered_id(&order, WaypointId::Frame(1)), Some(WaypointId::Frame(0)));
    assert_eq!(reordered_id(&order, WaypointId::Frame(0)), Some(WaypointId::Frame(1)));
    assert_eq!(reordered_id(&order, WaypointId::Initial), Some(WaypointId::Initial));
    assert_eq!(reordered_id(&order, WaypointId::Frame(5)), None);
}

#[test]
fn movement_duplicate_and_compare() {
    let m = sample();
    let d = m.duplicate();
    assert!(m.same_as(&d));
    let mut e = m.duplicate();
    e.key_frames[0].lerp_time = 400;
    assert!(!m.same_as(&e));
}
