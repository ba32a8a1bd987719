use close_to_light::editor::{redo, undo, EditorState};
use close_to_light::history::{History, HistoryLabel};
use close_to_light::level::{Event, Level, LightId, TimedEvent};
use close_to_light::movement::WaypointId;

fn level(times: &[i64]) -> Level<u32, i64> {
    Level {
        events: times
            .iter()
            .map(|&time| TimedEvent { time, event: Event::PaletteSwap })
            .collect(),
    }
}

fn times(level: &Level<u32, i64>) -> Vec<i64> {
    level.events.iter().map(|e| e.time).collect()
}

#[test]
fn history_label_merging() {
    let a = HistoryLabel::MoveLight(LightId { event: 1 });
    let b = HistoryLabel::MoveLight(LightId { event: 2 });
    assert!(a.should_merge(&a));
    assert!(!a.should_merge(&b));
    assert!(!HistoryLabel::Unknown.should_merge(&HistoryLabel::Unknown));
    let r = HistoryLabel::Rotate(LightId { event: 0 }, WaypointId::Frame(1));
    assert!(r.should_merge(&HistoryLabel::Rotate(LightId { event: 0 }, WaypointId::Frame(1))));
    assert!(!r.should_merge(&HistoryLabel::Scale(LightId { event: 0 }, WaypointId::Frame(1))));
}

#[test]
fn history_save_unchanged_is_noop() {
    let l = level(&[1]);
    let mut h = History::new(&l);
    h.save_state(&l, HistoryLabel::Unknown);
    assert!(h.undo_stack.is_empty());
    assert!(h.redo_stack.is_empty());
}

#[test]
fn history_save_then_undo_then_redo() {
    let mut current = level(&[1]);
    let mut h = History::new(&current);
    current = level(&[1, 2]);
    h.save_state(&current, HistoryLabel::Unknown);
    assert_eq!(h.undo_stack.len(), 1);
    assert!(undo(&EditorState::<u32>::Idle, &mut h, &mut current));
    assert_eq!(times(&current), vec![1]);
    assert_eq!(h.redo_stack.len(), 1);
    assert!(redo(&EditorState::<u32>::Idle, &mut h, &mut current));
    assert_eq!(times(&current), vec![1, 2]);
    assert_eq!(h.undo_stack.len(), 1);
    assert!(h.redo_stack.is_empty());
}

#[test]
fn history_merges_edits_with_same_label() {
    let label = HistoryLabel::MoveLight(LightId { event: 0 });
    let mut current = level(&[1]);
    let mut h = History::new(&current);
    current = level(&[2]);
    h.save_state(&current, label);
    current = level(&[3]);
    h.save_state(&current, label);
    assert_eq!(h.undo_stack.len(), 1);
    assert_eq!(times(&h.buffer_state), vec![3]);
    assert!(h.undo(&mut current));
    assert_eq!(times(&current), vec![1]);
}

#[test]
fn history_new_save_clears_redo() {
    let mut current = level(&[1]);
    let mut h = History::new(&current);
    current = level(&[2]);
    h.save_state(&current, HistoryLabel::Unknown);
    assert!(h.undo(&mut current));
    assert_eq!(h.redo_stack.len(), 1);
    current = level(&[5]);
    h.save_state(&current, HistoryLabel::Unknown);
    assert!(h.redo_stack.is_empty());
    assert!(!h.redo(&mut current));
    assert_eq!(times(&current), vec![5]);
}

#[test]
fn history_flush_resets_label() {
    let label = HistoryLabel::FadeIn(LightId { event: 0 });
    let mut current = level(&[1]);
    let mut h = History::new(&current);
    current = level(&[2]);
    h.save_state(&current, label);
    h.flush(&current);
    assert_eq!(h.buffer_label, HistoryLabel::Unknown);
    assert_eq!(h.undo_stack.len(), 1);
    current = level(&[3]);
    h.save_state(&current, label);
    assert_eq!(h.undo_stack.len(), 2);
}

#[test]
fn history_flush_pushes_unsaved_changes() {
    let mut current = level(&[1]);
    let mut h = History::new(&current);
    current = level(&[2]);
    // Changed without saving: the flush makes it one undo step.
    h.flush(&current);
    assert_eq!(h.undo_stack.len(), 1);
    assert_eq!(times(&h.undo_stack[0]), vec![1]);
    assert_eq!(times(&h.buffer_state), vec![2]);
    // Nothing new: a second flush adds nothing.
    h.flush(&current);
    assert_eq!(h.undo_stack.len(), 1);
    assert!(h.undo(&mut current));
    assert_eq!(times(&current), vec![1]);
}

#[test]
fn history_undo_is_blocked_while_placing() {
    let mut current = level(&[1]);
    let mut h = History::new(&current);
    current = level(&[2]);
    h.save_state(&current, HistoryLabel::Unknown);
    let placing = EditorState::Place { shape: 0u32, danger: false };
    assert!(!undo(&placing, &mut h, &mut current));
    assert_eq!(times(&current), vec![2]);
}

#[test]
fn history_undo_on_empty_history() {
    let mut current = level(&[1]);
    let mut h = History::new(&current);
    assert!(!h.undo(&mut current));
    assert!(!h.redo(&mut current));
    assert_eq!(times(&current), vec![1]);
}
