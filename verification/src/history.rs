use vstd::prelude::*;

use crate::level::LightId;
use crate::movement::WaypointId;
use crate::snapshot::Snapshot;

verus! {

/// What kind of edit a history entry holds. Consecutive edits with the same
/// (known) label are merged into one undo step.
#[derive(Debug, Clone, Copy, PartialEq, Eq, Structural)]
pub enum HistoryLabel {
    Unknown,
    FadeIn(LightId),
    FadeOut(LightId),
    Rotate(LightId, WaypointId),
    Scale(LightId, WaypointId),
    MoveLight(LightId),
    MoveWaypoint(LightId, WaypointId),
    MoveWaypointTime(LightId, WaypointId),
}

impl HistoryLabel {
    /// Whether `should_merge` holds.
    pub open spec fn merges_with(self, other: HistoryLabel) -> bool {
        self != HistoryLabel::Unknown && self == other
    }

    /// Whether an edit labelled `other` continues the edit labelled `self`.
    pub fn should_merge(&self, other: &Self) -> (res: bool)
        ensures
            res == self.merges_with(*other),
    {
        match self {
            HistoryLabel::Unknown => false,
            _ => *self == *other,
        }
    }
}

/// Merging is symmetric, and a known label always merges with itself.
pub proof fn law_merge_symmetric_and_reflexive(a: HistoryLabel, b: HistoryLabel)
    ensures
        a.merges_with(b) == b.merges_with(a),
        a != HistoryLabel::Unknown ==> a.merges_with(a),
        !HistoryLabel::Unknown.merges_with(b),
{
}

/// Two labels merge exactly when they are the same known label: edits of different
/// lights or different waypoints always stay separate undo steps.
pub proof fn law_merge_only_equal_labels(a: HistoryLabel, b: HistoryLabel)
    ensures
        a.merges_with(b) ==> a == b && a != HistoryLabel::Unknown,
        a == b && a != HistoryLabel::Unknown ==> a.merges_with(b),
        a != b ==> !a.merges_with(b),
{
}

/// Undo/redo history of a level being edited.
pub struct History<L> {
    /// State that will be saved in the undo stack (not every operation gets saved).
    pub buffer_state: L,
    pub buffer_label: HistoryLabel,
    pub undo_stack: Vec<L>,
    pub redo_stack: Vec<L>,
}

/// Mathematical view of a [`History`].
pub struct HistoryView<V> {
    pub buffer: V,
    pub label: HistoryLabel,
    pub undo: Seq<V>,
    pub redo: Seq<V>,
}

impl<L: View> View for History<L> {
    type V = HistoryView<L::V>;

    open spec fn view(&self) -> HistoryView<L::V> {
        HistoryView {
            buffer: self.buffer_state@,
            label: self.buffer_label,
            undo: self.undo_stack@.map_values(|l: L| l@),
            redo: self.redo_stack@.map_values(|l: L| l@),
        }
    }
}

impl<V> HistoryView<V> {
    /// The history after saving `level` with `label`.
    pub open spec fn saved(self, level: V, label: HistoryLabel) -> HistoryView<V> {
        if level == self.buffer {
            self
        } else if self.label.merges_with(label) {
            HistoryView { buffer: level, ..self }
        } else {
            HistoryView {
                buffer: level,
                label,
                undo: self.undo.push(self.buffer),
                redo: Seq::empty(),
            }
        }
    }

    /// The history after flushing the buffered changes at `level`: changes not yet
    /// saved (the level differs from the buffer) become a new undo step, and the next
    /// edit starts a new step whatever its label.
    pub open spec fn flushed(self, level: V) -> HistoryView<V> {
        if level == self.buffer {
            HistoryView { label: HistoryLabel::Unknown, ..self }
        } else {
            HistoryView {
                buffer: level,
                label: HistoryLabel::Unknown,
                undo: self.undo.push(self.buffer),
                redo: Seq::empty(),
            }
        }
    }

    /// The history and the level after undoing at `level` (when something can be undone).
    pub open spec fn undone(self, level: V) -> (HistoryView<V>, V) {
        let prev = self.undo.last();
        (
            HistoryView {
                buffer: prev,
                label: HistoryLabel::Unknown,
                undo: self.undo.drop_last(),
                redo: self.redo.push(level),
            },
            prev,
        )
    }

    /// The history and the level after redoing at `level` (when something can be redone).
    pub open spec fn redone(self, level: V) -> (HistoryView<V>, V) {
        let next = self.redo.last();
        (
            HistoryView {
                buffer: next,
                label: HistoryLabel::Unknown,
                undo: self.undo.push(level),
                redo: self.redo.drop_last(),
            },
            next,
        )
    }
}

impl<L: Snapshot> History<L> {
    /// A new history whose buffer holds `level`.
    pub fn new(level: &L) -> (res: Self)
        ensures
            res@ == (HistoryView {
                buffer: level@,
                label: HistoryLabel::Unknown,
                undo: Seq::<L::V>::empty(),
                redo: Seq::<L::V>::empty(),
            }),
    {
        let res = History {
            buffer_state: level.duplicate(),
            buffer_label: HistoryLabel::Unknown,
            undo_stack: Vec::new(),
            redo_stack: Vec::new(),
        };
        assert(res@.undo =~= Seq::<L::V>::empty());
        assert(res@.redo =~= Seq::<L::V>::empty());
        res
    }

    /// Save the state of the level: nothing happens if it did not change; a change with
    /// the same label as the buffered one is merged into it; otherwise the buffered state
    /// goes on the undo stack, and the redo stack is cleared.
    pub fn save_state(&mut self, level: &L, label: HistoryLabel)
        ensures
            final(self)@ == old(self)@.saved(level@, label),
    {
        if level.same_as(&self.buffer_state) {
            // State did not change
            return;
        }
        if self.buffer_label.should_merge(&label) {
            // Merge changes
            self.buffer_state = level.duplicate();
            return;
        }
        self.save_force(level, label)
    }

    /// Flush all buffered changes to the undo stack, if there are any.
    pub fn flush(&mut self, level: &L)
        ensures
            final(self)@ == old(self)@.flushed(level@),
    {
        if !level.same_as(&self.buffer_state) {
            self.save_force(level, HistoryLabel::Unknown);
        }
        self.buffer_label = HistoryLabel::Unknown;
    }

    /// Save the level without doing any checks.
    fn save_force(&mut self, level: &L, label: HistoryLabel)
        ensures
            final(self)@ == (HistoryView {
                buffer: level@,
                label,
                undo: old(self)@.undo.push(old(self)@.buffer),
                redo: Seq::<L::V>::empty(),
            }),
    {
        self.buffer_label = label;
        let mut state = level.duplicate();
        std::mem::swap(&mut state, &mut self.buffer_state);
        self.undo_stack.push(state);
        self.redo_stack.clear();
        assert(self@.undo =~= old(self)@.undo.push(old(self)@.buffer));
        assert(self@.redo =~= Seq::<L::V>::empty());
    }

    /// Undo the last saved change: the level goes back to the top of the undo stack and
    /// its current state goes onto the redo stack. Returns whether there was anything to undo.
    pub fn undo(&mut self, level: &mut L) -> (undone: bool)
        ensures
            undone == (old(self)@.undo.len() > 0),
            undone ==> (final(self)@, final(level)@) == old(self)@.undone(old(level)@),
            !undone ==> final(self)@ == old(self)@ && final(level)@ == old(level)@,
    {
        match self.undo_stack.pop() {
            Some(mut prev) => {
                std::mem::swap(&mut prev, level);
                self.redo_stack.push(prev);
                self.buffer_state = level.duplicate();
                self.buffer_label = HistoryLabel::Unknown;
                assert(self@.undo =~= old(self)@.undo.drop_last());
                assert(self@.redo =~= old(self)@.redo.push(old(level)@));
                true
            },
            None => false,
        }
    }

    /// Redo the last undone change. Returns whether there was anything to redo.
    pub fn redo(&mut self, level: &mut L) -> (redone: bool)
        ensures
            redone == (old(self)@.redo.len() > 0),
            redone ==> (final(self)@, final(level)@) == old(self)@.redone(old(level)@),
            !redone ==> final(self)@ == old(self)@ && final(level)@ == old(level)@,
    {
        match self.redo_stack.pop() {
            Some(mut next) => {
                std::mem::swap(&mut next, level);
                self.undo_stack.push(next);
                self.buffer_state = level.duplicate();
                self.buffer_label = HistoryLabel::Unknown;
                assert(self@.redo =~= old(self)@.redo.drop_last());
                assert(self@.undo =~= old(self)@.undo.push(old(level)@));
                true
            },
            None => false,
        }
    }
}

/// Redoing right after undoing gives back the level and both stacks.
pub proof fn law_redo_undoes_undo<V>(h: HistoryView<V>, level: V)
    requires
        h.undo.len() > 0,
    ensures
        ({
            let (h1, l1) = h.undone(level);
            let (h2, l2) = h1.redone(l1);
            &&& l2 == level
            &&& h2.undo == h.undo
            &&& h2.redo == h.redo
        }),
{
    let (h1, l1) = h.undone(level);
    assert(h1.undo.push(l1) =~= h.undo);
    assert(h1.redo.drop_last() =~= h.redo);
}

/// Undoing right after redoing gives back the level and both stacks.
pub proof fn law_undo_undoes_redo<V>(h: HistoryView<V>, level: V)
    requires
        h.redo.len() > 0,
    ensures
        ({
            let (h1, l1) = h.redone(level);
            let (h2, l2) = h1.undone(l1);
            &&& l2 == level
            &&& h2.undo == h.undo
            &&& h2.redo == h.redo
        }),
{
    let (h1, l1) = h.redone(level);
    assert(h1.redo.push(l1) =~= h.redo);
    assert(h1.undo.drop_last() =~= h.undo);
}

/// After an edit is saved as a new undo step, undoing it gives back the state that was
/// buffered before the edit, and the edit can be redone.
pub proof fn law_undo_restores_buffered_state<V>(h: HistoryView<V>, level: V, label: HistoryLabel)
    requires
        level != h.buffer,
        !h.label.merges_with(label),
    ensures
        ({
            let saved = h.saved(level, label);
            let (h1, l1) = saved.undone(level);
            &&& l1 == h.buffer
            &&& h1.undo == h.undo
            &&& h1.redo == seq![level]
        }),
{
    let saved = h.saved(level, label);
    assert(saved.undo.drop_last() =~= h.undo);
    assert(Seq::<V>::empty().push(level) =~= seq![level]);
}

/// Flushing changes that were not saved yet makes them one undo step: undoing right
/// after the flush gives back the state buffered before the changes.
pub proof fn law_flush_makes_undo_step<V>(h: HistoryView<V>, level: V)
    requires
        level != h.buffer,
    ensures
        ({
            let f = h.flushed(level);
            let (h1, l1) = f.undone(level);
            &&& f.undo.len() == h.undo.len() + 1
            &&& l1 == h.buffer
            &&& h1.undo == h.undo
        }),
{
    let f = h.flushed(level);
    assert(f.undo.drop_last() =~= h.undo);
}

/// A group of edits saved once and closed (as a list of edits is) makes exactly one undo
/// step when it changed the level, and none otherwise; undoing that step gives back the
/// level from before the group.
pub proof fn law_group_is_one_undo_step<V>(h: HistoryView<V>, before: V, after: V, label: HistoryLabel)
    ensures
        ({
            let start = h.flushed(before);
            let end = start.saved(after, label).flushed(after);
            &&& after != before ==> end.undo == start.undo.push(before) && end.buffer == after
                && end.label == HistoryLabel::Unknown && end.undone(after).1 == before
            &&& after == before ==> end == start
        }),
{
}

/// Saving a level that did not change leaves the history as it is.
pub proof fn law_saving_unchanged_level_is_noop<V>(h: HistoryView<V>, label: HistoryLabel)
    ensures
        h.saved(h.buffer, label) == h,
{
}

} // verus!
