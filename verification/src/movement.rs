use vstd::prelude::*;

use crate::change::Change;
use crate::snapshot::Same;
use crate::time::{time_in_range, Time, MAX_TIME};

verus! {

broadcast use vstd::seq_lib::group_to_multiset_ensures;

/// Identifies a waypoint of a movement: the initial position or one of the key frames.
#[derive(Debug, Clone, Copy, PartialEq, Eq, Structural)]
pub enum WaypointId {
    Initial,
    Frame(usize),
}

/// A key frame of a movement.
#[derive(Debug, Clone, Copy)]
pub struct MoveFrame<T> {
    /// How long (in time units) the interpolation from the previous waypoint to this one lasts.
    pub lerp_time: Time,
    /// Where the light is at this waypoint.
    pub transform: T,
}

/// The movement of a light: it fades in at the initial transform, passes through
/// every key frame, and then fades out at the last one.
///
/// The transforms (positions, rotations, scales) are carried as values of `T`;
/// the timing logic of this crate never looks inside them.
#[derive(Debug, Clone)]
pub struct Movement<T> {
    /// Time to spend fading into the initial position.
    pub fade_in: Time,
    /// Time to spend fading out of the last waypoint.
    pub fade_out: Time,
    pub initial: T,
    pub key_frames: Vec<MoveFrame<T>>,
}

/// Mathematical view of a [`Movement`].
pub struct MovementView<T> {
    pub fade_in: Time,
    pub fade_out: Time,
    pub initial: T,
    pub key_frames: Seq<MoveFrame<T>>,
}

impl<T> View for Movement<T> {
    type V = MovementView<T>;

    open spec fn view(&self) -> MovementView<T> {
        MovementView {
            fade_in: self.fade_in,
            fade_out: self.fade_out,
            initial: self.initial,
            key_frames: self.key_frames@,
        }
    }
}

/// Sum of the interpolation times of the first `k` frames.
pub open spec fn lerp_sum<T>(frames: Seq<MoveFrame<T>>, k: int) -> int
    decreases k,
{
    if k <= 0 {
        0
    } else {
        lerp_sum(frames, k - 1) + frames[k - 1].lerp_time
    }
}

/// Position of a waypoint in the list of all waypoints (the initial one is at 0).
pub open spec fn waypoint_index(id: WaypointId) -> int {
    match id {
        WaypointId::Initial => 0,
        WaypointId::Frame(i) => i + 1,
    }
}

/// The waypoint at a position in the list of all waypoints.
pub open spec fn waypoint_at(k: int) -> WaypointId {
    if k == 0 {
        WaypointId::Initial
    } else {
        WaypointId::Frame((k - 1) as usize)
    }
}

impl<T> MovementView<T> {
    /// Index of the last waypoint (the number of key frames).
    pub open spec fn last_index(self) -> int {
        self.key_frames.len() as int
    }

    /// Whether `k` is the position of a waypoint.
    pub open spec fn has_index(self, k: int) -> bool {
        0 <= k <= self.key_frames.len()
    }

    /// Time (relative to the start of the movement) at which waypoint `k` is reached.
    pub open spec fn time_of(self, k: int) -> int {
        self.fade_in + lerp_sum(self.key_frames, k)
    }

    /// Transform of waypoint `k`.
    pub open spec fn transform_of(self, k: int) -> T {
        if k == 0 {
            self.initial
        } else {
            self.key_frames[k - 1].transform
        }
    }

    /// Duration of the movement excluding the fades.
    pub open spec fn movement_duration(self) -> int {
        lerp_sum(self.key_frames, self.key_frames.len() as int)
    }

    /// Duration of the movement including the fades.
    pub open spec fn total_duration(self) -> int {
        self.fade_in + self.movement_duration() + self.fade_out
    }

    /// All waypoint times and the fade out lie in the accepted time range.
    pub open spec fn fits(self) -> bool {
        &&& time_in_range(self.fade_out as int)
        &&& forall|k: int|
            0 <= k <= self.key_frames.len() ==> -MAX_TIME <= #[trigger] self.time_of(k)
                <= MAX_TIME
    }

    /// Absolute time of waypoint `k` of an event starting at `event_time`,
    /// after the time of `waypoint` is changed by `change`.
    pub open spec fn moved_time(
        self,
        event_time: int,
        waypoint: WaypointId,
        change: Change<i64>,
        k: int,
    ) -> int {
        if k == waypoint_index(waypoint) {
            change.applied(event_time + self.time_of(k))
        } else {
            event_time + self.time_of(k)
        }
    }

    /// Whether two different waypoints would end up at the same absolute time.
    pub open spec fn has_time_clash(
        self,
        event_time: int,
        waypoint: WaypointId,
        change: Change<i64>,
    ) -> bool {
        exists|a: int, b: int|
            self.has_index(a) && self.has_index(b) && a != b && #[trigger] self.moved_time(
                event_time,
                waypoint,
                change,
                a,
            ) == #[trigger] self.moved_time(event_time, waypoint, change, b)
    }

    /// The same movement with the transform of waypoint `k` replaced.
    pub open spec fn with_transform(self, k: int, transform: T) -> MovementView<T> {
        if k == 0 {
            MovementView { initial: transform, ..self }
        } else {
            MovementView {
                key_frames: self.key_frames.update(
                    k - 1,
                    MoveFrame { lerp_time: self.key_frames[k - 1].lerp_time, transform },
                ),
                ..self
            }
        }
    }
}

/// Appending a frame does not change the sums over the frames before it.
pub proof fn lemma_lerp_sum_push<T>(frames: Seq<MoveFrame<T>>, frame: MoveFrame<T>, k: int)
    requires
        k <= frames.len(),
    ensures
        lerp_sum(frames.push(frame), k) == lerp_sum(frames, k),
    decreases k,
{
    if k > 0 {
        lemma_lerp_sum_push(frames, frame, k - 1);
    }
}

/// Sums over two frame lists agree up to the first index where the lists differ.
pub proof fn lemma_lerp_sum_prefix<T>(a: Seq<MoveFrame<T>>, b: Seq<MoveFrame<T>>, k: int)
    requires
        k <= a.len(),
        k <= b.len(),
        forall|j: int| 0 <= j < k ==> a[j].lerp_time == b[j].lerp_time,
    ensures
        lerp_sum(a, k) == lerp_sum(b, k),
    decreases k,
{
    if k > 0 {
        lemma_lerp_sum_prefix(a, b, k - 1);
    }
}

/// Reading waypoint times of a fitting movement: consecutive times differ by a lerp time.
pub proof fn lemma_time_step<T>(m: MovementView<T>, k: int)
    requires
        0 <= k < m.key_frames.len(),
    ensures
        m.time_of(k + 1) == m.time_of(k) + m.key_frames[k].lerp_time,
{
}

/// Whether the value of a change lies in the accepted time range.
pub open spec fn change_in_range(change: Change<i64>) -> bool {
    match change {
        Change::Add(delta) => time_in_range(delta as int),
        Change::SetTo(target) => time_in_range(target as int),
    }
}

/// Whether some entry of `order` is the waypoint at position `k`.
pub open spec fn lists_waypoint(order: Seq<WaypointId>, k: int) -> bool {
    exists|i: int| 0 <= i < order.len() && waypoint_index(#[trigger] order[i]) == k
}

/// The id of the waypoint at position `k`.
pub fn waypoint_id_at(k: usize) -> (id: WaypointId)
    ensures
        id == waypoint_at(k as int),
        waypoint_index(id) == k,
{
    if k == 0 {
        WaypointId::Initial
    } else {
        WaypointId::Frame(k - 1)
    }
}

/// Whether some entry of `items` refers to position `k`.
spec fn holds_position(items: Seq<(Time, usize)>, k: int) -> bool {
    exists|i: int| 0 <= i < items.len() && (#[trigger] items[i]).1 == k
}

/// Sorts by the first component.
///
/// Wraps `slice::sort_by_key` of std, keyed by the first component of each pair.
/// std documents it as a stable sort: the result is a permutation of the input
/// in non-decreasing key order. The contract states the permutation (as equal
/// multisets) and the order; it leaves the stability unsaid.
#[verifier::external_body]
fn sort_by_time(items: &mut Vec<(Time, usize)>)
    ensures
        final(items)@.to_multiset() == old(items)@.to_multiset(),
        forall|i: int, j: int|
            0 <= i <= j < final(items)@.len() ==> final(items)@[i].0 <= final(items)@[j].0,
{
    items.sort_by_key(|item| item.0);
}

impl<T: Copy> Movement<T> {
    /// All waypoints (the initial one first) with their transforms and the time
    /// (relative to the start of the movement) at which each is reached.
    pub fn timed_positions(&self) -> (res: Vec<(WaypointId, T, Time)>)
        requires
            self@.fits(),
        ensures
            res@.len() == self@.key_frames.len() + 1,
            forall|k: int|
                0 <= k < res@.len() ==> {
                    &&& (#[trigger] res@[k]).0 == waypoint_at(k)
                    &&& res@[k].1 == self@.transform_of(k)
                    &&& res@[k].2 == self@.time_of(k)
                },
    {
        let n = self.key_frames.len();
        let mut time = self.fade_in;
        let mut res: Vec<(WaypointId, T, Time)> = Vec::new();
        assert(self@.time_of(0) == self.fade_in);
        res.push((WaypointId::Initial, self.initial, time));
        let mut i: usize = 0;
        while i < n
            invariant
                0 <= i <= n,
                n == self@.key_frames.len(),
                self@.fits(),
                time == self@.time_of(i as int),
                res@.len() == i + 1,
                forall|k: int|
                    0 <= k < res@.len() ==> {
                        &&& (#[trigger] res@[k]).0 == waypoint_at(k)
                        &&& res@[k].1 == self@.transform_of(k)
                        &&& res@[k].2 == self@.time_of(k)
                    },
            decreases n - i,
        {
            let frame = self.key_frames[i];
            proof {
                lemma_time_step(self@, i as int);
                assert(-MAX_TIME <= self@.time_of(i + 1) <= MAX_TIME);
            }
            time = time + frame.lerp_time;
            res.push((WaypointId::Frame(i), frame.transform, time));
            i = i + 1;
        }
        res
    }

    /// The time (relative to the start of the movement) at which the waypoint is reached,
    /// or `None` if there is no such waypoint.
    pub fn get_time(&self, id: WaypointId) -> (res: Option<Time>)
        requires
            self@.fits(),
        ensures
            res == (if self@.has_index(waypoint_index(id)) {
                Some(self@.time_of(waypoint_index(id)) as Time)
            } else {
                None
            }),
    {
        let positions = self.timed_positions();
        match id {
            WaypointId::Initial => Some(positions[0].2),
            WaypointId::Frame(i) => {
                if i < self.key_frames.len() {
                    Some(positions[i + 1].2)
                } else {
                    None
                }
            },
        }
    }

    /// Whether some waypoint is reached within `precision` of `time`.
    pub fn is_at_waypoint(&self, time: Time, precision: Time) -> (res: bool)
        requires
            self@.fits(),
            time_in_range(time as int),
        ensures
            res == exists|k: int|
                self@.has_index(k) && -precision <= #[trigger] self@.time_of(k) - time
                    <= precision,
    {
        let positions = self.timed_positions();
        let n = positions.len();
        let mut i: usize = 0;
        while i < n
            invariant
                0 <= i <= n,
                n == self@.key_frames.len() + 1,
                positions@.len() == n,
                self@.fits(),
                time_in_range(time as int),
                forall|k: int|
                    0 <= k < n ==> {
                        &&& (#[trigger] positions@[k]).0 == waypoint_at(k)
                        &&& positions@[k].1 == self@.transform_of(k)
                        &&& positions@[k].2 == self@.time_of(k)
                    },
                forall|k: int|
                    0 <= k < i ==> !(-precision <= #[trigger] self@.time_of(k) - time
                        <= precision),
            decreases n - i,
        {
            let key_time = positions[i].2;
            assert(-MAX_TIME <= self@.time_of(i as int) <= MAX_TIME);
            let diff = key_time - time;
            let dist = if diff < 0 {
                -diff
            } else {
                diff
            };
            if dist <= precision {
                assert(self@.has_index(i as int));
                return true;
            }
            i = i + 1;
        }
        false
    }

    /// The transform at a waypoint, or `None` if there is no such waypoint.
    pub fn get_frame(&self, id: WaypointId) -> (res: Option<T>)
        ensures
            res == (if self@.has_index(waypoint_index(id)) {
                Some(self@.transform_of(waypoint_index(id)))
            } else {
                None
            }),
    {
        match id {
            WaypointId::Initial => Some(self.initial),
            WaypointId::Frame(i) => {
                if i < self.key_frames.len() {
                    Some(self.key_frames[i].transform)
                } else {
                    None
                }
            },
        }
    }

    /// Replace the transform at a waypoint; returns whether the waypoint exists.
    pub fn set_frame(&mut self, id: WaypointId, transform: T) -> (found: bool)
        ensures
            found == old(self)@.has_index(waypoint_index(id)),
            found ==> final(self)@ == old(self)@.with_transform(waypoint_index(id), transform),
            !found ==> final(self)@ == old(self)@,
    {
        match id {
            WaypointId::Initial => {
                self.initial = transform;
                true
            },
            WaypointId::Frame(i) => {
                if i < self.key_frames.len() {
                    let lerp_time = self.key_frames[i].lerp_time;
                    self.key_frames.set(i, MoveFrame { lerp_time, transform });
                    true
                } else {
                    false
                }
            },
        }
    }
}

impl<T> Movement<T> {
    /// Returns the duration of the movement excluding fade in/out.
    pub fn movement_duration(&self) -> (res: Time)
        requires
            self@.fits(),
        ensures
            res == self@.movement_duration(),
    {
        let n = self.key_frames.len();
        let mut sum: Time = 0;
        let mut i: usize = 0;
        while i < n
            invariant
                0 <= i <= n,
                n == self@.key_frames.len(),
                self@.fits(),
                sum == lerp_sum(self@.key_frames, i as int),
            decreases n - i,
        {
            proof {
                assert(-MAX_TIME <= self@.time_of(i + 1) <= MAX_TIME);
                assert(-MAX_TIME <= self@.time_of(0) <= MAX_TIME);
            }
            sum = sum + self.key_frames[i].lerp_time;
            i = i + 1;
        }
        sum
    }

    /// Whether all waypoint times and the fade out lie in the accepted time range.
    pub fn fits_range(&self) -> (res: bool)
        ensures
            res == self@.fits(),
    {
        if self.fade_out < -MAX_TIME || self.fade_out > MAX_TIME {
            return false;
        }
        if self.fade_in < -MAX_TIME || self.fade_in > MAX_TIME {
            assert(self@.time_of(0) == self.fade_in);
            return false;
        }
        let n = self.key_frames.len();
        let mut time: Time = self.fade_in;
        let mut i: usize = 0;
        assert(self@.time_of(0) == self.fade_in);
        while i < n
            invariant
                0 <= i <= n,
                n == self@.key_frames.len(),
                time == self@.time_of(i as int),
                time_in_range(self.fade_out as int),
                forall|k: int| 0 <= k <= i ==> -MAX_TIME <= #[trigger] self@.time_of(k) <= MAX_TIME,
            decreases n - i,
        {
            proof {
                lemma_time_step(self@, i as int);
            }
            let next: i128 = time as i128 + self.key_frames[i].lerp_time as i128;
            if next < -(MAX_TIME as i128) || next > MAX_TIME as i128 {
                assert(!(-MAX_TIME <= self@.time_of(i + 1) <= MAX_TIME));
                return false;
            }
            time = next as i64;
            i = i + 1;
        }
        true
    }

    /// Returns the total duration of the movement including fade in/out.
    pub fn total_duration(&self) -> (res: Time)
        requires
            self@.fits(),
        ensures
            res == self@.total_duration(),
    {
        let d = self.movement_duration();
        proof {
            assert(-MAX_TIME <= self@.time_of(self@.key_frames.len() as int) <= MAX_TIME);
        }
        self.fade_in + d + self.fade_out
    }
}



impl<T> MovementView<T> {
    /// `f` is this movement (of an event starting at `event_time`) after the time of
    /// `waypoint` was changed by `change`: the event now starts at `new_time` and its
    /// waypoints are the old ones (keeping transforms and absolute times, the changed
    /// one at its new time) in strictly increasing time order; `order` lists their
    /// original ids in the new order.
    pub open spec fn retimed_as(
        self,
        f: MovementView<T>,
        event_time: int,
        waypoint: WaypointId,
        change: Change<i64>,
        new_time: int,
        order: Seq<WaypointId>,
    ) -> bool {
        &&& f.fade_in == self.fade_in
        &&& f.fade_out == self.fade_out
        &&& f.key_frames.len() == self.key_frames.len()
        &&& order.len() == self.key_frames.len() + 1
        &&& forall|i: int|
            0 <= i < order.len() ==> {
                &&& self.has_index(waypoint_index(#[trigger] order[i]))
                &&& new_time + f.time_of(i) == self.moved_time(
                    event_time,
                    waypoint,
                    change,
                    waypoint_index(order[i]),
                )
                &&& f.transform_of(i) == self.transform_of(waypoint_index(order[i]))
            }
        &&& forall|i: int, j: int|
            0 <= i < j < order.len() ==> self.moved_time(
                event_time,
                waypoint,
                change,
                waypoint_index(#[trigger] order[i]),
            ) < self.moved_time(event_time, waypoint, change, waypoint_index(#[trigger] order[j]))
        &&& forall|k: int| self.has_index(k) ==> #[trigger] lists_waypoint(order, k)
    }

    /// `f` is this movement after deleting waypoint `id` with outcome `res`.
    pub open spec fn removed_as(self, f: MovementView<T>, id: WaypointId, res: WaypointRemoval) -> bool {
        let r = waypoint_index(id);
        match res {
            WaypointRemoval::Missing => !self.has_index(r) && f == self,
            WaypointRemoval::OnlyWaypoint => id == WaypointId::Initial && self.key_frames.len()
                == 0 && f == self,
            WaypointRemoval::Removed { time_shift } => {
                &&& self.has_index(r)
                &&& self.key_frames.len() > 0
                &&& time_shift == (if r == 0 {
                    self.key_frames[0].lerp_time
                } else {
                    0
                })
                &&& f.fade_in == self.fade_in
                &&& f.fade_out == self.fade_out
                &&& f.key_frames.len() == self.key_frames.len() - 1
                &&& forall|k: int|
                    #![trigger self.time_of(k)]
                    self.has_index(k) && k != r ==> {
                        let k2 = MovementView::<T>::index_after_removal(r, k);
                        &&& time_shift + f.time_of(k2) == self.time_of(k)
                        &&& f.transform_of(k2) == self.transform_of(k)
                    }
            },
        }
    }

    /// `f` is this movement (of an event starting at `event_time`) with a new waypoint
    /// inserted at position `p`, reached at `target_time` with `transform`; the event
    /// now starts at `new_time` and every old waypoint keeps its absolute time.
    pub open spec fn inserted_as(
        self,
        f: MovementView<T>,
        event_time: int,
        p: int,
        target_time: int,
        transform: T,
        new_time: int,
    ) -> bool {
        &&& new_time == (if p == 0 {
            target_time - self.fade_in
        } else {
            event_time
        })
        &&& f.fade_in == self.fade_in
        &&& f.fade_out == self.fade_out
        &&& f.key_frames.len() == self.key_frames.len() + 1
        &&& new_time + f.time_of(p) == target_time
        &&& f.transform_of(p) == transform
        &&& forall|k: int|
            #![trigger self.time_of(k)]
            self.has_index(k) ==> {
                let k2 = MovementView::<T>::index_after_insertion(p, k);
                &&& new_time + f.time_of(k2) == event_time + self.time_of(k)
                &&& f.transform_of(k2) == self.transform_of(k)
            }
    }
}

impl<T: Copy> Movement<T> {
    /// Change the time of one waypoint of a light event that starts at `event_time`,
    /// reordering the waypoints so that they follow each other in time.
    ///
    /// Every waypoint keeps its transform and its absolute time, except the changed
    /// one, which gets the new time. If two waypoints would end up at the same time
    /// the reorder is invalid and nothing changes (`None`). Otherwise the movement is
    /// rebuilt in time order and the new start time of the event is returned,
    /// together with the original ids of the waypoints in their new order.
    pub fn retime_waypoint(
        &mut self,
        event_time: Time,
        waypoint: WaypointId,
        change: Change<Time>,
    ) -> (res: Option<(Time, Vec<WaypointId>)>)
        requires
            old(self)@.fits(),
            time_in_range(event_time as int),
            change_in_range(change),
        ensures
            res is None <==> old(self)@.has_time_clash(event_time as int, waypoint, change),
            res is None ==> final(self)@ == old(self)@,
            res matches Some((new_time, order)) ==> old(self)@.retimed_as(
                final(self)@,
                event_time as int,
                waypoint,
                change,
                new_time as int,
                order@,
            ),
    {
        let ghost m = self@;
        let ghost et = event_time as int;
        let positions = self.timed_positions();
        let n = positions.len();

        // Absolute times, with the change applied to the chosen waypoint
        let mut keyed: Vec<(Time, usize)> = Vec::new();
        let mut k: usize = 0;
        while k < n
            invariant
                0 <= k <= n,
                n == m.key_frames.len() + 1,
                positions@.len() == n,
                m.fits(),
                time_in_range(event_time as int),
                change_in_range(change),
                et == event_time,
                forall|j: int|
                    0 <= j < n ==> {
                        &&& (#[trigger] positions@[j]).0 == waypoint_at(j)
                        &&& positions@[j].1 == m.transform_of(j)
                        &&& positions@[j].2 == m.time_of(j)
                    },
                keyed@.len() == k,
                forall|j: int|
                    0 <= j < k ==> (#[trigger] keyed@[j]).1 == j && keyed@[j].0 == m.moved_time(
                        et,
                        waypoint,
                        change,
                        j,
                    ),
            decreases n - k,
        {
            assert(-MAX_TIME <= m.time_of(k as int) <= MAX_TIME);
            let mut time = event_time + positions[k].2;
            let is_target = match waypoint {
                WaypointId::Initial => k == 0,
                WaypointId::Frame(i) => k >= 1 && k - 1 == i,
            };
            if is_target {
                change.apply(&mut time);
            }
            keyed.push((time, k));
            k = k + 1;
        }
        let ghost src = keyed@;
        assert(src.no_duplicates()) by {
            assert forall|a: int, b: int|
                0 <= a < src.len() && 0 <= b < src.len() && a != b implies src[a] != src[b] by {
                assert(src[a].1 == a);
                assert(src[b].1 == b);
            }
        }

        sort_by_time(&mut keyed);
        let ghost sorted = keyed@;
        proof {
            src.lemma_multiset_has_no_duplicates();
            sorted.lemma_multiset_has_no_duplicates_conv();
            assert(sorted.len() == src.len()) by {
                assert(sorted.len() == sorted.to_multiset().len());
                assert(src.len() == src.to_multiset().len());
            }
            assert forall|i: int| 0 <= i < sorted.len() implies (#[trigger] sorted[i]).1 < n
                && sorted[i].0 == m.moved_time(et, waypoint, change, sorted[i].1 as int) by {
                assert(sorted.contains(sorted[i]));
                assert(sorted.to_multiset().count(sorted[i]) > 0);
                assert(src.contains(sorted[i]));
                let j = choose|j: int| 0 <= j < src.len() && src[j] == sorted[i];
                assert(src[j].1 == j);
            }
            assert forall|i: int| 0 <= i < sorted.len() implies -3 * MAX_TIME <= (
            #[trigger] sorted[i]).0 <= 3 * MAX_TIME by {
                assert(sorted[i].1 < n);
                assert(-MAX_TIME <= m.time_of(sorted[i].1 as int) <= MAX_TIME);
            }
            assert forall|k: int| 0 <= k < n implies #[trigger] holds_position(sorted, k) by {
                assert(src[k].1 == k);
                assert(src.contains(src[k]));
                assert(src.to_multiset().count(src[k]) > 0);
                assert(sorted.contains(src[k]));
            }
        }

        // Two waypoints at the same time make the reorder invalid
        let mut i: usize = 0;
        while i + 1 < n
            invariant
                0 <= i < n,
                n == m.key_frames.len() + 1,
                keyed@ == sorted,
                sorted.len() == n,
                sorted.no_duplicates(),
                et == event_time,
                m == old(self)@,
                self@ == m,
                forall|a: int|
                    0 <= a < sorted.len() ==> (#[trigger] sorted[a]).1 < n && sorted[a].0
                        == m.moved_time(et, waypoint, change, sorted[a].1 as int),
                forall|a: int, b: int|
                    0 <= a <= b < sorted.len() ==> sorted[a].0 <= sorted[b].0,
                forall|a: int, b: int|
                    0 <= a < b <= i ==> (#[trigger] sorted[a]).0 < (#[trigger] sorted[b]).0,
            decreases n - i,
        {
            if keyed[i].0 == keyed[i + 1].0 {
                proof {
                    assert(sorted[i as int] != sorted[i + 1]);
                    let a = sorted[i as int].1 as int;
                    let b = sorted[i + 1].1 as int;
                    assert(sorted[i as int].1 < n && sorted[i + 1].1 < n);
                    assert(m.moved_time(et, waypoint, change, a) == m.moved_time(
                        et,
                        waypoint,
                        change,
                        b,
                    ));
                    assert(m.has_index(a) && m.has_index(b) && a != b);
                    assert(m.has_time_clash(et, waypoint, change));
                }
                return None;
            }
            i = i + 1;
        }
        assert forall|a: int, b: int|
            0 <= a < b < n implies (#[trigger] sorted[a]).0 < (#[trigger] sorted[b]).0 by {
            assert(b <= i);
        }
        proof {
            assert forall|a: int, b: int|
                m.has_index(a) && m.has_index(b) && a != b implies #[trigger] m.moved_time(
                et,
                waypoint,
                change,
                a,
            ) != #[trigger] m.moved_time(et, waypoint, change, b) by {
                assert(holds_position(sorted, a));
                assert(holds_position(sorted, b));
                let pa = choose|p: int| 0 <= p < sorted.len() && (#[trigger] sorted[p]).1 == a;
                let pb = choose|p: int| 0 <= p < sorted.len() && (#[trigger] sorted[p]).1 == b;
                assert(sorted[pa].1 == a);
                assert(sorted[pb].1 == b);
                assert(pa != pb);
                if pa < pb {
                    assert(sorted[pa].0 < sorted[pb].0);
                } else {
                    assert(sorted[pb].0 < sorted[pa].0);
                }
            }
        }

        // Rebuild the movement in time order
        let first = keyed[0];
        assert(-MAX_TIME <= m.time_of(0) <= MAX_TIME);
        let new_time = first.0 - self.fade_in;
        let mut frames: Vec<MoveFrame<T>> = Vec::new();
        let mut order: Vec<WaypointId> = Vec::new();
        order.push(waypoint_id_at(first.1));
        let mut last = first.0;
        let mut i: usize = 1;
        while i < n
            invariant
                1 <= i <= n,
                n == m.key_frames.len() + 1,
                keyed@ == sorted,
                sorted.len() == n,
                positions@.len() == n,
                forall|j: int|
                    0 <= j < n ==> {
                        &&& (#[trigger] positions@[j]).0 == waypoint_at(j)
                        &&& positions@[j].1 == m.transform_of(j)
                        &&& positions@[j].2 == m.time_of(j)
                    },
                forall|a: int| 0 <= a < sorted.len() ==> (#[trigger] sorted[a]).1 < n,
                forall|a: int|
                    0 <= a < sorted.len() ==> -3 * MAX_TIME <= (#[trigger] sorted[a]).0 <= 3
                        * MAX_TIME,
                forall|a: int, b: int|
                    0 <= a < b < n ==> (#[trigger] sorted[a]).0 < (#[trigger] sorted[b]).0,
                first == sorted[0],
                last == sorted[i - 1].0,
                frames@.len() == i - 1,
                order@.len() == i,
                forall|j: int| 0 <= j <= i - 1 ==> lerp_sum(frames@, j) == sorted[j].0 - first.0,
                forall|j: int|
                    0 <= j < i ==> waypoint_index(#[trigger] order@[j]) == sorted[j].1,
                forall|j: int|
                    0 <= j < i - 1 ==> (#[trigger] frames@[j]).transform == m.transform_of(
                        sorted[j + 1].1 as int,
                    ),
            decreases n - i,
        {
            let entry = keyed[i];
            let ghost before = frames@;
            let frame = MoveFrame { lerp_time: entry.0 - last, transform: positions[entry.1].1 };
            frames.push(frame);
            proof {
                assert forall|j: int| 0 <= j <= i implies lerp_sum(frames@, j) == sorted[j].0
                    - first.0 by {
                    if j <= i - 1 {
                        lemma_lerp_sum_push(before, frame, j);
                    } else {
                        lemma_lerp_sum_push(before, frame, j - 1);
                    }
                }
            }
            order.push(waypoint_id_at(entry.1));
            last = entry.0;
            i = i + 1;
        }
        let ghost sorted_k = sorted;
        self.initial = positions[first.1].1;
        self.key_frames = frames;
        proof {
            let f = self@;
            assert forall|i: int| 0 <= i < order@.len() implies {
                &&& m.has_index(waypoint_index(#[trigger] order@[i]))
                &&& new_time + f.time_of(i) == m.moved_time(
                    et,
                    waypoint,
                    change,
                    waypoint_index(order@[i]),
                )
                &&& f.transform_of(i) == m.transform_of(waypoint_index(order@[i]))
            } by {
                assert(sorted[i].1 < n);
                if i > 0 {
                    assert(frames@[i - 1].transform == m.transform_of(sorted[i].1 as int));
                }
            }
            assert forall|i: int, j: int| 0 <= i < j < order@.len() implies m.moved_time(
                et,
                waypoint,
                change,
                waypoint_index(#[trigger] order@[i]),
            ) < m.moved_time(et, waypoint, change, waypoint_index(#[trigger] order@[j])) by {
                assert(sorted[i].0 < sorted[j].0);
            }
            assert forall|k: int| m.has_index(k) implies #[trigger] lists_waypoint(order@, k) by {
                assert(holds_position(sorted, k));
                let p = choose|p: int| 0 <= p < sorted.len() && (#[trigger] sorted[p]).1 == k;
                assert(waypoint_index(order@[p]) == k);
            }
        }
        Some((new_time, order))
    }
}


/// Two frame lists whose frames agree from some point on (up to an offset in the
/// indices) keep the same difference of their sums from that point on.
pub proof fn lemma_lerp_sum_offset<T>(
    f: Seq<MoveFrame<T>>,
    g: Seq<MoveFrame<T>>,
    i0: int,
    j0: int,
    len: int,
    c: int,
)
    requires
        0 <= i0,
        0 <= j0,
        0 <= len,
        i0 + len <= f.len(),
        j0 + len <= g.len(),
        lerp_sum(g, j0) == lerp_sum(f, i0) + c,
        forall|a: int| i0 <= a < i0 + len ==> (#[trigger] f[a]).lerp_time == g[a - i0 + j0].lerp_time,
    ensures
        forall|a: int| i0 <= a <= i0 + len ==> #[trigger] lerp_sum(f, a) + c == lerp_sum(g, a - i0 + j0),
    decreases len,
{
    if len > 0 {
        lemma_lerp_sum_offset(f, g, i0, j0, len - 1, c);
        let a = i0 + len;
        assert(f[a - 1].lerp_time == g[a - 1 - i0 + j0].lerp_time);
        assert(lerp_sum(g, j0 + len) == lerp_sum(g, j0 + len - 1) + g[j0 + len - 1].lerp_time);
        assert(lerp_sum(f, i0 + len - 1) + c == lerp_sum(g, (i0 + len - 1) - i0 + j0));
    }
}

/// What deleting a waypoint did.
#[derive(Debug, Clone, Copy, PartialEq, Eq, Structural)]
pub enum WaypointRemoval {
    /// The waypoint was removed; the start of the event moves later by `time_shift`.
    Removed { time_shift: Time },
    /// The initial waypoint is the only one: the whole light has to go instead.
    OnlyWaypoint,
    /// There is no such waypoint.
    Missing,
}

impl<T> MovementView<T> {
    /// Position that waypoint `k` moves to when waypoint `r` is removed (`k != r`).
    pub open spec fn index_after_removal(r: int, k: int) -> int {
        if k < r {
            k
        } else {
            k - 1
        }
    }

    /// Position that waypoint `k` moves to when a waypoint is inserted at position `p`.
    pub open spec fn index_after_insertion(p: int, k: int) -> int {
        if k < p {
            k
        } else {
            k + 1
        }
    }
}

impl<T: Copy> Movement<T> {
    /// Delete a waypoint. Deleting the initial waypoint makes the first key frame the
    /// initial one and moves the event start later by its interpolation time; deleting a
    /// key frame gives its interpolation time to the following frame. Every other
    /// waypoint keeps its transform and its absolute time.
    pub fn delete_waypoint(&mut self, id: WaypointId) -> (res: WaypointRemoval)
        requires
            old(self)@.fits(),
        ensures
            old(self)@.removed_as(final(self)@, id, res),
    {
        let ghost m = self@;
        let n = self.key_frames.len();
        match id {
            WaypointId::Initial => {
                if n == 0 {
                    return WaypointRemoval::OnlyWaypoint;
                }
                let first = self.key_frames.remove(0);
                self.initial = first.transform;
                proof {
                    let f = self@;
                    assert(f.key_frames =~= m.key_frames.subrange(1, n as int));
                    assert(first == m.key_frames[0]);
                    assert(lerp_sum(m.key_frames, 0) == 0);
                    assert(lerp_sum(m.key_frames, 1) == first.lerp_time);
                    assert(lerp_sum(f.key_frames, 0) == 0);
                    lemma_lerp_sum_offset(m.key_frames, f.key_frames, 1, 0, n - 1, -first.lerp_time);
                    assert forall|k: int|
                        #![trigger m.time_of(k)]
                        m.has_index(k) && k != 0 implies {
                        &&& first.lerp_time + f.time_of(k - 1) == m.time_of(k)
                        &&& f.transform_of(k - 1) == m.transform_of(k)
                    } by {
                        assert(lerp_sum(m.key_frames, k) - first.lerp_time == lerp_sum(f.key_frames, k - 1 + 0));
                    }
                }
                WaypointRemoval::Removed { time_shift: first.lerp_time }
            },
            WaypointId::Frame(i) => {
                if i >= n {
                    return WaypointRemoval::Missing;
                }
                let removed = self.key_frames.remove(i);
                let ghost after_remove = self.key_frames@;
                if i < self.key_frames.len() {
                    let next = self.key_frames[i];
                    proof {
                        assert(-MAX_TIME <= m.time_of(i as int) <= MAX_TIME);
                        assert(-MAX_TIME <= m.time_of(i + 1) <= MAX_TIME);
                        assert(-MAX_TIME <= m.time_of(i + 2) <= MAX_TIME);
                        assert(m.time_of(i + 2) == m.time_of(i + 1) + m.key_frames[i + 1].lerp_time);
                    }
                    self.key_frames.set(
                        i,
                        MoveFrame {
                            lerp_time: next.lerp_time + removed.lerp_time,
                            transform: next.transform,
                        },
                    );
                }
                proof {
                    let f = self@;
                    let r = i + 1;
                    lemma_lerp_sum_prefix(m.key_frames, f.key_frames, i as int);
                    if i + 1 < n {
                        assert(lerp_sum(f.key_frames, i + 1) == lerp_sum(m.key_frames, i + 2));
                        lemma_lerp_sum_offset(m.key_frames, f.key_frames, i + 2, i + 1, n - i - 2, 0);
                    }
                    assert forall|k: int|
                        #![trigger m.time_of(k)]
                        m.has_index(k) && k != r implies {
                        let k2 = MovementView::<T>::index_after_removal(r, k);
                        &&& 0 + f.time_of(k2) == m.time_of(k)
                        &&& f.transform_of(k2) == m.transform_of(k)
                    } by {
                        if k < r {
                            if k <= i {
                                lemma_lerp_sum_prefix(m.key_frames, f.key_frames, k);
                            }
                        } else {
                            assert(k >= i + 2);
                            assert(lerp_sum(m.key_frames, k) + 0 == lerp_sum(f.key_frames, k - (i + 2) + (i + 1)));
                        }
                    }
                }
                WaypointRemoval::Removed { time_shift: 0 }
            },
        }
    }
}


impl<T: Copy> Movement<T> {
    /// Insert a new waypoint at position `p` (0 makes it the initial one) of a light
    /// event that starts at `event_time`, so that it is reached at the absolute time
    /// `target_time`. Every old waypoint keeps its transform and its absolute time.
    /// Returns the new start time of the event, or `None` (and changes nothing) when
    /// `p` is past the end.
    pub fn insert_waypoint(
        &mut self,
        event_time: Time,
        p: usize,
        target_time: Time,
        transform: T,
    ) -> (res: Option<Time>)
        requires
            old(self)@.fits(),
            time_in_range(event_time as int),
            time_in_range(target_time as int),
        ensures
            res is None <==> p > old(self)@.key_frames.len() + 1,
            res is None ==> final(self)@ == old(self)@,
            res matches Some(new_time) ==> old(self)@.inserted_as(
                final(self)@,
                event_time as int,
                p as int,
                target_time as int,
                transform,
                new_time as int,
            ),
    {
        let ghost m = self@;
        let n = self.key_frames.len();
        proof {
            assert(-MAX_TIME <= m.time_of(0) <= MAX_TIME);
        }
        if p == 0 {
            // The new waypoint becomes the initial one
            let time = target_time - self.fade_in;
            let frame = MoveFrame { lerp_time: event_time - time, transform: self.initial };
            self.initial = transform;
            self.key_frames.insert(0, frame);
            proof {
                let f = self@;
                assert(f.key_frames[0] == frame);
                assert(lerp_sum(f.key_frames, 0) == 0);
                assert(lerp_sum(f.key_frames, 1) == frame.lerp_time);
                assert(lerp_sum(m.key_frames, 0) == 0);
                assert forall|a: int| 0 <= a < n implies (#[trigger] m.key_frames[a]).lerp_time
                    == f.key_frames[a - 0 + 1].lerp_time by {
                    assert(f.key_frames[a + 1] == m.key_frames[a]);
                }
                lemma_lerp_sum_offset(m.key_frames, f.key_frames, 0, 1, n as int, frame.lerp_time as int);
                assert forall|k: int|
                    #![trigger m.time_of(k)]
                    m.has_index(k) implies {
                    let k2 = MovementView::<T>::index_after_insertion(0, k);
                    &&& time + f.time_of(k2) == event_time + m.time_of(k)
                    &&& f.transform_of(k2) == m.transform_of(k)
                } by {
                    assert(lerp_sum(m.key_frames, k) + frame.lerp_time == lerp_sum(f.key_frames, k - 0 + 1));
                    if k > 0 {
                        assert(f.key_frames[k] == m.key_frames[k - 1]);
                    }
                }
            }
            return Some(time);
        }
        let i = p - 1;
        if i > n {
            return None;
        }
        let positions = self.timed_positions();
        let last_time = event_time + positions[i].2;
        proof {
            assert(-MAX_TIME <= m.time_of(i as int) <= MAX_TIME);
        }
        let lerp_time = target_time - last_time;
        let frame = MoveFrame { lerp_time, transform };
        self.key_frames.insert(i, frame);
        let ghost inserted = self.key_frames@;
        if i + 1 < self.key_frames.len() {
            let next = self.key_frames[i + 1];
            proof {
                assert(next == m.key_frames[i as int]);
                assert(-MAX_TIME <= m.time_of(i + 1) <= MAX_TIME);
                assert(m.time_of(i + 1) == m.time_of(i as int) + m.key_frames[i as int].lerp_time);
            }
            self.key_frames.set(
                i + 1,
                MoveFrame { lerp_time: next.lerp_time - lerp_time, transform: next.transform },
            );
        }
        proof {
            let f = self@;
            assert forall|j: int| 0 <= j < i implies f.key_frames[j] == m.key_frames[j] by {}
            lemma_lerp_sum_prefix(m.key_frames, f.key_frames, i as int);
            assert(f.key_frames[i as int] == frame);
            assert(lerp_sum(f.key_frames, i + 1) == lerp_sum(m.key_frames, i as int) + lerp_time);
            if i < n {
                assert(lerp_sum(f.key_frames, i + 2) == lerp_sum(m.key_frames, i + 1));
                assert forall|a: int| i + 1 <= a < n implies (#[trigger] m.key_frames[a]).lerp_time
                    == f.key_frames[a - (i + 1) + (i + 2)].lerp_time by {
                    assert(f.key_frames[a + 1] == m.key_frames[a]);
                }
                lemma_lerp_sum_offset(m.key_frames, f.key_frames, i + 1, i + 2, n - i - 1, 0);
            }
            assert forall|k: int|
                #![trigger m.time_of(k)]
                m.has_index(k) implies {
                let k2 = MovementView::<T>::index_after_insertion(p as int, k);
                &&& event_time + f.time_of(k2) == event_time + m.time_of(k)
                &&& f.transform_of(k2) == m.transform_of(k)
            } by {
                if k < p {
                    if k <= i {
                        lemma_lerp_sum_prefix(m.key_frames, f.key_frames, k);
                    }
                    if k > 0 {
                        assert(f.key_frames[k - 1] == m.key_frames[k - 1]);
                    }
                } else {
                    assert(k >= i + 1);
                    assert(lerp_sum(m.key_frames, k) + 0 == lerp_sum(f.key_frames, k - (i + 1) + (i + 2)));
                    assert(f.key_frames[k].transform == m.key_frames[k - 1].transform);
                }
            }
        }
        Some(event_time)
    }
}


impl<T: Copy + Same> Movement<T> {
    /// An exact copy of the movement.
    pub fn duplicate(&self) -> (res: Self)
        ensures
            res@ == self@,
    {
        let n = self.key_frames.len();
        let mut frames: Vec<MoveFrame<T>> = Vec::new();
        let mut i: usize = 0;
        while i < n
            invariant
                0 <= i <= n,
                n == self.key_frames@.len(),
                frames@ == self.key_frames@.subrange(0, i as int),
            decreases n - i,
        {
            frames.push(self.key_frames[i]);
            i = i + 1;
            assert(frames@ =~= self.key_frames@.subrange(0, i as int));
        }
        assert(frames@ =~= self.key_frames@);
        Movement {
            fade_in: self.fade_in,
            fade_out: self.fade_out,
            initial: self.initial,
            key_frames: frames,
        }
    }

    /// Whether two movements are equal.
    pub fn same_as(&self, other: &Self) -> (res: bool)
        ensures
            res == (self@ == other@),
    {
        if self.fade_in != other.fade_in || self.fade_out != other.fade_out || !self.initial.same(
            &other.initial,
        ) {
            return false;
        }
        let n = self.key_frames.len();
        if n != other.key_frames.len() {
            assert(self@.key_frames.len() != other@.key_frames.len());
            return false;
        }
        let mut i: usize = 0;
        while i < n
            invariant
                0 <= i <= n,
                n == self.key_frames@.len(),
                n == other.key_frames@.len(),
                forall|j: int| 0 <= j < i ==> self.key_frames@[j] == other.key_frames@[j],
            decreases n - i,
        {
            let a = self.key_frames[i];
            let b = other.key_frames[i];
            if a.lerp_time != b.lerp_time || !a.transform.same(&b.transform) {
                assert(self@.key_frames[i as int] != other@.key_frames[i as int]);
                return false;
            }
            i = i + 1;
        }
        assert(self@.key_frames =~= other@.key_frames);
        true
    }
}


impl<T> MovementView<T> {
    /// Waypoint times never go backwards.
    pub open spec fn times_sorted(self) -> bool {
        forall|a: int, b: int|
            0 <= a <= b <= self.key_frames.len() ==> #[trigger] self.time_of(a)
                <= #[trigger] self.time_of(b)
    }
}

/// Binary search for `key` in sorted `times`: `Ok` with the index of an element equal
/// to the key, or `Err` with the index where the key could be inserted keeping the order.
fn search_sorted(times: &Vec<Time>, key: Time) -> (res: Result<usize, usize>)
    requires
        forall|a: int, b: int| 0 <= a <= b < times@.len() ==> times@[a] <= times@[b],
    ensures
        match res {
            Ok(i) => i < times@.len() && times@[i as int] == key,
            Err(i) => {
                &&& i <= times@.len()
                &&& forall|j: int| 0 <= j < i ==> times@[j] < key
                &&& forall|j: int| i <= j < times@.len() ==> times@[j] > key
            },
        },
{
    let mut lo: usize = 0;
    let mut hi: usize = times.len();
    while lo < hi
        invariant
            0 <= lo <= hi <= times@.len(),
            forall|a: int, b: int| 0 <= a <= b < times@.len() ==> times@[a] <= times@[b],
            forall|j: int| 0 <= j < lo ==> times@[j] < key,
            forall|j: int| hi <= j < times@.len() ==> times@[j] > key,
        decreases hi - lo,
    {
        let mid = lo + (hi - lo) / 2;
        if times[mid] < key {
            lo = mid + 1;
        } else if times[mid] > key {
            hi = mid;
        } else {
            return Ok(mid);
        }
    }
    Err(lo)
}

/// The new id of the waypoint that was `original` before a reorder listed by `order`
/// (the original ids in their new order), or `None` if it is not listed.
pub fn reordered_id(order: &Vec<WaypointId>, original: WaypointId) -> (res: Option<WaypointId>)
    ensures
        match res {
            Some(id) => exists|i: int|
                0 <= i < order@.len() && order@[i] == original && id == waypoint_at(i) && forall|
                    j: int,
                | 0 <= j < i ==> order@[j] != original,
            None => !order@.contains(original),
        },
{
    let n = order.len();
    let mut i: usize = 0;
    while i < n
        invariant
            0 <= i <= n,
            n == order@.len(),
            forall|j: int| 0 <= j < i ==> order@[j] != original,
        decreases n - i,
    {
        if order[i] == original {
            let id = waypoint_id_at(i);
            assert(order@[i as int] == original && id == waypoint_at(i as int));
            return Some(id);
        }
        i = i + 1;
    }
    None
}

impl<T: Copy> Movement<T> {
    /// Where a new waypoint reached at `new_time` (relative to the start of the
    /// movement) goes among the waypoints: after those reached earlier and before
    /// those reached later (next to one reached at the same time).
    pub fn new_waypoint_position(&self, new_time: Time) -> (p: usize)
        requires
            self@.fits(),
            self@.times_sorted(),
        ensures
            p <= self@.key_frames.len() + 1,
            forall|k: int| 0 <= k < p && self@.time_of(k) != new_time ==> self@.time_of(k) < new_time,
            forall|k: int|
                p <= k <= self@.key_frames.len() && self@.time_of(k) != new_time ==> self@.time_of(k)
                    > new_time,
    {
        let positions = self.timed_positions();
        let n = positions.len();
        let mut times: Vec<Time> = Vec::new();
        let mut i: usize = 0;
        while i < n
            invariant
                0 <= i <= n,
                n == positions@.len(),
                n == self@.key_frames.len() + 1,
                forall|k: int|
                    0 <= k < n ==> (#[trigger] positions@[k]).2 == self@.time_of(k),
                times@.len() == i,
                forall|k: int| 0 <= k < i ==> times@[k] == self@.time_of(k),
            decreases n - i,
        {
            times.push(positions[i].2);
            i = i + 1;
        }
        assert forall|a: int, b: int| 0 <= a <= b < times@.len() implies times@[a] <= times@[b] by {
            assert(self@.time_of(a) <= self@.time_of(b));
        }
        match search_sorted(&times, new_time) {
            Ok(p) => {
                assert forall|k: int| 0 <= k < p && self@.time_of(k) != new_time implies self@.time_of(k)
                    < new_time by {
                    assert(self@.time_of(k) <= self@.time_of(p as int));
                }
                assert forall|k: int|
                    p <= k <= self@.key_frames.len() && self@.time_of(k) != new_time implies self@.time_of(k)
                    > new_time by {
                    assert(self@.time_of(p as int) <= self@.time_of(k));
                }
                p
            },
            Err(p) => {
                assert forall|k: int| 0 <= k < p implies self@.time_of(k) < new_time by {
                    assert(times@[k] < new_time);
                }
                assert forall|k: int| p <= k <= self@.key_frames.len() implies self@.time_of(k) > new_time by {
                    assert(times@[k] > new_time);
                }
                p
            },
        }
    }
}

} // verus!
