use vstd::prelude::*;

use crate::change::Change;
use crate::movement::{
    change_in_range, waypoint_index, Movement, MovementView, WaypointId, WaypointRemoval,
};
use crate::snapshot::{Same, Snapshot};
use crate::time::{time_in_range, Time, MAX_TIME};

verus! {

/// Identifies a light event of a level by its index.
#[derive(Debug, Clone, Copy, PartialEq, Eq, Structural)]
pub struct LightId {
    pub event: usize,
}

/// A light that appears in the level: its shape `S`, its movement over
/// transforms `T`, and whether touching it hurts.
#[derive(Debug, Clone)]
pub struct LightEvent<S, T> {
    pub shape: S,
    pub movement: Movement<T>,
    /// Whether the light is dangerous.
    pub danger: bool,
}

/// Something that happens in a level.
#[derive(Debug, Clone)]
pub enum Event<S, T> {
    Light(LightEvent<S, T>),
    /// Swap light and dark colors.
    PaletteSwap,
}

/// An event together with the time it starts at.
#[derive(Debug, Clone)]
pub struct TimedEvent<S, T> {
    pub time: Time,
    pub event: Event<S, T>,
}

/// The events of a level.
#[derive(Debug, Clone)]
pub struct Level<S, T> {
    pub events: Vec<TimedEvent<S, T>>,
}

/// Mathematical view of a [`LightEvent`].
pub struct LightEventView<S, T> {
    pub shape: S,
    pub movement: MovementView<T>,
    pub danger: bool,
}

/// Mathematical view of an [`Event`].
pub enum EventView<S, T> {
    Light(LightEventView<S, T>),
    PaletteSwap,
}

/// Mathematical view of a [`TimedEvent`].
pub struct TimedEventView<S, T> {
    pub time: Time,
    pub event: EventView<S, T>,
}

/// Mathematical view of a [`Level`].
pub struct LevelView<S, T> {
    pub events: Seq<TimedEventView<S, T>>,
}

impl<S, T> View for LightEvent<S, T> {
    type V = LightEventView<S, T>;

    open spec fn view(&self) -> LightEventView<S, T> {
        LightEventView { shape: self.shape, movement: self.movement@, danger: self.danger }
    }
}

impl<S, T> View for Event<S, T> {
    type V = EventView<S, T>;

    open spec fn view(&self) -> EventView<S, T> {
        match self {
            Event::Light(light) => EventView::Light(light@),
            Event::PaletteSwap => EventView::PaletteSwap,
        }
    }
}

impl<S, T> View for TimedEvent<S, T> {
    type V = TimedEventView<S, T>;

    open spec fn view(&self) -> TimedEventView<S, T> {
        TimedEventView { time: self.time, event: self.event@ }
    }
}

impl<S, T> View for Level<S, T> {
    type V = LevelView<S, T>;

    open spec fn view(&self) -> LevelView<S, T> {
        LevelView { events: self.events@.map_values(|e: TimedEvent<S, T>| e@) }
    }
}

impl<S, T> TimedEventView<S, T> {
    /// Duration of the event.
    pub open spec fn duration(self) -> int {
        match self.event {
            EventView::Light(light) => light.movement.total_duration(),
            EventView::PaletteSwap => 0,
        }
    }

    /// Time at which the event ends.
    pub open spec fn end_time(self) -> int {
        self.time + self.duration()
    }

    /// Start time and movement lie in the accepted time range.
    pub open spec fn fits(self) -> bool {
        &&& time_in_range(self.time as int)
        &&& match self.event {
            EventView::Light(light) => light.movement.fits(),
            EventView::PaletteSwap => true,
        }
    }
}

/// The latest end time of the first `k` events (0 when `k` is 0).
pub open spec fn last_end_time<S, T>(events: Seq<TimedEventView<S, T>>, k: int) -> int
    decreases k,
{
    if k <= 0 {
        0
    } else if k == 1 {
        events[0].end_time()
    } else {
        let rest = last_end_time(events, k - 1);
        let end = events[k - 1].end_time();
        if end > rest {
            end
        } else {
            rest
        }
    }
}

/// Among the first `k` events, `last_end_time` is the latest end: no event of them ends
/// later, and one of them ends exactly then.
proof fn lemma_last_end_time_is_max<S, T>(events: Seq<TimedEventView<S, T>>, k: int)
    requires
        1 <= k <= events.len(),
    ensures
        forall|i: int| 0 <= i < k ==> #[trigger] events[i].end_time() <= last_end_time(events, k),
        exists|i: int| 0 <= i < k && #[trigger] events[i].end_time() == last_end_time(events, k),
    decreases k,
{
    if k > 1 {
        lemma_last_end_time_is_max(events, k - 1);
        let w = choose|i: int| 0 <= i < k - 1 && #[trigger] events[i].end_time() == last_end_time(events, k - 1);
        if events[k - 1].end_time() > last_end_time(events, k - 1) {
            assert(events[k - 1].end_time() == last_end_time(events, k));
        } else {
            assert(events[w].end_time() == last_end_time(events, k));
        }
    } else {
        assert(events[0].end_time() == last_end_time(events, 1));
    }
}

/// The time when the last event of a level ends is the latest end of any event: every
/// event ends by then, and some event ends exactly then (0 for an empty level).
pub proof fn law_last_time_is_latest_end<S, T>(level: LevelView<S, T>)
    ensures
        level.events.len() == 0 ==> level.last_time() == 0,
        forall|i: int| 0 <= i < level.events.len() ==> #[trigger] level.events[i].end_time() <= level.last_time(),
        level.events.len() > 0 ==> exists|i: int|
            0 <= i < level.events.len() && #[trigger] level.events[i].end_time() == level.last_time(),
{
    if level.events.len() > 0 {
        lemma_last_end_time_is_max(level.events, level.events.len() as int);
    }
}

impl<S, T> LevelView<S, T> {
    /// Every event lies in the accepted time range.
    pub open spec fn fits(self) -> bool {
        forall|i: int| 0 <= i < self.events.len() ==> (#[trigger] self.events[i]).fits()
    }

    /// The time when the last event ends (0 for an empty level).
    pub open spec fn last_time(self) -> int {
        last_end_time(self.events, self.events.len() as int)
    }

    /// Whether `id` refers to a light event.
    pub open spec fn is_light(self, id: LightId) -> bool {
        id.event < self.events.len() && self.events[id.event as int].event is Light
    }

    /// The movement of the light event `id` (meaningful when `is_light(id)`).
    pub open spec fn movement_of(self, id: LightId) -> MovementView<T> {
        self.events[id.event as int].event->Light_0.movement
    }

    /// `f` differs from this level only in event `i`.
    pub open spec fn same_except(self, f: LevelView<S, T>, i: int) -> bool {
        &&& f.events.len() == self.events.len()
        &&& forall|j: int| 0 <= j < self.events.len() && j != i ==> f.events[j] == self.events[j]
    }

    /// `f` is this level after changing the time of `waypoint` of `light` by `change`,
    /// with outcome `res` (the original ids of the waypoints in their new order).
    pub open spec fn waypoint_retimed(
        self,
        f: LevelView<S, T>,
        light: LightId,
        waypoint: WaypointId,
        change: Change<i64>,
        res: Option<Seq<WaypointId>>,
    ) -> bool {
        &&& !self.is_light(light) ==> res is None && f == self
        &&& self.is_light(light) ==> {
            let m = self.movement_of(light);
            let time = self.events[light.event as int].time as int;
            &&& res is None <==> m.has_time_clash(time, waypoint, change)
            &&& res is None ==> f == self
            &&& res matches Some(order) ==> {
                let new_time = f.events[light.event as int].time as int;
                let fm = f.movement_of(light);
                &&& self.with_light(f, light, new_time, fm)
                &&& m.retimed_as(fm, time, waypoint, change, new_time, order)
            }
        }
    }

    /// `f` is this level after deleting `waypoint` of `light`, with outcome `res`.
    pub open spec fn waypoint_deleted(
        self,
        f: LevelView<S, T>,
        light: LightId,
        waypoint: WaypointId,
        res: WaypointDeletion,
    ) -> bool {
        &&& !self.is_light(light) ==> res == WaypointDeletion::NoLight && f == self
        &&& self.is_light(light) ==> {
            let m = self.movement_of(light);
            let time = self.events[light.event as int].time as int;
            match res {
                WaypointDeletion::NoLight => false,
                WaypointDeletion::LightDeleted => {
                    &&& waypoint == WaypointId::Initial
                    &&& m.key_frames.len() == 0
                    &&& f.events == self.events.update(
                        light.event as int,
                        self.events.last(),
                    ).drop_last()
                },
                WaypointDeletion::Waypoint(removal) => {
                    let fm = f.movement_of(light);
                    let shift = match removal {
                        WaypointRemoval::Removed { time_shift } => time_shift as int,
                        _ => 0,
                    };
                    &&& removal != WaypointRemoval::OnlyWaypoint
                    &&& m.removed_as(fm, waypoint, removal)
                    &&& self.with_light(f, light, time + shift, fm)
                },
            }
        }
    }

    /// `f` is this level where light event `id` now starts at `time` and moves as `movement`,
    /// keeping its shape and danger.
    pub open spec fn with_light(
        self,
        f: LevelView<S, T>,
        id: LightId,
        time: int,
        movement: MovementView<T>,
    ) -> bool {
        let old_light = self.events[id.event as int].event->Light_0;
        &&& self.same_except(f, id.event as int)
        &&& f.events[id.event as int].time == time
        &&& f.events[id.event as int].event == EventView::Light(
            LightEventView { shape: old_light.shape, movement, danger: old_light.danger },
        )
    }
}

impl<S, T> TimedEvent<S, T> {
    /// Returns the duration of the event.
    pub fn duration(&self) -> (res: Time)
        requires
            self@.fits(),
        ensures
            res == self@.duration(),
    {
        match &self.event {
            Event::Light(light) => light.movement.total_duration(),
            Event::PaletteSwap => 0,
        }
    }
}

impl<S, T> Level<S, T> {
    /// Whether every event lies in the accepted time range.
    pub fn fits_range(&self) -> (res: bool)
        ensures
            res == self@.fits(),
    {
        let n = self.events.len();
        let mut i: usize = 0;
        while i < n
            invariant
                0 <= i <= n,
                n == self@.events.len(),
                forall|k: int| 0 <= k < i ==> (#[trigger] self@.events[k]).fits(),
            decreases n - i,
        {
            let event = &self.events[i];
            assert(self@.events[i as int] == event@);
            if event.time < -MAX_TIME || event.time > MAX_TIME {
                return false;
            }
            match &event.event {
                Event::Light(light) => {
                    if !light.movement.fits_range() {
                        return false;
                    }
                },
                Event::PaletteSwap => {},
            }
            i = i + 1;
        }
        true
    }

    /// The time when the last event ends (0 for an empty level).
    pub fn last_time(&self) -> (res: Time)
        requires
            self@.fits(),
        ensures
            res == self@.last_time(),
            -4 * MAX_TIME <= res <= 4 * MAX_TIME,
    {
        let n = self.events.len();
        let mut last: Time = 0;
        let mut i: usize = 0;
        while i < n
            invariant
                0 <= i <= n,
                n == self.events@.len(),
                self@.fits(),
                last == last_end_time(self@.events, i as int),
                -4 * MAX_TIME <= last <= 4 * MAX_TIME,
            decreases n - i,
        {
            let event = &self.events[i];
            assert(self@.events[i as int] == event@);
            assert(self@.events[i as int].fits());
            proof {
                if let EventView::Light(light) = event@.event {
                    assert(-MAX_TIME <= light.movement.time_of(light.movement.key_frames.len() as int) <= MAX_TIME);
                }
            }
            let end = event.time + event.duration();
            if i == 0 || end > last {
                last = end;
            }
            i = i + 1;
        }
        last
    }

    /// Delete a light event; the last event takes its place.
    /// Returns whether there was such an event.
    pub fn delete_light(&mut self, id: LightId) -> (deleted: bool)
        ensures
            deleted == (id.event < old(self)@.events.len()),
            deleted ==> final(self)@.events == old(self)@.events.update(
                id.event as int,
                old(self)@.events.last(),
            ).drop_last(),
            !deleted ==> final(self)@ == old(self)@,
    {
        if id.event >= self.events.len() {
            return false;
        }
        self.events.swap_remove(id.event);
        assert(self@.events =~= old(self)@.events.update(
            id.event as int,
            old(self)@.events.last(),
        ).drop_last());
        true
    }

    /// Toggle whether a light is dangerous. Returns whether `id` is a light.
    pub fn toggle_danger(&mut self, id: LightId) -> (toggled: bool)
        ensures
            toggled == old(self)@.is_light(id),
            toggled ==> {
                let l = old(self)@.events[id.event as int].event->Light_0;
                &&& old(self)@.same_except(final(self)@, id.event as int)
                &&& final(self)@.events[id.event as int] == TimedEventView {
                    time: old(self)@.events[id.event as int].time,
                    event: EventView::Light(LightEventView { danger: !l.danger, ..l }),
                }
            },
            !toggled ==> final(self)@ == old(self)@,
    {
        if id.event >= self.events.len() {
            return false;
        }
        let mut event = self.events.remove(id.event);
        let toggled = match &mut event.event {
            Event::Light(light) => {
                light.danger = !light.danger;
                true
            },
            Event::PaletteSwap => false,
        };
        self.events.insert(id.event, event);
        proof {
            assert(self@.events =~= old(self)@.events.update(id.event as int, event@));
            if !toggled {
                assert(self@.events =~= old(self)@.events);
            }
        }
        toggled
    }
}


impl<S, T: Copy> Level<S, T> {
    /// The absolute time at which a waypoint of a light is reached, or `None`
    /// when there is no such light or no such waypoint.
    pub fn waypoint_time(&self, light: LightId, waypoint: WaypointId) -> (res: Option<Time>)
        requires
            self@.fits(),
        ensures
            res == (if self@.is_light(light) && self@.movement_of(light).has_index(
                waypoint_index(waypoint),
            ) {
                Some(
                    (self@.events[light.event as int].time + self@.movement_of(light).time_of(
                        waypoint_index(waypoint),
                    )) as Time,
                )
            } else {
                None
            }),
    {
        if light.event >= self.events.len() {
            return None;
        }
        let event = &self.events[light.event];
        assert(self@.events[light.event as int] == event@);
        assert(self@.events[light.event as int].fits());
        match &event.event {
            Event::Light(light_event) => {
                match light_event.movement.get_time(waypoint) {
                    Some(time) => {
                        assert(-MAX_TIME <= light_event.movement@.time_of(
                            waypoint_index(waypoint),
                        ) <= MAX_TIME);
                        Some(event.time + time)
                    },
                    None => None,
                }
            },
            Event::PaletteSwap => None,
        }
    }
}


/// What deleting a waypoint of a light did.
#[derive(Debug, Clone, Copy, PartialEq, Eq, Structural)]
pub enum WaypointDeletion {
    /// There is no such light.
    NoLight,
    /// The light had no waypoint left besides the initial one, so the whole light was deleted.
    LightDeleted,
    /// The outcome of deleting the waypoint from the light's movement.
    Waypoint(WaypointRemoval),
}

impl<S, T: Copy> Level<S, T> {
    /// Change the time of a waypoint of a light, reordering its waypoints by time.
    /// Returns the original ids of the waypoints in their new order, or `None` when
    /// there is no such light or two waypoints would end up at the same time
    /// (then nothing changes).
    pub fn move_waypoint_time(
        &mut self,
        light: LightId,
        waypoint: WaypointId,
        change: Change<Time>,
    ) -> (res: Option<Vec<WaypointId>>)
        requires
            old(self)@.fits(),
            change_in_range(change),
        ensures
            old(self)@.waypoint_retimed(
                final(self)@,
                light,
                waypoint,
                change,
                match res {
                    Some(order) => Some(order@),
                    None => None,
                },
            ),
    {
        if light.event >= self.events.len() {
            return None;
        }
        let ghost old_events = self@.events;
        assert(old_events[light.event as int] == self.events@[light.event as int]@);
        let mut event = self.events.remove(light.event);
        let res = match &mut event.event {
            Event::Light(light_event) => {
                assert(old_events[light.event as int].fits());
                match light_event.movement.retime_waypoint(event.time, waypoint, change) {
                    Some((new_time, order)) => {
                        event.time = new_time;
                        Some(order)
                    },
                    None => None,
                }
            },
            Event::PaletteSwap => None,
        };
        self.events.insert(light.event, event);
        proof {
            assert(self@.events =~= old_events.update(light.event as int, event@));
            if res is None {
                assert(self@.events =~= old_events);
            }
        }
        res
    }

    /// Delete a waypoint of a light. Deleting the initial waypoint of a light without
    /// key frames deletes the whole light (the last event takes its place).
    pub fn delete_waypoint(&mut self, light: LightId, waypoint: WaypointId) -> (res:
        WaypointDeletion)
        requires
            old(self)@.fits(),
        ensures
            old(self)@.waypoint_deleted(final(self)@, light, waypoint, res),
    {
        if light.event >= self.events.len() {
            return WaypointDeletion::NoLight;
        }
        let ghost old_events = self@.events;
        assert(old_events[light.event as int] == self.events@[light.event as int]@);
        let mut event = self.events.remove(light.event);
        let res = match &mut event.event {
            Event::Light(light_event) => {
                assert(old_events[light.event as int].fits());
                let removal = light_event.movement.delete_waypoint(waypoint);
                if let WaypointRemoval::Removed { time_shift } = removal {
                    proof {
                        let m = old_events[light.event as int].event->Light_0.movement;
                        assert(-MAX_TIME <= m.time_of(0) <= MAX_TIME);
                        assert(-MAX_TIME <= m.time_of(1) <= MAX_TIME);
                    }
                    event.time = event.time + time_shift;
                }
                match removal {
                    WaypointRemoval::OnlyWaypoint => WaypointDeletion::LightDeleted,
                    _ => WaypointDeletion::Waypoint(removal),
                }
            },
            Event::PaletteSwap => WaypointDeletion::NoLight,
        };
        self.events.insert(light.event, event);
        proof {
            assert(self@.events =~= old_events.update(light.event as int, event@));
            if res == WaypointDeletion::NoLight {
                assert(self@.events =~= old_events);
            }
        }
        if res == WaypointDeletion::LightDeleted {
            proof {
                assert(self@.events =~= old_events);
            }
            self.events.swap_remove(light.event);
            assert(self@.events =~= old_events.update(light.event as int, old_events.last()).drop_last());
        }
        res
    }

    /// Insert a new waypoint into a light at position `p` of its waypoints
    /// (0 makes it the initial one), reached at the absolute time `target_time`.
    /// Returns whether the waypoint was inserted; nothing changes when there is no
    /// such light or `p` is past the end.
    pub fn place_waypoint(
        &mut self,
        light: LightId,
        p: usize,
        target_time: Time,
        transform: T,
    ) -> (placed: bool)
        requires
            old(self)@.fits(),
            time_in_range(target_time as int),
        ensures
            placed == (old(self)@.is_light(light) && p <= old(self)@.movement_of(
                light,
            ).key_frames.len() + 1),
            !placed ==> final(self)@ == old(self)@,
            placed ==> {
                let m = old(self)@.movement_of(light);
                let time = old(self)@.events[light.event as int].time as int;
                let new_time = final(self)@.events[light.event as int].time as int;
                let f = final(self)@.movement_of(light);
                &&& old(self)@.with_light(final(self)@, light, new_time, f)
                &&& m.inserted_as(f, time, p as int, target_time as int, transform, new_time)
            },
    {
        if light.event >= self.events.len() {
            return false;
        }
        let ghost old_events = self@.events;
        assert(old_events[light.event as int] == self.events@[light.event as int]@);
        let mut event = self.events.remove(light.event);
        let placed = match &mut event.event {
            Event::Light(light_event) => {
                assert(old_events[light.event as int].fits());
                match light_event.movement.insert_waypoint(event.time, p, target_time, transform) {
                    Some(new_time) => {
                        event.time = new_time;
                        true
                    },
                    None => false,
                }
            },
            Event::PaletteSwap => false,
        };
        self.events.insert(light.event, event);
        proof {
            assert(self@.events =~= old_events.update(light.event as int, event@));
            if !placed {
                assert(self@.events =~= old_events);
            }
        }
        placed
    }
}


impl<S: Copy + Same, T: Copy + Same> TimedEvent<S, T> {
    /// An exact copy of the event.
    pub fn duplicate(&self) -> (res: Self)
        ensures
            res@ == self@,
    {
        let event = match &self.event {
            Event::Light(light) => Event::Light(
                LightEvent {
                    shape: light.shape,
                    movement: light.movement.duplicate(),
                    danger: light.danger,
                },
            ),
            Event::PaletteSwap => Event::PaletteSwap,
        };
        TimedEvent { time: self.time, event }
    }

    /// Whether two events are equal.
    pub fn same_as(&self, other: &Self) -> (res: bool)
        ensures
            res == (self@ == other@),
    {
        if self.time != other.time {
            return false;
        }
        match (&self.event, &other.event) {
            (Event::Light(a), Event::Light(b)) => {
                a.shape.same(&b.shape) && a.danger == b.danger && a.movement.same_as(&b.movement)
            },
            (Event::PaletteSwap, Event::PaletteSwap) => true,
            _ => false,
        }
    }
}

impl<S: Copy + Same, T: Copy + Same> Snapshot for Level<S, T> {
    fn duplicate(&self) -> (res: Self) {
        let n = self.events.len();
        let mut events: Vec<TimedEvent<S, T>> = Vec::new();
        let mut i: usize = 0;
        while i < n
            invariant
                0 <= i <= n,
                n == self.events@.len(),
                events@.len() == i,
                forall|j: int| 0 <= j < i ==> (#[trigger] events@[j])@ == self.events@[j]@,
            decreases n - i,
        {
            events.push(self.events[i].duplicate());
            i = i + 1;
        }
        let res = Level { events };
        assert(res@.events =~= self@.events);
        res
    }

    fn same_as(&self, other: &Self) -> (res: bool) {
        let n = self.events.len();
        if n != other.events.len() {
            assert(self@.events.len() != other@.events.len());
            return false;
        }
        let mut i: usize = 0;
        while i < n
            invariant
                0 <= i <= n,
                n == self.events@.len(),
                n == other.events@.len(),
                forall|j: int| 0 <= j < i ==> self@.events[j] == other@.events[j],
            decreases n - i,
        {
            if !self.events[i].same_as(&other.events[i]) {
                assert(self@.events[i as int] != other@.events[i as int]);
                return false;
            }
            i = i + 1;
        }
        assert(self@.events =~= other@.events);
        true
    }
}


/// How far past the last event the editor can scroll (100 seconds).
pub const SCROLL_MARGIN: Time = 100_000;

impl<S, T> Level<S, T> {
    /// Add a new light so that its initial waypoint is reached at `start_time`
    /// (the event starts earlier by the fade in). Returns the id of the new light.
    pub fn place_light(&mut self, shape: S, movement: Movement<T>, danger: bool, start_time: Time)
        -> (id: LightId)
        requires
            old(self)@.events.len() < usize::MAX,
            time_in_range(start_time as int),
            time_in_range(movement.fade_in as int),
        ensures
            id.event == old(self)@.events.len(),
            final(self)@.events == old(self)@.events.push(
                TimedEventView {
                    time: (start_time - movement.fade_in) as Time,
                    event: EventView::Light(LightEventView { shape, movement: movement@, danger }),
                },
            ),
    {
        let time = start_time - movement.fade_in;
        let event = TimedEvent { time, event: Event::Light(LightEvent { shape, movement, danger }) };
        let id = LightId { event: self.events.len() };
        self.events.push(event);
        assert(self@.events =~= old(self)@.events.push(event@));
        id
    }

    /// Move a light through time: its start time changes and its movement stays.
    /// Returns whether `light` is a light.
    pub fn move_light_time(&mut self, light: LightId, change: Change<Time>) -> (moved: bool)
        requires
            old(self)@.fits(),
            change_in_range(change),
        ensures
            moved == old(self)@.is_light(light),
            !moved ==> final(self)@ == old(self)@,
            moved ==> {
                let old_event = old(self)@.events[light.event as int];
                &&& old(self)@.same_except(final(self)@, light.event as int)
                &&& final(self)@.events[light.event as int] == TimedEventView {
                    time: change.applied(old_event.time as int) as Time,
                    ..old_event
                }
            },
    {
        if light.event >= self.events.len() {
            return false;
        }
        let ghost old_events = self@.events;
        assert(old_events[light.event as int] == self.events@[light.event as int]@);
        assert(old_events[light.event as int].fits());
        let mut event = self.events.remove(light.event);
        let moved = match &event.event {
            Event::Light(_) => true,
            Event::PaletteSwap => false,
        };
        if moved {
            change.apply(&mut event.time);
        }
        self.events.insert(light.event, event);
        proof {
            assert(self@.events =~= old_events.update(light.event as int, event@));
            if !moved {
                assert(self@.events =~= old_events);
            }
        }
        moved
    }

    /// Change how long a light fades out. Returns whether `light` is a light.
    pub fn change_fade_out(&mut self, light: LightId, change: Change<Time>) -> (changed: bool)
        requires
            old(self)@.fits(),
            change_in_range(change),
        ensures
            changed == old(self)@.is_light(light),
            !changed ==> final(self)@ == old(self)@,
            changed ==> {
                let old_event = old(self)@.events[light.event as int];
                let l = old_event.event->Light_0;
                &&& old(self)@.same_except(final(self)@, light.event as int)
                &&& final(self)@.events[light.event as int] == TimedEventView {
                    time: old_event.time,
                    event: EventView::Light(
                        LightEventView {
                            movement: MovementView {
                                fade_out: change.applied(l.movement.fade_out as int) as Time,
                                ..l.movement
                            },
                            ..l
                        },
                    ),
                }
            },
    {
        if light.event >= self.events.len() {
            return false;
        }
        let ghost old_events = self@.events;
        assert(old_events[light.event as int] == self.events@[light.event as int]@);
        assert(old_events[light.event as int].fits());
        let mut event = self.events.remove(light.event);
        let changed = match &mut event.event {
            Event::Light(light_event) => {
                change.apply(&mut light_event.movement.fade_out);
                true
            },
            Event::PaletteSwap => false,
        };
        self.events.insert(light.event, event);
        proof {
            assert(self@.events =~= old_events.update(light.event as int, event@));
            if !changed {
                assert(self@.events =~= old_events);
            }
        }
        changed
    }

    /// Change how long a light fades in. The event starts earlier (or later) by as much
    /// as the fade grows (or shrinks), so every waypoint keeps its absolute time.
    /// Returns whether `light` is a light.
    pub fn change_fade_in(&mut self, light: LightId, change: Change<Time>) -> (changed: bool)
        requires
            old(self)@.fits(),
            change_in_range(change),
        ensures
            changed == old(self)@.is_light(light),
            !changed ==> final(self)@ == old(self)@,
            changed ==> {
                let old_event = old(self)@.events[light.event as int];
                let l = old_event.event->Light_0;
                let delta = change.delta_from(l.movement.fade_in as int);
                &&& old(self)@.same_except(final(self)@, light.event as int)
                &&& final(self)@.events[light.event as int] == TimedEventView {
                    time: (old_event.time - delta) as Time,
                    event: EventView::Light(
                        LightEventView {
                            movement: MovementView {
                                fade_in: (l.movement.fade_in + delta) as Time,
                                ..l.movement
                            },
                            ..l
                        },
                    ),
                }
            },
    {
        if light.event >= self.events.len() {
            return false;
        }
        let ghost old_events = self@.events;
        assert(old_events[light.event as int] == self.events@[light.event as int]@);
        assert(old_events[light.event as int].fits());
        let mut event = self.events.remove(light.event);
        let changed = match &mut event.event {
            Event::Light(light_event) => {
                let from = light_event.movement.fade_in;
                assert(-MAX_TIME <= light_event.movement@.time_of(0) <= MAX_TIME);
                let delta = change.into_delta(from);
                light_event.movement.fade_in = from + delta;
                event.time = event.time - delta;
                true
            },
            Event::PaletteSwap => false,
        };
        self.events.insert(light.event, event);
        proof {
            assert(self@.events =~= old_events.update(light.event as int, event@));
            if !changed {
                assert(self@.events =~= old_events);
            }
        }
        changed
    }

    /// The editor's scroll target: the current target moved by `delta`, kept between 0
    /// and a margin past the end of the last event.
    pub fn scroll_target(&self, current_target: Time, delta: Time) -> (res: Time)
        requires
            self@.fits(),
            time_in_range(current_target as int),
            time_in_range(delta as int),
            self@.last_time() + SCROLL_MARGIN >= 0,
        ensures
            ({
                let target = current_target + delta;
                let max = SCROLL_MARGIN + self@.last_time();
                res == (if target < 0 {
                    0
                } else if target > max {
                    max
                } else {
                    target
                })
            }),
    {
        let max = SCROLL_MARGIN + self.last_time();
        let target = current_target + delta;
        if target < 0 {
            0
        } else if target > max {
            max
        } else {
            target
        }
    }
}

} // verus!
