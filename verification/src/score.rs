use vstd::prelude::*;

use crate::movement::WaypointId;
use crate::time::{Time, BUFFER_TIME, COYOTE_TIME};

verus! {

/// Score for hitting a rhythm perfectly.
pub const DISCRETE_PERFECT: i32 = 1000;

/// Score for a rhythm that was not hit perfectly.
pub const DISCRETE_OK: i32 = 100;

/// Something that happened during play.
#[derive(Debug, Clone, Copy, PartialEq, Eq, Structural)]
pub enum GameEvent {
    Rhythm { perfect: bool },
}

/// Whether the player is in darkness, in the light, or in danger.
#[derive(Debug, Clone, Copy, PartialEq, Eq, Structural)]
pub enum LitState {
    Dark,
    Light,
    Danger,
}

/// What the player is touching at the moment, as the scoring reads it.
#[derive(Debug, Clone, Copy)]
pub struct LightContact {
    /// Whether the player is inside a dangerous light.
    pub in_danger: bool,
    /// Whether the player is inside a friendly light.
    pub in_light: bool,
    /// Whether the player is perfectly inside the center of the light.
    pub is_perfect: bool,
    /// Whether the closest light is at a waypoint.
    pub is_keyframe: bool,
}

impl LightContact {
    /// Danger wins over light, light over darkness.
    pub fn lit_state(&self) -> (res: LitState)
        ensures
            res == (if self.in_danger {
                LitState::Danger
            } else if self.in_light {
                LitState::Light
            } else {
                LitState::Dark
            }),
    {
        if self.in_danger {
            LitState::Danger
        } else if self.in_light {
            LitState::Light
        } else {
            LitState::Dark
        }
    }

    /// Whether this contact counts as a perfect rhythm hit.
    pub open spec fn hits_rhythm(self) -> bool {
        !self.in_danger && self.in_light && self.is_perfect
    }
}

/// Raw discrete metrics: rhythms hit and missed.
#[derive(Debug, Clone, Copy)]
pub struct DiscreteMetrics {
    /// The number of times player has been in `perfect` distance to a light.
    pub perfect: usize,
    pub total: usize,
    pub score: i32,
}

impl DiscreteMetrics {
    /// The counts agree with each other: perfect rhythms are among all rhythms, and the
    /// score is the perfect ones at full value plus the others at the lower value.
    pub open spec fn consistent(self) -> bool {
        &&& self.perfect <= self.total
        &&& self.score == DISCRETE_PERFECT * self.perfect + DISCRETE_OK * (self.total
            - self.perfect)
    }

    /// Whether one more rhythm (worth at most `DISCRETE_PERFECT`) still fits the counters.
    pub open spec fn has_room(self) -> bool {
        &&& self.perfect < usize::MAX
        &&& self.total < usize::MAX
        &&& self.score <= i32::MAX - DISCRETE_PERFECT
    }

    pub fn new() -> (res: Self)
        ensures
            res.perfect == 0,
            res.total == 0,
            res.score == 0,
            res.consistent(),
    {
        DiscreteMetrics { perfect: 0, total: 0, score: 0 }
    }

    /// Count a perfect rhythm when the player is perfectly inside a light and not in danger.
    pub fn update(&mut self, contact: &LightContact) -> (events: Vec<GameEvent>)
        requires
            contact.hits_rhythm() ==> old(self).has_room(),
        ensures
            contact.hits_rhythm() ==> {
                &&& final(self).perfect == old(self).perfect + 1
                &&& final(self).total == old(self).total + 1
                &&& final(self).score == old(self).score + DISCRETE_PERFECT
                &&& events@ == seq![GameEvent::Rhythm { perfect: true }]
            },
            !contact.hits_rhythm() ==> *final(self) == *old(self) && events@.len() == 0,
            old(self).consistent() ==> final(self).consistent(),
    {
        let mut events = Vec::new();
        if !contact.in_danger && contact.in_light && contact.is_perfect {
            self.perfect = self.perfect + 1;
            self.total = self.total + 1;
            self.score = self.score + DISCRETE_PERFECT;
            events.push(GameEvent::Rhythm { perfect: true });
            assert(events@ =~= seq![GameEvent::Rhythm { perfect: true }]);
        }
        events
    }

    /// Count a rhythm that was passed without a perfect hit.
    pub fn missed_rhythm(&mut self)
        requires
            old(self).total < usize::MAX,
            old(self).score <= i32::MAX - DISCRETE_OK,
        ensures
            final(self).perfect == old(self).perfect,
            final(self).total == old(self).total + 1,
            final(self).score == old(self).score + DISCRETE_OK,
            old(self).consistent() ==> final(self).consistent(),
    {
        self.total = self.total + 1;
        self.score = self.score + DISCRETE_OK;
    }
}

/// Whether the player is at a waypoint of a light: the waypoint (at signed time distance
/// `time`) is within the grace periods, and its rhythm was not already collected.
pub open spec fn at_waypoint_spec(
    closest_waypoint: (Time, WaypointId),
    event_id: Option<usize>,
    last_rhythm: (usize, WaypointId),
) -> bool {
    let (time, waypoint) = closest_waypoint;
    &&& time > -COYOTE_TIME
    &&& time < BUFFER_TIME
    &&& match event_id {
        Some(event) => last_rhythm != (event, waypoint),
        None => false,
    }
}

/// Inside the grace window around a waypoint, a light counts as being at its waypoint
/// unless that very waypoint of that very event was the last rhythm collected: the
/// collected rhythm of another event (even at a waypoint with the same id) or of another
/// waypoint of the same event does not block it. Outside the window, or for a light
/// without an event, it never counts.
pub proof fn law_at_waypoint_blocks_only_collected_pair(
    time: Time,
    waypoint: WaypointId,
    event: usize,
    last_rhythm: (usize, WaypointId),
)
    ensures
        (-COYOTE_TIME < time < BUFFER_TIME && (last_rhythm.0 != event || last_rhythm.1 != waypoint))
            ==> at_waypoint_spec((time, waypoint), Some(event), last_rhythm),
        (event == last_rhythm.0 && waypoint == last_rhythm.1) ==> !at_waypoint_spec(
            (time, waypoint),
            Some(event),
            last_rhythm,
        ),
        !at_waypoint_spec((time, waypoint), None, last_rhythm),
        (time <= -COYOTE_TIME || time >= BUFFER_TIME) ==> !at_waypoint_spec(
            (time, waypoint),
            Some(event),
            last_rhythm,
        ),
{
}

/// Decide whether the player is at a waypoint of a light.
pub fn at_waypoint(
    closest_waypoint: (Time, WaypointId),
    event_id: Option<usize>,
    last_rhythm: (usize, WaypointId),
) -> (res: bool)
    ensures
        res == at_waypoint_spec(closest_waypoint, event_id, last_rhythm),
{
    let (time, waypoint) = closest_waypoint;
    time > -COYOTE_TIME && time < BUFFER_TIME && match event_id {
        Some(event) => last_rhythm.0 != event || last_rhythm.1 != waypoint,
        None => false,
    }
}

/// Whether a light whose closest waypoint is at signed time distance `time` can still
/// count as missed: it has just left the waypoint, within the grace period (doubled
/// when `pass` is set, for the light of the previous frame).
pub fn can_miss(time: Time, pass: bool) -> (res: bool)
    ensures
        res == (time < 0 && (time > -COYOTE_TIME || pass && time > -COYOTE_TIME * 2)),
{
    time < 0 && (time > -COYOTE_TIME || pass && time > -COYOTE_TIME * 2)
}

/// Whether a rhythm was missed: the player was at a light's waypoint last frame, is no
/// longer at that one, and its rhythm was not collected.
pub fn is_missed_rhythm(
    last_light: Option<(usize, WaypointId)>,
    light: Option<(usize, WaypointId)>,
    last_rhythm: (usize, WaypointId),
) -> (res: bool)
    ensures
        res == (last_light is Some && last_light != light && last_light != Some(last_rhythm)),
{
    match last_light {
        None => false,
        Some((event, waypoint)) => {
            let changed = match light {
                None => true,
                Some((e, w)) => e != event || w != waypoint,
            };
            changed && (event != last_rhythm.0 || waypoint != last_rhythm.1)
        },
    }
}

/// What the miss check reads of a rendered light: the event it comes from and its
/// closest waypoint (signed time distance to it, and its id).
#[derive(Debug, Clone, Copy)]
pub struct RhythmLight {
    pub event_id: Option<usize>,
    pub closest_waypoint: (Time, WaypointId),
}

/// Whether `can_miss` holds.
pub open spec fn can_miss_spec(time: Time, pass: bool) -> bool {
    time < 0 && (time > -COYOTE_TIME || pass && time > -COYOTE_TIME * 2)
}

/// Whether `i` is the first light of event `id`.
pub open spec fn first_of_event(lights: Seq<RhythmLight>, id: usize, i: int) -> bool {
    &&& 0 <= i < lights.len()
    &&& lights[i].event_id == Some(id)
    &&& forall|j: int| 0 <= j < i ==> lights[j].event_id != Some(id)
}

/// The light of event `id` that is leaving its waypoint and can still be missed: the
/// first light of that event, if its closest waypoint was just passed (see `can_miss`),
/// as the event and that waypoint.
pub open spec fn leaving_light(lights: Seq<RhythmLight>, id: Option<usize>, pass: bool) -> Option<(usize, WaypointId)> {
    match id {
        None => None,
        Some(id) => if exists|i: int| #[trigger] first_of_event(lights, id, i) {
            let i = choose|i: int| #[trigger] first_of_event(lights, id, i);
            if can_miss_spec(lights[i].closest_waypoint.0, pass) {
                Some((id, lights[i].closest_waypoint.1))
            } else {
                None
            }
        } else {
            None
        },
    }
}

/// Find the light of event `id` that is leaving its waypoint (see [`leaving_light`]).
pub fn light_leaving(lights: &Vec<RhythmLight>, id: Option<usize>, pass: bool) -> (res: Option<(usize, WaypointId)>)
    ensures
        res == leaving_light(lights@, id, pass),
{
    let target = match id {
        None => return None,
        Some(target) => target,
    };
    let n = lights.len();
    let mut i: usize = 0;
    while i < n
        invariant
            0 <= i <= n,
            n == lights@.len(),
            id == Some(target),
            forall|j: int| 0 <= j < i ==> lights@[j].event_id != Some(target),
        decreases n - i,
    {
        let light = lights[i];
        if light.event_id == Some(target) {
            proof {
                assert(first_of_event(lights@, target, i as int));
                let k = choose|k: int| #[trigger] first_of_event(lights@, target, k);
                assert(first_of_event(lights@, target, k));
                if k < i {
                    assert(lights@[k].event_id != Some(target));
                } else if k > i {
                    assert(lights@[i as int].event_id != Some(target));
                }
                assert(k == i);
            }
            if can_miss(light.closest_waypoint.0, pass) {
                return Some((target, light.closest_waypoint.1));
            } else {
                return None;
            }
        }
        i = i + 1;
    }
    assert(!exists|k: int| #[trigger] first_of_event(lights@, target, k));
    None
}

/// Count a missed rhythm when the player was at a light's waypoint last frame, is no
/// longer at that one, and its rhythm was not collected; the miss is returned as an event.
pub fn track_missed_rhythm(
    metrics: &mut DiscreteMetrics,
    last_light: Option<(usize, WaypointId)>,
    light: Option<(usize, WaypointId)>,
    last_rhythm: (usize, WaypointId),
) -> (res: Option<GameEvent>)
    requires
        old(metrics).total < usize::MAX,
        old(metrics).score <= i32::MAX - DISCRETE_OK,
    ensures
        ({
            let missed = last_light is Some && last_light != light && last_light != Some(last_rhythm);
            &&& missed ==> res == Some(GameEvent::Rhythm { perfect: false })
                && final(metrics).perfect == old(metrics).perfect
                && final(metrics).total == old(metrics).total + 1
                && final(metrics).score == old(metrics).score + DISCRETE_OK
            &&& !missed ==> res is None && *final(metrics) == *old(metrics)
        }),
        old(metrics).consistent() ==> final(metrics).consistent(),
{
    if is_missed_rhythm(last_light, light, last_rhythm) {
        metrics.missed_rhythm();
        Some(GameEvent::Rhythm { perfect: false })
    } else {
        None
    }
}

} // verus!
