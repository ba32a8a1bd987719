use vstd::prelude::*;

use crate::time::Time;

verus! {

/// A light rendered at some moment, with its collider of type `C`.
#[derive(Debug, Clone)]
pub struct Light<C> {
    /// Currently active collider.
    pub collider: C,
    /// The base collider used for reference.
    pub base_collider: C,
    /// Time since creation.
    pub lifetime: Time,
    /// Whether the light is dangerous.
    pub danger: bool,
    /// Id of the original event in the level.
    pub event_id: Option<usize>,
}

/// How a light is announced before it appears; the speed is a value of type `V`.
#[derive(Debug, Clone, Copy)]
pub struct Telegraph<V> {
    /// How long before the event the telegraph occurs.
    pub precede_time: Time,
    /// How fast the telegraph is.
    pub speed: V,
}

/// A telegraph of a light that is about to appear.
#[derive(Debug, Clone)]
pub struct LightTelegraph<C, V> {
    /// The light to telegraph.
    pub light: Light<C>,
    /// How fast the telegraph is.
    pub speed: V,
    /// Time since creation.
    pub lifetime: Time,
}

impl<C> Light<C> {
    /// Turn the light into a fresh telegraph announcing it.
    pub fn into_telegraph<V>(self, telegraph: Telegraph<V>) -> (res: LightTelegraph<C, V>)
        ensures
            res.light == self,
            res.speed == telegraph.speed,
            res.lifetime == 0,
    {
        LightTelegraph { light: self, speed: telegraph.speed, lifetime: 0 }
    }
}

/// Which parts of a light event are visible at `relative_time` after the event starts:
/// the telegraph is shown while the movement lasts, and the light itself from
/// `precede_time` later until the movement ends.
pub open spec fn light_visibility(relative_time: int, precede_time: int, duration: int) -> (
    bool,
    bool,
) {
    (relative_time < duration, 0 < relative_time - precede_time < duration)
}

/// The telegraph is shown exactly while the movement lasts (whatever the precede time),
/// and the light exactly from `precede_time` after the start until `precede_time` after
/// the movement ends.
pub proof fn law_light_visibility_windows(relative_time: int, precede_time: int, duration: int)
    ensures
        light_visibility(relative_time, precede_time, duration).0 <==> relative_time < duration,
        0 <= relative_time < duration ==> light_visibility(relative_time, precede_time, duration).0,
        light_visibility(relative_time, precede_time, duration).1 <==> (precede_time < relative_time
            && relative_time < precede_time + duration),
{
}

/// Decide whether the telegraph and the light of a light event are visible at
/// `relative_time` after the event starts.
pub fn light_visible(relative_time: Time, precede_time: Time, duration: Time) -> (res: (
    bool,
    bool,
))
    requires
        i64::MIN <= relative_time - precede_time <= i64::MAX,
    ensures
        res == light_visibility(relative_time as int, precede_time as int, duration as int),
{
    let telegraph = relative_time < duration;
    let time = relative_time - precede_time;
    (telegraph, time > 0 && time < duration)
}

/// The light of an event with id `event_id` (a fresh light: zero lifetime),
/// with its current collider.
pub open spec fn event_light<C>(collider: C, base_collider: C, danger: bool, event_id: Option<usize>) -> Light<C> {
    Light { collider, base_collider, lifetime: 0, danger, event_id }
}

/// Render a light event at `relative_time` after it starts. The telegraph, shown while
/// the movement lasts, announces the light at its position at `relative_time`
/// (`telegraph_collider`); the light itself, shown from `precede_time` later until the
/// movement ends, is at its position `precede_time` earlier (`light_collider`). Both
/// carry the event id and the event's danger, and start with zero lifetime.
pub fn render_light<C: Copy, V: Copy>(
    base_collider: C,
    danger: bool,
    telegraph: Telegraph<V>,
    duration: Time,
    relative_time: Time,
    event_id: Option<usize>,
    telegraph_collider: C,
    light_collider: C,
) -> (res: (Option<LightTelegraph<C, V>>, Option<Light<C>>))
    requires
        i64::MIN <= relative_time - telegraph.precede_time <= i64::MAX,
    ensures
        res.0 == (if light_visibility(relative_time as int, telegraph.precede_time as int, duration as int).0 {
            Some(LightTelegraph {
                light: event_light(telegraph_collider, base_collider, danger, event_id),
                speed: telegraph.speed,
                lifetime: 0,
            })
        } else {
            None
        }),
        res.1 == (if light_visibility(relative_time as int, telegraph.precede_time as int, duration as int).1 {
            Some(event_light(light_collider, base_collider, danger, event_id))
        } else {
            None
        }),
{
    let (show_telegraph, show_light) = light_visible(relative_time, telegraph.precede_time, duration);
    let tele = if show_telegraph {
        let light = Light { collider: telegraph_collider, base_collider, lifetime: 0, danger, event_id };
        Some(light.into_telegraph(telegraph))
    } else {
        None
    };
    let light = if show_light {
        Some(Light { collider: light_collider, base_collider, lifetime: 0, danger, event_id })
    } else {
        None
    };
    (tele, light)
}

} // verus!
