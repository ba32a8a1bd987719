use vstd::prelude::*;

use crate::light::{Light, LightTelegraph};
use crate::time::Time;

verus! {

/// A renderable state of the level at some given time.
pub struct LevelState<C, V> {
    /// The time at which the render has been done.
    pub beat_time: Time,
    /// The time after which events are not rendered.
    pub ignore_after: Option<Time>,
    /// Whether the palette should be swapped.
    pub swap_palette: bool,
    pub lights: Vec<Light<C>>,
    pub telegraphs: Vec<LightTelegraph<C, V>>,
    pub is_finished: bool,
}

/// An event rendered at the time of a [`LevelState`]: a palette swap, or the
/// telegraph and light of a light event (each present only when visible).
pub enum RenderedEvent<C, V> {
    PaletteSwap,
    Light(Option<LightTelegraph<C, V>>, Option<Light<C>>),
}

/// Mathematical view of a [`LevelState`].
pub struct LevelStateView<C, V> {
    pub beat_time: Time,
    pub ignore_after: Option<Time>,
    pub swap_palette: bool,
    pub lights: Seq<Light<C>>,
    pub telegraphs: Seq<LightTelegraph<C, V>>,
    pub is_finished: bool,
}

impl<C, V> View for LevelState<C, V> {
    type V = LevelStateView<C, V>;

    open spec fn view(&self) -> LevelStateView<C, V> {
        LevelStateView {
            beat_time: self.beat_time,
            ignore_after: self.ignore_after,
            swap_palette: self.swap_palette,
            lights: self.lights@,
            telegraphs: self.telegraphs@,
            is_finished: self.is_finished,
        }
    }
}

impl<C, V> LevelStateView<C, V> {
    /// The state after rendering an event that starts at `event_time` (see `render_event`).
    pub open spec fn after_event(self, event_time: int, rendered: RenderedEvent<C, V>) -> LevelStateView<C, V> {
        if self.beat_time < event_time {
            LevelStateView { is_finished: false, ..self }
        } else if self.ignore_after matches Some(t) && event_time > t {
            self
        } else {
            let lights = match rendered {
                RenderedEvent::Light(_, Some(light)) => self.lights.push(light),
                _ => self.lights,
            };
            let telegraphs = match rendered {
                RenderedEvent::Light(Some(tele), _) => self.telegraphs.push(tele),
                _ => self.telegraphs,
            };
            LevelStateView {
                swap_palette: self.swap_palette != (rendered is PaletteSwap),
                lights,
                telegraphs,
                is_finished: self.is_finished && lights.len() == 0 && telegraphs.len() == 0,
                ..self
            }
        }
    }

    /// The state after rendering the first `k` events, in order.
    pub open spec fn after_events(self, events: Seq<(Time, RenderedEvent<C, V>)>, k: int) -> LevelStateView<C, V>
        decreases k,
    {
        if k <= 0 {
            self
        } else {
            let (time, rendered) = events[k - 1];
            self.after_events(events, k - 1).after_event(time as int, rendered)
        }
    }
}

impl<C, V> LevelState<C, V> {
    /// An empty state at time 0.
    pub fn empty() -> (res: Self)
        ensures
            res.beat_time == 0,
            res.ignore_after is None,
            !res.swap_palette,
            res.lights@.len() == 0,
            res.telegraphs@.len() == 0,
            !res.is_finished,
    {
        LevelState {
            beat_time: 0,
            ignore_after: None,
            swap_palette: false,
            lights: Vec::new(),
            telegraphs: Vec::new(),
            is_finished: false,
        }
    }

    /// A state at `beat_time` that has not rendered any event yet.
    pub fn start(beat_time: Time, ignore_after: Option<Time>) -> (res: Self)
        ensures
            res.beat_time == beat_time,
            res.ignore_after == ignore_after,
            !res.swap_palette,
            res.lights@.len() == 0,
            res.telegraphs@.len() == 0,
            res.is_finished,
    {
        LevelState {
            beat_time,
            ignore_after,
            swap_palette: false,
            lights: Vec::new(),
            telegraphs: Vec::new(),
            is_finished: true,
        }
    }

    /// Whether an event starting at `event_time` is rendered into this state:
    /// it has started, and it does not start after the ignore time.
    pub open spec fn renders(self, event_time: int) -> bool {
        &&& event_time <= self.beat_time
        &&& match self.ignore_after {
            Some(time) => event_time <= time,
            None => true,
        }
    }

    /// Render an event that starts at `event_time` into the state. An event that has
    /// not started yet marks the level as unfinished; an event after the ignore time is
    /// skipped; a palette swap toggles the palette; a light event adds its visible
    /// telegraph and light. The level stays finished only while nothing is shown.
    pub fn render_event(&mut self, event_time: Time, rendered: RenderedEvent<C, V>)
        ensures
            final(self).beat_time == old(self).beat_time,
            final(self).ignore_after == old(self).ignore_after,
            old(self).beat_time < event_time ==> {
                &&& !final(self).is_finished
                &&& final(self).swap_palette == old(self).swap_palette
                &&& final(self).lights@ == old(self).lights@
                &&& final(self).telegraphs@ == old(self).telegraphs@
            },
            event_time <= old(self).beat_time && !old(self).renders(event_time as int) ==> {
                &&& final(self).is_finished == old(self).is_finished
                &&& final(self).swap_palette == old(self).swap_palette
                &&& final(self).lights@ == old(self).lights@
                &&& final(self).telegraphs@ == old(self).telegraphs@
            },
            old(self).renders(event_time as int) ==> {
                &&& final(self).swap_palette == (old(self).swap_palette != (
                rendered is PaletteSwap))
                &&& final(self).lights@ == (match rendered {
                    RenderedEvent::Light(_, Some(light)) => old(self).lights@.push(light),
                    _ => old(self).lights@,
                })
                &&& final(self).telegraphs@ == (match rendered {
                    RenderedEvent::Light(Some(tele), _) => old(self).telegraphs@.push(tele),
                    _ => old(self).telegraphs@,
                })
                &&& final(self).is_finished == (old(self).is_finished && final(self).lights@.len()
                    == 0 && final(self).telegraphs@.len() == 0)
            },
            final(self)@ == old(self)@.after_event(event_time as int, rendered),
    {
        if self.beat_time < event_time {
            self.is_finished = false;
            return;
        }
        if let Some(time) = self.ignore_after {
            if event_time > time {
                return;
            }
        }
        match rendered {
            RenderedEvent::PaletteSwap => self.swap_palette = !self.swap_palette,
            RenderedEvent::Light(telegraph, light) => {
                if let Some(telegraph) = telegraph {
                    self.telegraphs.push(telegraph);
                }
                if let Some(light) = light {
                    self.lights.push(light);
                }
            },
        }
        self.is_finished = self.is_finished && self.lights.len() == 0 && self.telegraphs.len()
            == 0;
    }
}

impl<C, V> LevelState<C, V> {
    /// Render a level at `beat_time`: `events` holds, for each event of the level in
    /// order, its start time and what it renders into at `beat_time` (for a light, its
    /// telegraph and light as [`crate::light::render_light`] builds them). The level is
    /// finished when no event is still to come and nothing is shown.
    pub fn render(beat_time: Time, ignore_after: Option<Time>, events: Vec<(Time, RenderedEvent<C, V>)>) -> (res: Self)
        ensures
            res@ == (LevelStateView {
                beat_time,
                ignore_after,
                swap_palette: false,
                lights: Seq::<Light<C>>::empty(),
                telegraphs: Seq::<LightTelegraph<C, V>>::empty(),
                is_finished: true,
            }).after_events(events@, events@.len() as int),
    {
        let mut state = LevelState::start(beat_time, ignore_after);
        let ghost start = state@;
        assert(state.lights@ =~= Seq::<Light<C>>::empty());
        assert(state.telegraphs@ =~= Seq::<LightTelegraph<C, V>>::empty());
        assert(start == (LevelStateView {
            beat_time,
            ignore_after,
            swap_palette: false,
            lights: Seq::<Light<C>>::empty(),
            telegraphs: Seq::<LightTelegraph<C, V>>::empty(),
            is_finished: true,
        }));
        let ghost all = events@;
        let mut events = events;
        let n = events.len();
        let mut i: usize = 0;
        while i < n
            invariant
                0 <= i <= n,
                n == all.len(),
                events@ == all.skip(i as int),
                state@ == start.after_events(all, i as int),
            decreases n - i,
        {
            let (time, rendered) = events.remove(0);
            assert(all[i as int] == (time, rendered));
            state.render_event(time, rendered);
            assert(events@ =~= all.skip(i + 1));
            i = i + 1;
        }
        state
    }
}

/// The level states an editor shows.
pub struct EditorLevelState<C, V> {
    /// Interactable level state representing current time.
    pub static_level: Option<LevelState<C, V>>,
    /// Dynamic level state showing the upcoming animations.
    pub dynamic_level: Option<LevelState<C, V>>,
    /// Index of the hovered static light.
    pub hovered_light: Option<usize>,
}

impl<C, V> EditorLevelState<C, V> {
    /// The static state if there is one, otherwise the dynamic one.
    pub fn relevant(&self) -> (res: &LevelState<C, V>)
        requires
            self.static_level is Some || self.dynamic_level is Some,
        ensures
            *res == (if self.static_level is Some {
                self.static_level->Some_0
            } else {
                self.dynamic_level->Some_0
            }),
    {
        match &self.static_level {
            Some(level) => level,
            None => self.dynamic_level.as_ref().unwrap(),
        }
    }

    /// Returns the event id of the hovered static light (if any).
    pub fn hovered_event(&self) -> (res: Option<usize>)
        ensures
            res == (match (self.hovered_light, self.static_level) {
                (Some(i), Some(level)) => if i < level.lights@.len() {
                    level.lights@[i as int].event_id
                } else {
                    None
                },
                _ => None,
            }),
    {
        match (self.hovered_light, &self.static_level) {
            (Some(i), Some(level)) => {
                if i < level.lights.len() {
                    level.lights[i].event_id
                } else {
                    None
                }
            },
            _ => None,
        }
    }
}

} // verus!
