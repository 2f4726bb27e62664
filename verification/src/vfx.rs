//! Lifecycle of the client-side visual effects: slashes, hit flashes, sword
//! trails and dash ghosts.
//!
//! What an effect looks like (position, radii, angles, colour) is a payload
//! chosen by the renderer; this module decides when effects start, are reset,
//! age and end.
use vstd::prelude::*;
use crate::Micros;
use crate::pool::{Pool, active_items, first_free, law_spawn_count, law_spawn_first_free, lemma_active_items_len, spawned};
use crate::trail::{SwordTrail, TrailPoint, aged, pushed};

verus! {

/// Capacity of the slash pool.
pub const MAX_SLASHES: usize = 16;

/// Capacity of the flash pool.
pub const MAX_FLASHES: usize = 32;

/// Capacity of the dash ghost pool.
pub const MAX_DASH_GHOSTS: usize = 16;

/// An effect that is shown for `lt_max` microseconds; `lifetime` is what is left.
#[derive(Clone, Copy)]
pub struct TimedVfx<P> {
    pub look: P,
    pub lifetime: Micros,
    pub lt_max: Micros,
}

impl<P: Default> Default for TimedVfx<P> {
    fn default() -> (r: Self)
        ensures
            r.lifetime == 0,
            r.lt_max == 0,
    {
        TimedVfx { look: P::default(), lifetime: 0, lt_max: 0 }
    }
}

/// A colour override on entity `entity_id` for `timer` more microseconds.
#[derive(Clone, Copy)]
pub struct FlashVfx {
    pub entity_id: u64,
    pub timer: Micros,
}

impl Default for FlashVfx {
    fn default() -> (r: Self)
        ensures
            r.entity_id == 0,
            r.timer == 0,
    {
        FlashVfx { entity_id: 0, timer: 0 }
    }
}

/// `a - b`, or zero when `b` is larger.
pub open spec fn sat_sub(a: Micros, b: Micros) -> Micros {
    if a > b {
        (a - b) as u64
    } else {
        0
    }
}

/// A timed effect after `dt` more microseconds.
pub open spec fn tick_timed<P>(t: TimedVfx<P>, dt: Micros) -> TimedVfx<P> {
    TimedVfx { look: t.look, lifetime: sat_sub(t.lifetime, dt), lt_max: t.lt_max }
}

/// The slots of a pool of timed effects after `dt`: every active effect ages,
/// and those with no time left are released.
pub open spec fn decay_timed<P>(s: Seq<(bool, TimedVfx<P>)>, dt: Micros) -> Seq<(bool, TimedVfx<P>)> {
    Seq::new(
        s.len(),
        |i: int|
            if s[i].0 {
                (tick_timed(s[i].1, dt).lifetime > 0, tick_timed(s[i].1, dt))
            } else {
                s[i]
            },
    )
}

/// The slots of the flash pool after `dt`.
pub open spec fn decay_flashes(s: Seq<(bool, FlashVfx)>, dt: Micros) -> Seq<(bool, FlashVfx)> {
    Seq::new(
        s.len(),
        |i: int|
            if s[i].0 {
                (
                    sat_sub(s[i].1.timer, dt) > 0,
                    FlashVfx { entity_id: s[i].1.entity_id, timer: sat_sub(s[i].1.timer, dt) },
                )
            } else {
                s[i]
            },
    )
}

/// Whether some active flash is on `entity_id`.
pub open spec fn flashing(s: Seq<(bool, FlashVfx)>, entity_id: u64) -> bool {
    exists|i: int| 0 <= i < s.len() && (#[trigger] s[i]).0 && s[i].1.entity_id == entity_id
}

/// The first active flash on `entity_id` at or after slot `k`, if any.
pub open spec fn first_flash_from(s: Seq<(bool, FlashVfx)>, entity_id: u64, k: int) -> Option<int>
    decreases s.len() - k,
{
    if k < 0 || k >= s.len() {
        None
    } else if s[k].0 && s[k].1.entity_id == entity_id {
        Some(k)
    } else {
        first_flash_from(s, entity_id, k + 1)
    }
}

/// The flash slots after a flash of `duration` on `entity_id`: an active flash
/// on the same entity is reset to `duration`, otherwise a new one is spawned.
pub open spec fn flashed(s: Seq<(bool, FlashVfx)>, entity_id: u64, duration: Micros) -> Seq<
    (bool, FlashVfx),
> {
    let f = FlashVfx { entity_id, timer: duration };
    match first_flash_from(s, entity_id, 0) {
        Some(i) => s.update(i, (true, f)),
        None => spawned(s, f),
    }
}

/// The index of `id` in `ids`, if present.
pub open spec fn index_of_id(ids: Seq<u64>, id: u64, k: int) -> Option<int>
    decreases ids.len() - k,
{
    if k < 0 || k >= ids.len() {
        None
    } else if ids[k] == id {
        Some(k)
    } else {
        index_of_id(ids, id, k + 1)
    }
}

/// All visual effects of the client.
pub struct VfxManager<P: Copy, V: Copy, C> {
    slashes: Pool<TimedVfx<P>, MAX_SLASHES>,
    flashes: Pool<FlashVfx, MAX_FLASHES>,
    sword_trails: Vec<(u64, SwordTrail<V, C>)>,
    dash_ghosts: Pool<TimedVfx<P>, MAX_DASH_GHOSTS>,
}

impl<P: Copy, V: Copy, C> VfxManager<P, V, C> {
    /// The slash slots.
    pub closed spec fn slashes_view(&self) -> Seq<(bool, TimedVfx<P>)> {
        self.slashes@
    }

    /// The flash slots.
    pub closed spec fn flashes_view(&self) -> Seq<(bool, FlashVfx)> {
        self.flashes@
    }

    /// The dash ghost slots.
    pub closed spec fn ghosts_view(&self) -> Seq<(bool, TimedVfx<P>)> {
        self.dash_ghosts@
    }

    /// The entities that have a sword trail, in creation order.
    pub closed spec fn trail_ids(&self) -> Seq<u64> {
        Seq::new(self.sword_trails@.len(), |i: int| self.sword_trails@[i].0)
    }

    /// The points of each sword trail, newest first, in the order of `trail_ids`.
    pub closed spec fn trail_points(&self) -> Seq<Seq<TrailPoint<V>>> {
        Seq::new(self.sword_trails@.len(), |i: int| self.sword_trails@[i].1@)
    }

    /// The colour of each sword trail, in the order of `trail_ids`.
    pub closed spec fn trail_colors(&self) -> Seq<C> {
        Seq::new(self.sword_trails@.len(), |i: int| self.sword_trails@[i].1.trail_color())
    }

    /// Internal consistency: pools of the right size, well-formed trails, and
    /// at most one trail per entity.
    pub closed spec fn wf(&self) -> bool {
        &&& self.slashes.wf()
        &&& self.flashes.wf()
        &&& self.dash_ghosts.wf()
        &&& forall|i: int| 0 <= i < self.sword_trails@.len() ==> (#[trigger] self.sword_trails@[i]).1.wf()
        &&& forall|i: int, j: int|
            0 <= i < j < self.sword_trails@.len() ==> (#[trigger] self.sword_trails@[i]).0
                != (#[trigger] self.sword_trails@[j]).0
    }

    /// No effect at all.
    pub fn new() -> (vfx: Self) where P: Default, V: Default
        ensures
            vfx.wf(),
            vfx.slashes_view().len() == MAX_SLASHES,
            vfx.flashes_view().len() == MAX_FLASHES,
            vfx.ghosts_view().len() == MAX_DASH_GHOSTS,
            forall|i: int| 0 <= i < MAX_SLASHES ==> !(#[trigger] vfx.slashes_view()[i]).0,
            forall|i: int| 0 <= i < MAX_FLASHES ==> !(#[trigger] vfx.flashes_view()[i]).0,
            forall|i: int| 0 <= i < MAX_DASH_GHOSTS ==> !(#[trigger] vfx.ghosts_view()[i]).0,
            vfx.trail_ids().len() == 0,
    {
        VfxManager {
            slashes: Pool::new(),
            flashes: Pool::new(),
            sword_trails: Vec::new(),
            dash_ghosts: Pool::new(),
        }
    }

    /// Spawns a slash that looks like `look` for `duration`.
    pub fn spawn_slash(&mut self, look: P, duration: Micros)
        requires
            old(self).wf(),
        ensures
            final(self).wf(),
            final(self).slashes_view() == spawned(
                old(self).slashes_view(),
                TimedVfx { look, lifetime: duration, lt_max: duration },
            ),
            final(self).flashes_view() == old(self).flashes_view(),
            final(self).ghosts_view() == old(self).ghosts_view(),
            final(self).trail_ids() == old(self).trail_ids(),
            final(self).trail_points() == old(self).trail_points(),
            final(self).trail_colors() == old(self).trail_colors(),
    {
        self.slashes.spawn(TimedVfx { look, lifetime: duration, lt_max: duration });
    }

    /// Flashes entity `entity_id` for `duration`; an ongoing flash on the same
    /// entity is reset to `duration` instead of adding a second one.
    pub fn spawn_flash(&mut self, entity_id: u64, duration: Micros)
        requires
            old(self).wf(),
        ensures
            final(self).wf(),
            final(self).flashes_view() == flashed(old(self).flashes_view(), entity_id, duration),
            final(self).slashes_view() == old(self).slashes_view(),
            final(self).ghosts_view() == old(self).ghosts_view(),
            final(self).trail_ids() == old(self).trail_ids(),
            final(self).trail_points() == old(self).trail_points(),
            final(self).trail_colors() == old(self).trail_colors(),
    {
        let n = self.flashes.len();
        let mut i: usize = 0;
        while i < n
            invariant
                self.wf(),
                n == self.flashes@.len(),
                i <= n,
                self.flashes@ == old(self).flashes@,
                self.slashes@ == old(self).slashes@,
                self.dash_ghosts@ == old(self).dash_ghosts@,
                self.sword_trails@ == old(self).sword_trails@,
                first_flash_from(self.flashes@, entity_id, 0) == first_flash_from(
                    self.flashes@,
                    entity_id,
                    i as int,
                ),
            decreases n - i,
        {
            let (active, flash) = self.flashes.slot(i);
            if active && flash.entity_id == entity_id {
                self.flashes.replace(i, FlashVfx { entity_id, timer: duration });
                proof {
                    assert(self.trail_ids() =~= old(self).trail_ids());
                    assert(self.trail_points() =~= old(self).trail_points());
                    assert(self.trail_colors() =~= old(self).trail_colors());
                }
                return;
            }
            i = i + 1;
        }
        self.flashes.spawn(FlashVfx { entity_id, timer: duration });
        proof {
            assert(self.trail_ids() =~= old(self).trail_ids());
            assert(self.trail_points() =~= old(self).trail_points());
            assert(self.trail_colors() =~= old(self).trail_colors());
        }
    }

    /// Pushes `pos` on the sword trail of `entity_id`, creating the trail, drawn
    /// in `color`, on the first push for that entity.
    pub fn push_trail_point(&mut self, entity_id: u64, pos: V, color: C) where V: Default
        requires
            old(self).wf(),
        ensures
            final(self).wf(),
            final(self).slashes_view() == old(self).slashes_view(),
            final(self).flashes_view() == old(self).flashes_view(),
            final(self).ghosts_view() == old(self).ghosts_view(),
            match index_of_id(old(self).trail_ids(), entity_id, 0) {
                Some(k) => {
                    &&& final(self).trail_ids() == old(self).trail_ids()
                    &&& final(self).trail_points() == old(self).trail_points().update(
                        k,
                        pushed(old(self).trail_points()[k], pos),
                    )
                    &&& final(self).trail_colors() == old(self).trail_colors()
                },
                None => {
                    &&& final(self).trail_ids() == old(self).trail_ids().push(entity_id)
                    &&& final(self).trail_points() == old(self).trail_points().push(
                        pushed(Seq::empty(), pos),
                    )
                    &&& final(self).trail_colors() == old(self).trail_colors().push(color)
                },
            },
    {
        let n = self.sword_trails.len();
        let mut i: usize = 0;
        while i < n
            invariant
                self.wf(),
                n == self.sword_trails@.len(),
                i <= n,
                self.sword_trails@ == old(self).sword_trails@,
                self.slashes@ == old(self).slashes@,
                self.flashes@ == old(self).flashes@,
                self.dash_ghosts@ == old(self).dash_ghosts@,
                index_of_id(self.trail_ids(), entity_id, 0) == index_of_id(
                    self.trail_ids(),
                    entity_id,
                    i as int,
                ),
            decreases n - i,
        {
            if self.sword_trails[i].0 == entity_id {
                let ghost before = self.sword_trails@;
                self.sword_trails[i].1.push(pos);
                proof {
                    assert(self.trail_ids() =~= old(self).trail_ids());
                    assert(self.trail_points() =~= old(self).trail_points().update(
                        i as int,
                        pushed(old(self).trail_points()[i as int], pos),
                    ));
                    assert(self.trail_colors() =~= old(self).trail_colors());
                    assert forall|a: int, b: int|
                        0 <= a < b < self.sword_trails@.len() implies (#[trigger] self.sword_trails@[a]).0
                            != (#[trigger] self.sword_trails@[b]).0 by {
                        assert(before[a].0 != before[b].0);
                    }
                }
                return;
            }
            i = i + 1;
        }
        let mut trail = SwordTrail::new(color);
        trail.push(pos);
        self.sword_trails.push((entity_id, trail));
        proof {
            assert(self.trail_ids() =~= old(self).trail_ids().push(entity_id));
            assert(self.trail_points() =~= old(self).trail_points().push(pushed(Seq::empty(), pos)));
            assert(self.trail_colors() =~= old(self).trail_colors().push(color));
            lemma_index_of_id_none(old(self).trail_ids(), entity_id, 0);
            let t = self.sword_trails@;
            assert forall|a: int, b: int| 0 <= a < b < t.len() implies (#[trigger] t[a]).0
                != (#[trigger] t[b]).0 by {
                if b == t.len() - 1 {
                    assert(old(self).trail_ids()[a] == t[a].0);
                } else {
                    assert(old(self).sword_trails@[a] == t[a]);
                    assert(old(self).sword_trails@[b] == t[b]);
                }
            }
            assert forall|a: int| 0 <= a < t.len() implies (#[trigger] t[a]).1.wf() by {
                if a < t.len() - 1 {
                    assert(old(self).sword_trails@[a] == t[a]);
                }
            }
        }
    }

    /// Spawns a dash ghost that looks like `look` for `duration`.
    pub fn spawn_dash_ghost(&mut self, look: P, duration: Micros)
        requires
            old(self).wf(),
        ensures
            final(self).wf(),
            final(self).ghosts_view() == spawned(
                old(self).ghosts_view(),
                TimedVfx { look, lifetime: duration, lt_max: duration },
            ),
            final(self).slashes_view() == old(self).slashes_view(),
            final(self).flashes_view() == old(self).flashes_view(),
            final(self).trail_ids() == old(self).trail_ids(),
            final(self).trail_points() == old(self).trail_points(),
            final(self).trail_colors() == old(self).trail_colors(),
    {
        self.dash_ghosts.spawn(TimedVfx { look, lifetime: duration, lt_max: duration });
    }

    /// Whether entity `entity_id` is flashing now.
    pub fn is_flashing(&self, entity_id: u64) -> (r: bool)
        requires
            self.wf(),
        ensures
            r == flashing(self.flashes_view(), entity_id),
    {
        let n = self.flashes.len();
        let mut i: usize = 0;
        while i < n
            invariant
                n == self.flashes@.len(),
                i <= n,
                forall|j: int|
                    0 <= j < i ==> !((#[trigger] self.flashes@[j]).0 && self.flashes@[j].1.entity_id
                        == entity_id),
            decreases n - i,
        {
            let (active, flash) = self.flashes.slot(i);
            if active && flash.entity_id == entity_id {
                return true;
            }
            i = i + 1;
        }
        false
    }

    /// Advances every effect by `dt`: slashes, flashes and dash ghosts lose
    /// `dt` of their remaining time and end when none is left; trail points age.
    pub fn update(&mut self, dt: Micros)
        requires
            old(self).wf(),
        ensures
            final(self).wf(),
            final(self).slashes_view() == decay_timed(old(self).slashes_view(), dt),
            final(self).flashes_view() == decay_flashes(old(self).flashes_view(), dt),
            final(self).ghosts_view() == decay_timed(old(self).ghosts_view(), dt),
            final(self).trail_ids() == old(self).trail_ids(),
            final(self).trail_colors() == old(self).trail_colors(),
            forall|k: int|
                0 <= k < old(self).trail_points().len() ==> (#[trigger] final(self).trail_points()[k]).len()
                    == old(self).trail_points()[k].len(),
            forall|k: int, i: int|
                0 <= k < old(self).trail_points().len() && 0 <= i < old(
                    self,
                ).trail_points()[k].len() ==> (#[trigger] final(self).trail_points()[k][i]).pos
                    == old(self).trail_points()[k][i].pos && final(self).trail_points()[k][i].age
                    == aged(old(self).trail_points()[k][i].age, dt),
    {
        let ghost s0 = self.slashes@;
        self.slashes.iter_active_mut((
            |s: TimedVfx<P>| -> (r: TimedVfx<P>)
                ensures
                    r == tick_timed(s, dt),
                {
                    let left = if s.lifetime > dt {
                        s.lifetime - dt
                    } else {
                        0
                    };
                    TimedVfx { look: s.look, lifetime: left, lt_max: s.lt_max }
                }),
        );
        self.slashes.release_if((
            |s: &TimedVfx<P>| -> (r: bool)
                ensures
                    r == (s.lifetime == 0),
                { s.lifetime == 0 }),
        );
        proof {
            assert(self.slashes@ =~= decay_timed(s0, dt));
        }

        let ghost f0 = self.flashes@;
        self.flashes.iter_active_mut((
            |f: FlashVfx| -> (r: FlashVfx)
                ensures
                    r == (FlashVfx { entity_id: f.entity_id, timer: sat_sub(f.timer, dt) }),
                {
                    let left = if f.timer > dt {
                        f.timer - dt
                    } else {
                        0
                    };
                    FlashVfx { entity_id: f.entity_id, timer: left }
                }),
        );
        self.flashes.release_if((
            |f: &FlashVfx| -> (r: bool)
                ensures
                    r == (f.timer == 0),
                { f.timer == 0 }),
        );
        proof {
            assert(self.flashes@ =~= decay_flashes(f0, dt));
        }

        let ghost t0 = self.sword_trails@;
        let n = self.sword_trails.len();
        let mut k: usize = 0;
        while k < n
            invariant
                n == self.sword_trails@.len(),
                n == t0.len(),
                k <= n,
                self.slashes.wf(),
                self.flashes.wf(),
                self.dash_ghosts.wf(),
                self.slashes@ == decay_timed(s0, dt),
                self.flashes@ == decay_flashes(f0, dt),
                self.dash_ghosts@ == old(self).dash_ghosts@,
                t0 == old(self).sword_trails@,
                forall|a: int, b: int|
                    0 <= a < b < n ==> (#[trigger] t0[a]).0 != (#[trigger] t0[b]).0,
                forall|i: int| 0 <= i < n ==> (#[trigger] t0[i]).1.wf(),
                forall|i: int| 0 <= i < n ==> (#[trigger] self.sword_trails@[i]).1.wf(),
                forall|i: int| 0 <= i < n ==> (#[trigger] self.sword_trails@[i]).0 == t0[i].0,
                forall|i: int|
                    0 <= i < n ==> (#[trigger] self.sword_trails@[i]).1.trail_color()
                        == t0[i].1.trail_color(),
                forall|i: int| k <= i < n ==> (#[trigger] self.sword_trails@[i]).1@ == t0[i].1@,
                forall|i: int|
                    0 <= i < k ==> (#[trigger] self.sword_trails@[i]).1@.len() == t0[i].1@.len(),
                forall|i: int, j: int|
                    0 <= i < k && 0 <= j < t0[i].1@.len() ==> (#[trigger] self.sword_trails@[i].1@[j]).pos
                        == t0[i].1@[j].pos && self.sword_trails@[i].1@[j].age == aged(
                        t0[i].1@[j].age,
                        dt,
                    ),
            decreases n - k,
        {
            self.sword_trails[k].1.update(dt);
            k = k + 1;
        }

        let ghost g0 = self.dash_ghosts@;
        self.dash_ghosts.iter_active_mut((
            |g: TimedVfx<P>| -> (r: TimedVfx<P>)
                ensures
                    r == tick_timed(g, dt),
                {
                    let left = if g.lifetime > dt {
                        g.lifetime - dt
                    } else {
                        0
                    };
                    TimedVfx { look: g.look, lifetime: left, lt_max: g.lt_max }
                }),
        );
        self.dash_ghosts.release_if((
            |g: &TimedVfx<P>| -> (r: bool)
                ensures
                    r == (g.lifetime == 0),
                { g.lifetime == 0 }),
        );
        proof {
            assert(self.dash_ghosts@ =~= decay_timed(g0, dt));
            assert(self.trail_ids() =~= old(self).trail_ids());
            assert(self.trail_colors() =~= old(self).trail_colors());
        }
    }

    /// The active slashes, in slot order.
    pub fn active_slashes(&self) -> (v: Vec<TimedVfx<P>>)
        ensures
            v@ == active_items(self.slashes_view()),
    {
        self.slashes.iter_active()
    }

    /// The active flashes, in slot order.
    pub fn active_flashes(&self) -> (v: Vec<FlashVfx>)
        ensures
            v@ == active_items(self.flashes_view()),
    {
        self.flashes.iter_active()
    }

    /// The active dash ghosts, in slot order.
    pub fn active_dash_ghosts(&self) -> (v: Vec<TimedVfx<P>>)
        ensures
            v@ == active_items(self.ghosts_view()),
    {
        self.dash_ghosts.iter_active()
    }

    /// Number of sword trails.
    pub fn trail_count(&self) -> (n: usize)
        ensures
            n == self.trail_ids().len(),
    {
        self.sword_trails.len()
    }

    /// The `k`-th sword trail and the entity it belongs to.
    pub fn trail_at(&self, k: usize) -> (r: (u64, &SwordTrail<V, C>))
        requires
            self.wf(),
            k < self.trail_ids().len(),
        ensures
            r.0 == self.trail_ids()[k as int],
            r.1@ == self.trail_points()[k as int],
            r.1.trail_color() == self.trail_colors()[k as int],
            r.1.wf(),
    {
        (self.sword_trails[k].0, &self.sword_trails[k].1)
    }
}

proof fn lemma_first_flash_from(s: Seq<(bool, FlashVfx)>, entity_id: u64, k: int)
    requires
        0 <= k,
    ensures
        match first_flash_from(s, entity_id, k) {
            Some(i) => k <= i < s.len() && s[i].0 && s[i].1.entity_id == entity_id,
            None => forall|j: int|
                k <= j < s.len() ==> !((#[trigger] s[j]).0 && s[j].1.entity_id == entity_id),
        },
    decreases s.len() - k,
{
    if k < s.len() && !(s[k].0 && s[k].1.entity_id == entity_id) {
        lemma_first_flash_from(s, entity_id, k + 1);
    }
}

/// After a flash on an entity, that entity is flashing with the new duration,
/// unless it had no flash and every flash slot was taken; and whether any other
/// entity is flashing does not change.
pub proof fn law_spawn_flash(s: Seq<(bool, FlashVfx)>, entity_id: u64, duration: Micros, other: u64)
    requires
        other != entity_id,
    ensures
        flashing(s, entity_id) || first_free(s) is Some ==> exists|i: int|
            0 <= i < s.len() && (#[trigger] flashed(s, entity_id, duration)[i]) == (
            true,
            FlashVfx { entity_id, timer: duration },
        ),
        flashing(s, entity_id) || first_free(s) is Some ==> flashing(
            flashed(s, entity_id, duration),
            entity_id,
        ),
        !flashing(s, entity_id) && first_free(s) is None ==> flashed(s, entity_id, duration) == s,
        flashing(flashed(s, entity_id, duration), other) == flashing(s, other),
        flashed(s, entity_id, duration).len() == s.len(),
{
    lemma_first_flash_from(s, entity_id, 0);
    let t = flashed(s, entity_id, duration);
    match first_flash_from(s, entity_id, 0) {
        Some(i) => {
            assert(t[i] == (true, FlashVfx { entity_id, timer: duration }));
            if flashing(s, other) {
                let j = choose|j: int| 0 <= j < s.len() && (#[trigger] s[j]).0 && s[j].1.entity_id == other;
                assert(t[j] == s[j]);
            }
            if flashing(t, other) {
                let j = choose|j: int| 0 <= j < t.len() && (#[trigger] t[j]).0 && t[j].1.entity_id == other;
                assert(t[j] == s[j]);
            }
        },
        None => {
            law_spawn_count(s, FlashVfx { entity_id, timer: duration });
            if flashing(s, entity_id) {
                let j = choose|j: int| 0 <= j < s.len() && (#[trigger] s[j]).0 && s[j].1.entity_id == entity_id;
                assert(false);
            }
            if first_free(s) is Some {
                lemma_active_items_len(s);
                law_spawn_first_free(s, FlashVfx { entity_id, timer: duration });
                let i = first_free(s)->0;
                assert(t[i] == (true, FlashVfx { entity_id, timer: duration }));
                if flashing(s, other) {
                    let j = choose|j: int| 0 <= j < s.len() && (#[trigger] s[j]).0 && s[j].1.entity_id == other;
                    assert(t[j] == s[j]);
                }
                if flashing(t, other) {
                    let j = choose|j: int| 0 <= j < t.len() && (#[trigger] t[j]).0 && t[j].1.entity_id == other;
                    assert(t[j] == s[j]);
                }
            }
        },
    }
}

/// A flash survives an update of `dt` exactly when it had more than `dt` left.
pub proof fn law_flash_expiry(s: Seq<(bool, FlashVfx)>, dt: Micros, entity_id: u64)
    ensures
        flashing(decay_flashes(s, dt), entity_id) <==> exists|i: int|
            0 <= i < s.len() && (#[trigger] s[i]).0 && s[i].1.entity_id == entity_id && s[i].1.timer
                > dt,
{
    let t = decay_flashes(s, dt);
    if flashing(t, entity_id) {
        let i = choose|i: int| 0 <= i < t.len() && (#[trigger] t[i]).0 && t[i].1.entity_id == entity_id;
        assert(s[i].0 && s[i].1.entity_id == entity_id && s[i].1.timer > dt);
    }
    if exists|i: int|
        0 <= i < s.len() && (#[trigger] s[i]).0 && s[i].1.entity_id == entity_id && s[i].1.timer > dt {
        let i = choose|i: int|
            0 <= i < s.len() && (#[trigger] s[i]).0 && s[i].1.entity_id == entity_id && s[i].1.timer > dt;
        assert(t[i].0 && t[i].1.entity_id == entity_id);
    }
}

/// An update of `dt` keeps exactly the timed effects that had more than `dt`
/// left, each with `dt` less; a released slot is free for the next spawn.
pub proof fn law_timed_expiry<P>(s: Seq<(bool, TimedVfx<P>)>, dt: Micros, i: int)
    requires
        0 <= i < s.len(),
    ensures
        decay_timed(s, dt)[i].0 <==> s[i].0 && s[i].1.lifetime > dt,
        s[i].0 ==> decay_timed(s, dt)[i].1.lifetime == sat_sub(s[i].1.lifetime, dt),
        s[i].0 ==> decay_timed(s, dt)[i].1.look == s[i].1.look,
        s[i].0 && s[i].1.lifetime <= dt ==> first_free(decay_timed(s, dt)) is Some,
{
    let t = decay_timed(s, dt);
    if s[i].0 && s[i].1.lifetime <= dt {
        law_spawn_count(t, t[i].1);
        lemma_active_items_len(t);
    }
}

proof fn lemma_index_of_id_none(ids: Seq<u64>, id: u64, k: int)
    requires
        0 <= k,
        index_of_id(ids, id, k) is None,
    ensures
        forall|j: int| k <= j < ids.len() ==> ids[j] != id,
    decreases ids.len() - k,
{
    if k < ids.len() {
        lemma_index_of_id_none(ids, id, k + 1);
    }
}

/// No entity has two active flashes.
pub open spec fn flashes_unique(s: Seq<(bool, FlashVfx)>) -> bool {
    forall|i: int, j: int|
        0 <= i < j < s.len() && (#[trigger] s[i]).0 && (#[trigger] s[j]).0 ==> s[i].1.entity_id
            != s[j].1.entity_id
}

/// At most one flash per entity: a pool with no active flash has it, and a
/// flash (which resets an entity's flash rather than adding a second) and
/// the passing of time both keep it.
pub proof fn law_flash_unique(s: Seq<(bool, FlashVfx)>, entity_id: u64, duration: Micros, dt: Micros)
    ensures
        (forall|i: int| 0 <= i < s.len() ==> !(#[trigger] s[i]).0) ==> flashes_unique(s),
        flashes_unique(s) ==> flashes_unique(flashed(s, entity_id, duration)),
        flashes_unique(s) ==> flashes_unique(decay_flashes(s, dt)),
{
    if flashes_unique(s) {
        let f = FlashVfx { entity_id, timer: duration };
        let t = flashed(s, entity_id, duration);
        lemma_first_flash_from(s, entity_id, 0);
        match first_flash_from(s, entity_id, 0) {
            Some(k) => {
                assert forall|i: int, j: int|
                    0 <= i < j < t.len() && (#[trigger] t[i]).0 && (#[trigger] t[j]).0 implies t[i].1.entity_id
                    != t[j].1.entity_id by {
                    assert(t[i].1.entity_id == s[i].1.entity_id);
                    assert(t[j].1.entity_id == s[j].1.entity_id);
                    assert(s[i].0 && s[j].0);
                }
            },
            None => {
                if exists|j: int| 0 <= j < s.len() && !(#[trigger] s[j]).0 {
                    law_spawn_first_free(s, f);
                    let k = first_free(s)->0;
                    assert forall|i: int, j: int|
                        0 <= i < j < t.len() && (#[trigger] t[i]).0 && (#[trigger] t[j]).0 implies t[i].1.entity_id
                        != t[j].1.entity_id by {
                        if i == k {
                            assert(t[j] == s[j]);
                        } else if j == k {
                            assert(t[i] == s[i]);
                        } else {
                            assert(t[i] == s[i] && t[j] == s[j]);
                        }
                    }
                } else {
                    law_spawn_count(s, f);
                    lemma_active_items_len(s);
                    assert(t == s);
                }
            },
        }
        let d = decay_flashes(s, dt);
        assert forall|i: int, j: int|
            0 <= i < j < d.len() && (#[trigger] d[i]).0 && (#[trigger] d[j]).0 implies d[i].1.entity_id
            != d[j].1.entity_id by {
            assert(s[i].0 && s[j].0);
        }
    }
}

} // verus!
