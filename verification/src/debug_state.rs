//! State of the debug overlay: attack boxes, colliders, last hit and mode.
use vstd::prelude::*;
use crate::Micros;
use crate::vfx::sat_sub;

verus! {

/// How long an attack box stays on screen.
pub const ATTACK_BOX_LIFETIME: Micros = 150_000;

/// Mode of the debug overlay.
#[derive(Debug, Clone, Copy, PartialEq, Eq, Structural)]
pub enum DebugMode {
    Off,
    Overlay,
    Interactive,
}

impl Default for DebugMode {
    fn default() -> (r: Self)
        ensures
            r == DebugMode::Off,
    {
        DebugMode::Off
    }
}

/// The mode that follows `m`: Off, Overlay, Interactive, then Off again.
pub open spec fn next_mode(m: DebugMode) -> DebugMode {
    match m {
        DebugMode::Off => DebugMode::Overlay,
        DebugMode::Overlay => DebugMode::Interactive,
        DebugMode::Interactive => DebugMode::Off,
    }
}

/// An attack box with geometry `geom`, shown for `lifetime` more microseconds.
#[derive(Clone, Copy)]
pub struct DebugRectState<R> {
    pub geom: R,
    pub lifetime: Micros,
}

/// The attack boxes after `dt`: each loses `dt`, those with none left go, the
/// others keep their order.
pub open spec fn aged_boxes<R>(s: Seq<DebugRectState<R>>, dt: Micros) -> Seq<DebugRectState<R>>
    decreases s.len(),
{
    if s.len() == 0 {
        Seq::empty()
    } else {
        let rest = aged_boxes(s.drop_last(), dt);
        let b = s.last();
        if sat_sub(b.lifetime, dt) > 0 {
            rest.push(DebugRectState { geom: b.geom, lifetime: sat_sub(b.lifetime, dt) })
        } else {
            rest
        }
    }
}

/// State of the debug overlay; `R` is the geometry of an attack box and `Pt`
/// a position.
pub struct DebugState<R, Pt> {
    pub attack_box: Vec<DebugRectState<R>>,
    pub collider: Vec<Pt>,
    pub hit_pos_anim: Pt,
    pub mode: DebugMode,
    pub cleared: bool,
}

impl<R: Copy, Pt: Copy> DebugState<R, Pt> {
    /// Nothing shown, mode Off.
    pub fn new() -> (d: Self) where Pt: Default
        ensures
            d.attack_box@.len() == 0,
            d.collider@.len() == 0,
            d.mode == DebugMode::Off,
            !d.cleared,
    {
        DebugState {
            attack_box: Vec::new(),
            collider: Vec::new(),
            hit_pos_anim: Pt::default(),
            mode: DebugMode::Off,
            cleared: false,
        }
    }

    /// Shows an attack box for `ATTACK_BOX_LIFETIME`.
    pub fn add_rect(&mut self, geom: R)
        ensures
            final(self).attack_box@ == old(self).attack_box@.push(
                DebugRectState { geom, lifetime: ATTACK_BOX_LIFETIME },
            ),
            final(self).collider@ == old(self).collider@,
            final(self).hit_pos_anim == old(self).hit_pos_anim,
            final(self).mode == old(self).mode,
            final(self).cleared == old(self).cleared,
    {
        self.attack_box.push(DebugRectState { geom, lifetime: ATTACK_BOX_LIFETIME });
    }

    /// Records a collider; it is recorded twice.
    pub fn add_collider(&mut self, pos: Pt)
        ensures
            final(self).collider@ == old(self).collider@.push(pos).push(pos),
            final(self).attack_box@ == old(self).attack_box@,
            final(self).hit_pos_anim == old(self).hit_pos_anim,
            final(self).mode == old(self).mode,
            final(self).cleared == old(self).cleared,
    {
        self.collider.push(pos);
        self.collider.push(pos);
    }

    /// Records where the last hit landed.
    pub fn set_hit_anim(&mut self, pos: Pt)
        ensures
            final(self).hit_pos_anim == pos,
            final(self).attack_box@ == old(self).attack_box@,
            final(self).collider@ == old(self).collider@,
            final(self).mode == old(self).mode,
            final(self).cleared == old(self).cleared,
    {
        self.hit_pos_anim = pos;
    }

    /// Moves to the next mode.
    pub fn cycle(&mut self)
        ensures
            final(self).mode == next_mode(old(self).mode),
            final(self).attack_box@ == old(self).attack_box@,
            final(self).collider@ == old(self).collider@,
            final(self).hit_pos_anim == old(self).hit_pos_anim,
            final(self).cleared == old(self).cleared,
    {
        self.mode = match self.mode {
            DebugMode::Off => DebugMode::Overlay,
            DebugMode::Overlay => DebugMode::Interactive,
            DebugMode::Interactive => DebugMode::Off,
        };
    }

    /// Ages the attack boxes by `dt` and drops those with no time left.
    pub fn update(&mut self, dt: Micros)
        ensures
            final(self).attack_box@ == aged_boxes(old(self).attack_box@, dt),
            final(self).collider@ == old(self).collider@,
            final(self).hit_pos_anim == old(self).hit_pos_anim,
            final(self).mode == old(self).mode,
            final(self).cleared == old(self).cleared,
    {
        let mut kept: Vec<DebugRectState<R>> = Vec::new();
        let n = self.attack_box.len();
        let mut i: usize = 0;
        while i < n
            invariant
                n == self.attack_box@.len(),
                i <= n,
                kept@ == aged_boxes(self.attack_box@.take(i as int), dt),
            decreases n - i,
        {
            let b = self.attack_box[i];
            proof {
                assert(self.attack_box@.take(i + 1).drop_last() =~= self.attack_box@.take(i as int));
            }
            let left = if b.lifetime > dt {
                b.lifetime - dt
            } else {
                0
            };
            if left > 0 {
                kept.push(DebugRectState { geom: b.geom, lifetime: left });
            }
            i = i + 1;
        }
        proof {
            assert(self.attack_box@.take(n as int) =~= self.attack_box@);
        }
        self.attack_box = kept;
    }
}

/// Cycling the mode three times comes back to where it started, and the three
/// modes are all visited.
pub proof fn law_cycle_period(m: DebugMode)
    ensures
        next_mode(next_mode(next_mode(m))) == m,
        next_mode(m) != m,
        next_mode(next_mode(m)) != m,
{
}

/// Aging never adds attack boxes: those with more than `dt` left all stay,
/// those with at most `dt` left all go.
pub proof fn law_aged_boxes_shrink<R>(s: Seq<DebugRectState<R>>, dt: Micros)
    ensures
        aged_boxes(s, dt).len() <= s.len(),
        (forall|i: int| 0 <= i < s.len() ==> (#[trigger] s[i]).lifetime > dt) ==> aged_boxes(s, dt).len()
            == s.len(),
        (forall|i: int| 0 <= i < s.len() ==> (#[trigger] s[i]).lifetime <= dt) ==> aged_boxes(s, dt).len()
            == 0,
    decreases s.len(),
{
    if s.len() > 0 {
        law_aged_boxes_shrink(s.drop_last(), dt);
        assert forall|i: int| 0 <= i < s.drop_last().len() implies #[trigger] s.drop_last()[i] == s[i] by {}
        assert(s.last() == s[s.len() - 1]);
    }
}

} // verus!
