//! The sword trail of one entity: a ring buffer of the last `TRAIL_POINTS`
//! positions, each with the time since it was pushed.
use vstd::prelude::*;
use crate::Micros;

verus! {

/// Number of positions a trail remembers.
pub const TRAIL_POINTS: usize = 12;

/// One remembered position and the time since it was pushed.
#[derive(Clone, Copy)]
pub struct TrailPoint<V> {
    pub pos: V,
    pub age: Micros,
}

/// `age + dt`, capped at the largest representable duration.
pub open spec fn aged(age: Micros, dt: Micros) -> Micros {
    if age + dt > u64::MAX {
        u64::MAX
    } else {
        (age + dt) as u64
    }
}

/// Ages never decrease from the newest point to the oldest.
pub open spec fn ages_ordered<V>(s: Seq<TrailPoint<V>>) -> bool {
    forall|i: int, j: int| 0 <= i <= j < s.len() ==> s[i].age <= s[j].age
}

/// The points of `s` after a push of `pos`: the new point first, then the
/// older ones, the oldest dropping out once the buffer is full.
pub open spec fn pushed<V>(s: Seq<TrailPoint<V>>, pos: V) -> Seq<TrailPoint<V>> {
    let kept = if s.len() < TRAIL_POINTS {
        s.len() as int
    } else {
        TRAIL_POINTS - 1
    };
    seq![TrailPoint { pos, age: 0 }] + s.take(kept)
}

/// `duration - min(age, duration)`: the opacity of a point times `duration`.
pub open spec fn alpha_scaled(age: Micros, duration: Micros) -> Micros {
    if age >= duration {
        0
    } else {
        (duration - age) as u64
    }
}

/// Physical slot of the `i`-th newest point when the newest is at `head`.
pub open spec fn slot_of(head: int, i: int) -> int {
    if i <= head {
        head - i
    } else {
        head + TRAIL_POINTS - i
    }
}

/// Ring buffer of trail points; `head` is the slot of the newest point and
/// `count` the number of valid points.
pub struct SwordTrail<V, C> {
    points: Vec<TrailPoint<V>>,
    head: usize,
    count: usize,
    color: C,
}

impl<V: Copy, C> View for SwordTrail<V, C> {
    type V = Seq<TrailPoint<V>>;

    /// The valid points, newest first.
    closed spec fn view(&self) -> Seq<TrailPoint<V>> {
        Seq::new(self.count as nat, |i: int| self.points@[slot_of(self.head as int, i)])
    }
}

impl<V: Copy, C> SwordTrail<V, C> {
    /// Internal consistency of the ring buffer.
    pub closed spec fn wf(&self) -> bool {
        &&& self.points@.len() == TRAIL_POINTS
        &&& self.head < TRAIL_POINTS
        &&& self.count <= TRAIL_POINTS
    }

    /// An empty trail drawn in `color`.
    pub fn new(color: C) -> (trail: Self) where V: Default
        ensures
            trail.wf(),
            trail@.len() == 0,
            ages_ordered(trail@),
            trail.trail_color() == color,
    {
        let filler = V::default();
        let mut points: Vec<TrailPoint<V>> = Vec::new();
        let mut k: usize = 0;
        while k < TRAIL_POINTS
            invariant
                k <= TRAIL_POINTS,
                points@.len() == k,
            decreases TRAIL_POINTS - k,
        {
            points.push(TrailPoint { pos: filler, age: 0 });
            k = k + 1;
        }
        SwordTrail { points, head: 0, count: 0, color }
    }

    /// The colour the trail is drawn in.
    pub closed spec fn trail_color(&self) -> C {
        self.color
    }

    /// The colour the trail is drawn in.
    pub fn color(&self) -> (c: &C)
        ensures
            *c == self.trail_color(),
    {
        &self.color
    }

    /// Number of valid points.
    pub fn count(&self) -> (n: usize)
        requires
            self.wf(),
        ensures
            n == self@.len(),
            n <= TRAIL_POINTS,
    {
        self.count
    }

    /// Pushes a new position, overwriting the oldest once the buffer is full.
    pub fn push(&mut self, pos: V)
        requires
            old(self).wf(),
        ensures
            final(self).wf(),
            final(self)@ == pushed(old(self)@, pos),
            final(self).trail_color() == old(self).trail_color(),
            ages_ordered(old(self)@) ==> ages_ordered(final(self)@),
    {
        let ghost prev = self@;
        let new_head = if self.head + 1 == TRAIL_POINTS {
            0
        } else {
            self.head + 1
        };
        self.head = new_head;
        self.points.set(new_head, TrailPoint { pos, age: 0 });
        if self.count < TRAIL_POINTS {
            self.count = self.count + 1;
        }
        proof {
            let expected = pushed(prev, pos);
            assert forall|i: int| 0 <= i < self@.len() implies #[trigger] self@[i] == expected[i] by {
                if i > 0 {
                    assert(slot_of(self.head as int, i) == slot_of(old(self).head as int, i - 1));
                }
            }
            assert(self@ =~= expected);
        }
    }

    /// Ages every valid point by `dt`.
    pub fn update(&mut self, dt: Micros)
        requires
            old(self).wf(),
        ensures
            final(self).wf(),
            final(self)@.len() == old(self)@.len(),
            forall|i: int|
                0 <= i < old(self)@.len() ==> (#[trigger] final(self)@[i]).pos == old(self)@[i].pos
                    && final(self)@[i].age == aged(old(self)@[i].age, dt),
            final(self).trail_color() == old(self).trail_color(),
            ages_ordered(old(self)@) ==> ages_ordered(final(self)@),
    {
        let ghost prev = self@;
        let mut i: usize = 0;
        while i < self.count
            invariant
                self.wf(),
                self.head == old(self).head,
                self.count == old(self).count,
                prev == old(self)@,
                self.color == old(self).color,
                i <= self.count,
                forall|j: int|
                    0 <= j < i ==> (#[trigger] self@[j]).pos == prev[j].pos && self@[j].age == aged(
                        prev[j].age,
                        dt,
                    ),
                forall|j: int| i <= j < self.count ==> #[trigger] self@[j] == prev[j],
            decreases self.count - i,
        {
            let idx = if i <= self.head {
                self.head - i
            } else {
                self.head + TRAIL_POINTS - i
            };
            let p = self.points[idx];
            let age = if p.age > u64::MAX - dt {
                u64::MAX
            } else {
                p.age + dt
            };
            let ghost before = self@;
            self.points.set(idx, TrailPoint { pos: p.pos, age });
            proof {
                assert forall|j: int| 0 <= j < self.count && j != i implies #[trigger] self@[j]
                    == before[j] by {
                    assert(slot_of(self.head as int, j) != slot_of(self.head as int, i as int));
                }
                assert(before[i as int] == prev[i as int]);
                assert(p == before[i as int]);
                assert(self@[i as int] == TrailPoint { pos: p.pos, age });
            }
            i = i + 1;
        }
    }

    /// The valid points, newest first, each with `duration - min(age, duration)`,
    /// which is its opacity scaled by `duration`.
    pub fn iter_with_alpha(&self, duration: Micros) -> (points: Vec<(V, Micros)>)
        requires
            self.wf(),
        ensures
            points@.len() == self@.len(),
            forall|i: int|
                0 <= i < self@.len() ==> (#[trigger] points@[i]).0 == self@[i].pos && points@[i].1
                    == alpha_scaled(self@[i].age, duration),
    {
        let mut out: Vec<(V, Micros)> = Vec::new();
        let mut i: usize = 0;
        while i < self.count
            invariant
                self.wf(),
                i <= self.count,
                out@.len() == i,
                forall|j: int|
                    0 <= j < i ==> (#[trigger] out@[j]).0 == self@[j].pos && out@[j].1
                        == alpha_scaled(self@[j].age, duration),
            decreases self.count - i,
        {
            let idx = if i <= self.head {
                self.head - i
            } else {
                self.head + TRAIL_POINTS - i
            };
            let p = self.points[idx];
            let alpha = if p.age >= duration {
                0
            } else {
                duration - p.age
            };
            out.push((p.pos, alpha));
            i = i + 1;
        }
        out
    }
}

/// A newer point is never less opaque than an older one, as long as the ages
/// are ordered, which `push` and `update` keep.
pub proof fn law_alpha_non_increasing<V>(s: Seq<TrailPoint<V>>, duration: Micros, i: int, j: int)
    requires
        ages_ordered(s),
        0 <= i <= j < s.len(),
    ensures
        alpha_scaled(s[i].age, duration) >= alpha_scaled(s[j].age, duration),
{
}

} // verus!
