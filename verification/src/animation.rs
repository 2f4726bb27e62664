//! Frame-by-frame animations: the registered animations and the animation
//! state of each entity of the world.
use vstd::prelude::*;
use std::collections::HashMap;
use std::collections::hash_map::Entry;
use crate::Micros;
use crate::anim_key::{AnimKey, parse_key, str_eq};
use crate::assoc::{assoc_get, assoc_map, keys_unique, lemma_assoc_at, lemma_assoc_map_empty, lemma_assoc_map_push, lemma_assoc_map_update, lemma_assoc_none, lemma_assoc_some};

verus! {

broadcast use vstd::std_specs::hash::group_hash_axioms;

/// Handle of a registered animation.
#[derive(Debug, Clone, Copy, PartialEq, Eq, Structural)]
pub struct AnimId(pub u64);

/// Handle of a loaded texture.
#[derive(Debug, Clone, Copy, PartialEq, Eq, Structural)]
pub struct TextureId(pub u64);

/// An animation: its frames, how long each is shown, and whether it loops.
pub struct AnimData {
    pub frames: Vec<TextureId>,
    pub frame_time: Micros,
    pub looping: bool,
}

/// `a + b`, capped at the largest representable duration.
pub open spec fn sat_add(a: Micros, b: Micros) -> Micros {
    if a + b > u64::MAX {
        u64::MAX
    } else {
        (a + b) as u64
    }
}

/// Where an entity is in its animation.
#[derive(Debug, Clone, Copy, PartialEq, Eq, Structural)]
pub struct AnimEntity {
    pub current_id: AnimId,
    pub current_frame: usize,
    pub timer: Micros,
}

/// The frame after `frame` in an animation of `len` frames.
pub open spec fn next_frame(frame: int, len: int, looping: bool) -> int {
    if frame + 1 < len {
        frame + 1
    } else if looping {
        0
    } else {
        frame
    }
}

/// An entity's animation state after `dt` of animation `data`.
pub open spec fn ticked(e: AnimEntity, dt: Micros, data: AnimData) -> AnimEntity {
    let t = sat_add(e.timer, dt);
    if t >= data.frame_time {
        AnimEntity {
            current_id: e.current_id,
            current_frame: next_frame(e.current_frame as int, data.frames@.len() as int, data.looping) as usize,
            timer: 0,
        }
    } else {
        AnimEntity { current_id: e.current_id, current_frame: e.current_frame, timer: t }
    }
}

impl AnimEntity {
    /// At the start of animation `id`.
    pub fn new(id: AnimId) -> (e: Self)
        ensures
            e == (AnimEntity { current_id: id, current_frame: 0, timer: 0 }),
    {
        AnimEntity { current_id: id, current_frame: 0, timer: 0 }
    }

    /// Switches to animation `id`, restarting it, unless it is already playing.
    pub fn set(&mut self, id: AnimId)
        ensures
            *final(self) == if old(self).current_id == id {
                *old(self)
            } else {
                AnimEntity { current_id: id, current_frame: 0, timer: 0 }
            },
    {
        if self.current_id != id {
            self.current_id = id;
            self.current_frame = 0;
            self.timer = 0;
        }
    }

    /// Plays `dt` of animation `data`: once a frame has been shown for its
    /// time, the next one comes, wrapping around when the animation loops and
    /// staying on the last frame otherwise.
    pub fn tick(&mut self, dt: Micros, data: &AnimData)
        requires
            old(self).current_frame < usize::MAX,
        ensures
            *final(self) == ticked(*old(self), dt, *data),
    {
        self.timer = if self.timer > u64::MAX - dt {
            u64::MAX
        } else {
            self.timer + dt
        };
        if self.timer >= data.frame_time {
            self.timer = 0;
            let next = self.current_frame + 1;
            self.current_frame = if next < data.frames.len() {
                next
            } else if data.looping {
                0
            } else {
                self.current_frame
            };
        }
    }

    /// The texture of the current frame of `data`, if the frame exists.
    pub fn current_texture_id(&self, data: &AnimData) -> (t: Option<TextureId>)
        ensures
            t == if self.current_frame < data.frames@.len() {
                Some(data.frames@[self.current_frame as int])
            } else {
                None::<TextureId>
            },
    {
        if self.current_frame < data.frames.len() {
            Some(data.frames[self.current_frame])
        } else {
            None
        }
    }
}

/// An animation never leaves its frames: a frame that exists is followed by a
/// frame that exists; a looping animation restarts after its last frame, and
/// one that does not loop stays on it.
pub proof fn law_frame_in_range(e: AnimEntity, dt: Micros, data: AnimData)
    requires
        e.current_frame < data.frames@.len(),
    ensures
        ticked(e, dt, data).current_frame < data.frames@.len(),
        ticked(e, dt, data).current_id == e.current_id,
        sat_add(e.timer, dt) >= data.frame_time && e.current_frame + 1 == data.frames@.len()
            ==> ticked(e, dt, data).current_frame == if data.looping {
            0
        } else {
            e.current_frame
        },
{
}

/// The animation state of every entity, one per entity.
pub struct AnimEntityManager {
    entities: HashMap<u64, AnimEntity>,
}

impl View for AnimEntityManager {
    type V = Map<u64, AnimEntity>;

    /// The state of each entity that has one.
    closed spec fn view(&self) -> Map<u64, AnimEntity> {
        self.entities@
    }
}

/// The keys of `m`, each once, in some order.
fn keys_of(m: &HashMap<u64, AnimEntity>) -> (keys: Vec<u64>)
    ensures
        keys@.to_set() == m@.dom(),
        keys@.no_duplicates(),
{
    let mut keys: Vec<u64> = Vec::new();
    let ghost n = m@.dom().len();
    for k in it: m.keys()
        invariant
            keys@.len() == it.index(),
            forall|j: int| 0 <= j < it.index() ==> keys@[j] == *it.seq()[j],
            it.seq().unref().to_set() == m@.dom(),
            it.seq().unref().no_duplicates(),
            it.seq().len() == n,
            keys@ == it.seq().unref().take(it.index() as int),
    {
        keys.push(*k);
        proof {
            assert(keys@ =~= it.seq().unref().take(it.index() + 1));
        }
    }
    keys
}

impl AnimEntityManager {
    /// No entity.
    pub fn new() -> (m: Self)
        ensures
            m@ == Map::<u64, AnimEntity>::empty(),
    {
        AnimEntityManager { entities: HashMap::new() }
    }

    /// The state of `entity_id`, created at the start of `anim_id` if the
    /// entity had none.
    pub fn get_or_create(&mut self, entity_id: u64, anim_id: AnimId) -> (r: &mut AnimEntity)
        ensures
            *r == if old(self)@.contains_key(entity_id) {
                old(self)@[entity_id]
            } else {
                AnimEntity { current_id: anim_id, current_frame: 0, timer: 0 }
            },
            final(self)@ == old(self)@.insert(entity_id, *final(r)),
    {
        match self.entities.entry(entity_id) {
            Entry::Occupied(o) => o.into_mut(),
            Entry::Vacant(v) => v.insert(AnimEntity::new(anim_id)),
        }
    }

    /// The state of `entity_id`, if it has one.
    pub fn get(&self, entity_id: u64) -> (r: Option<&AnimEntity>)
        ensures
            match r {
                Some(e) => self@.contains_key(entity_id) && *e == self@[entity_id],
                None => !self@.contains_key(entity_id),
            },
    {
        self.entities.get(&entity_id)
    }

    /// Whether every entity's frame can still advance, which `tick_all` needs.
    pub fn frames_can_advance(&self) -> (r: bool)
        ensures
            r == forall|id: u64| #[trigger] self@.contains_key(id) ==> self@[id].current_frame < usize::MAX,
    {
        let keys = keys_of(&self.entities);
        let n = keys.len();
        let mut i: usize = 0;
        while i < n
            invariant
                n == keys@.len(),
                i <= n,
                keys@.to_set() == self@.dom(),
                forall|j: int| 0 <= j < i ==> self@[#[trigger] keys@[j]].current_frame < usize::MAX,
            decreases n - i,
        {
            let k = keys[i];
            assert(keys@.to_set().contains(k));
            match self.entities.get(&k) {
                Some(e) => {
                    if e.current_frame == usize::MAX {
                        return false;
                    }
                },
                None => {},
            }
            i = i + 1;
        }
        proof {
            assert forall|id: u64| #[trigger] self@.contains_key(id) implies self@[id].current_frame < usize::MAX by {
                assert(keys@.to_set().contains(id));
                let j = keys@.index_of(id);
            }
        }
        true
    }

    /// Plays `dt` on every entity whose animation is registered in `anims`.
    pub fn tick_all(&mut self, dt: Micros, anims: &AnimationManager)
        requires
            forall|id: u64| #[trigger] old(self)@.contains_key(id) ==> old(self)@[id].current_frame < usize::MAX,
        ensures
            final(self)@.dom() == old(self)@.dom(),
            forall|id: u64|
                #[trigger] old(self)@.contains_key(id) ==> final(self)@[id] == match anims.anim(old(self)@[id].current_id) {
                    Some(data) => ticked(old(self)@[id], dt, data),
                    None => old(self)@[id],
                },
    {
        let keys = keys_of(&self.entities);
        let n = keys.len();
        let mut i: usize = 0;
        while i < n
            invariant
                n == keys@.len(),
                i <= n,
                keys@.to_set() == old(self)@.dom(),
                keys@.no_duplicates(),
                self@.dom() == old(self)@.dom(),
                forall|id: u64| #[trigger] old(self)@.contains_key(id) ==> old(self)@[id].current_frame < usize::MAX,
                forall|j: int|
                    0 <= j < i ==> self@[#[trigger] keys@[j]] == match anims.anim(old(self)@[keys@[j]].current_id) {
                        Some(data) => ticked(old(self)@[keys@[j]], dt, data),
                        None => old(self)@[keys@[j]],
                    },
                forall|j: int| i <= j < n ==> self@[#[trigger] keys@[j]] == old(self)@[keys@[j]],
            decreases n - i,
        {
            let k = keys[i];
            assert(keys@.to_set().contains(k));
            match self.entities.get(&k) {
                Some(e) => {
                    let mut e = *e;
                    match anims.get(e.current_id) {
                        Some(data) => {
                            e.tick(dt, data);
                            self.entities.insert(k, e);
                        },
                        None => {},
                    }
                },
                None => {},
            }
            proof {
                assert forall|j: int| 0 <= j < n && j != i implies #[trigger] keys@[j] != k by {}
            }
            i = i + 1;
        }
        proof {
            assert forall|id: u64|
                #[trigger] old(self)@.contains_key(id) implies self@[id] == match anims.anim(old(self)@[id].current_id) {
                    Some(data) => ticked(old(self)@[id], dt, data),
                    None => old(self)@[id],
                } by {
                assert(keys@.to_set().contains(id));
                let j = keys@.index_of(id);
            }
            assert(self@.dom() =~= old(self)@.dom());
        }
    }

    /// Drops the entities for which `is_active` does not hold; the others
    /// keep their state.
    pub fn retain<F: Fn(u64) -> bool>(&mut self, is_active: F)
        requires
            forall|id: u64| call_requires(is_active, (id,)),
        ensures
            forall|id: u64| #[trigger] final(self)@.contains_key(id) ==> old(self)@.contains_key(id)
                && final(self)@[id] == old(self)@[id] && call_ensures(is_active, (id,), true),
            forall|id: u64|
                #[trigger] old(self)@.contains_key(id) && !call_ensures(is_active, (id,), false)
                    ==> final(self)@.contains_key(id),
    {
        let keys = keys_of(&self.entities);
        let n = keys.len();
        let mut i: usize = 0;
        while i < n
            invariant
                n == keys@.len(),
                i <= n,
                keys@.to_set() == old(self)@.dom(),
                keys@.no_duplicates(),
                forall|id: u64| call_requires(is_active, (id,)),
                forall|id: u64| #[trigger] self@.contains_key(id) ==> old(self)@.contains_key(id)
                    && self@[id] == old(self)@[id],
                forall|j: int|
                    0 <= j < i && #[trigger] self@.contains_key(keys@[j]) ==> call_ensures(is_active, (keys@[j],), true),
                forall|j: int|
                    0 <= j < i && !call_ensures(is_active, (#[trigger] keys@[j],), false) ==> self@.contains_key(keys@[j]),
                forall|j: int| i <= j < n ==> self@.contains_key(#[trigger] keys@[j]),
            decreases n - i,
        {
            let k = keys[i];
            let keep = is_active(k);
            if !keep {
                self.entities.remove(&k);
            }
            proof {
                assert forall|j: int| 0 <= j < n && j != i implies #[trigger] keys@[j] != k by {}
            }
            i = i + 1;
        }
        proof {
            assert forall|id: u64| #[trigger] self@.contains_key(id) implies call_ensures(is_active, (id,), true) by {
                assert(keys@.to_set().contains(id));
                let j = keys@.index_of(id);
            }
            assert forall|id: u64|
                #[trigger] old(self)@.contains_key(id) && !call_ensures(is_active, (id,), false) implies self@.contains_key(id) by {
                assert(keys@.to_set().contains(id));
                let j = keys@.index_of(id);
            }
        }
    }
}

/// The registered animations, looked up by handle, by key or by name.
pub struct AnimationManager {
    anims: Vec<AnimData>,
    key_map: Vec<(AnimKey, AnimId)>,
    named_map: Vec<(String, AnimId)>,
}

/// The names of `m`'s entries taken as text.
pub open spec fn name_entries(m: Seq<(String, AnimId)>) -> Seq<(Seq<char>, AnimId)> {
    m.map_values(|p: (String, AnimId)| (p.0@, p.1))
}

impl AnimationManager {
    /// The registered animations; the handle of each is its position.
    pub closed spec fn anims(&self) -> Seq<AnimData> {
        self.anims@
    }

    /// The handle registered under each key.
    pub closed spec fn keys(&self) -> Map<AnimKey, AnimId> {
        assoc_map(self.key_map@)
    }

    /// The handle registered under each name.
    pub closed spec fn names(&self) -> Map<Seq<char>, AnimId> {
        assoc_map(name_entries(self.named_map@))
    }

    /// Internal consistency: no key or name appears twice, and each handle
    /// they give is that of a registered animation.
    pub closed spec fn wf(&self) -> bool {
        &&& keys_unique(self.key_map@)
        &&& keys_unique(name_entries(self.named_map@))
        &&& forall|i: int| 0 <= i < self.key_map@.len() ==> (#[trigger] self.key_map@[i]).1.0 < self.anims@.len()
        &&& forall|i: int|
            0 <= i < self.named_map@.len() ==> (#[trigger] self.named_map@[i]).1.0 < self.anims@.len()
    }

    /// The animation registered under `id`, if any.
    pub open spec fn anim(&self, id: AnimId) -> Option<AnimData> {
        if id.0 < self.anims().len() {
            Some(self.anims()[id.0 as int])
        } else {
            None
        }
    }

    /// Every handle that a key or a name gives is that of a registered
    /// animation.
    pub proof fn law_handles_registered(&self)
        requires
            self.wf(),
        ensures
            forall|k: AnimKey| #[trigger] self.keys().dom().contains(k) ==> self.anim(self.keys()[k]) is Some,
            forall|n: Seq<char>| #[trigger] self.names().dom().contains(n) ==> self.anim(self.names()[n]) is Some,
    {
        assert forall|k: AnimKey| #[trigger] self.keys().dom().contains(k) implies self.anim(self.keys()[k]) is Some by {
            lemma_assoc_some(self.key_map@, k);
        }
        assert forall|n: Seq<char>| #[trigger] self.names().dom().contains(n) implies self.anim(self.names()[n]) is Some by {
            let e = name_entries(self.named_map@);
            lemma_assoc_some(e, n);
            let j = choose|j: int| 0 <= j < e.len() && #[trigger] e[j] == (n, assoc_get(e, n).unwrap());
            assert(self.named_map@[j].1 == e[j].1);
        }
    }

    /// No animation registered.
    pub fn new() -> (m: Self)
        ensures
            m.wf(),
            m.anims().len() == 0,
            m.keys() == Map::<AnimKey, AnimId>::empty(),
            m.names() == Map::<Seq<char>, AnimId>::empty(),
    {
        let m = AnimationManager { anims: Vec::new(), key_map: Vec::new(), named_map: Vec::new() };
        proof {
            lemma_assoc_map_empty(m.key_map@);
            lemma_assoc_map_empty(name_entries(m.named_map@));
        }
        m
    }

    /// Registers `data` and gives its handle, the next free one.
    pub fn register(&mut self, data: AnimData) -> (id: AnimId)
        requires
            old(self).wf(),
        ensures
            final(self).wf(),
            id.0 == old(self).anims().len(),
            final(self).anims() == old(self).anims().push(data),
            final(self).keys() == old(self).keys(),
            final(self).names() == old(self).names(),
    {
        let id = AnimId(self.anims.len() as u64);
        self.anims.push(data);
        id
    }

    /// The animation a lookup by `id` finds.
    pub fn get(&self, id: AnimId) -> (r: Option<&AnimData>)
        ensures
            match r {
                Some(d) => self.anim(id) == Some(*d),
                None => self.anim(id) is None,
            },
    {
        if id.0 < self.anims.len() as u64 {
            Some(&self.anims[id.0 as usize])
        } else {
            None
        }
    }

    /// The animation registered under `id`, if any, to be changed in place.
    pub fn get_mut(&mut self, id: AnimId) -> (r: Option<&mut AnimData>)
        requires
            old(self).wf(),
        ensures
            final(self).wf(),
            final(self).keys() == old(self).keys(),
            final(self).names() == old(self).names(),
            match r {
                Some(d) => old(self).anim(id) == Some(*d) && final(self).anims() == old(self).anims().update(
                    id.0 as int,
                    *final(d),
                ),
                None => old(self).anim(id) is None && final(self).anims() == old(self).anims(),
            },
    {
        if id.0 < self.anims.len() as u64 {
            Some(&mut self.anims[id.0 as usize])
        } else {
            None
        }
    }

    /// The handle registered under `key`, if any.
    pub fn get_by_key(&self, key: AnimKey) -> (r: Option<AnimId>)
        requires
            self.wf(),
        ensures
            r == if self.keys().dom().contains(key) {
                Some(self.keys()[key])
            } else {
                None::<AnimId>
            },
    {
        let n = self.key_map.len();
        let mut i: usize = 0;
        while i < n
            invariant
                n == self.key_map@.len(),
                self.wf(),
                i <= n,
                forall|j: int| 0 <= j < i ==> (#[trigger] self.key_map@[j]).0 != key,
            decreases n - i,
        {
            if self.key_map[i].0 == key {
                proof {
                    lemma_assoc_at(self.key_map@, i as int);
                }
                return Some(self.key_map[i].1);
            }
            i = i + 1;
        }
        proof {
            lemma_assoc_none(self.key_map@, key);
        }
        None
    }

    /// The handle registered under `name`, if any.
    pub fn get_by_name(&self, name: &str) -> (r: Option<AnimId>)
        requires
            self.wf(),
        ensures
            r == if self.names().dom().contains(name@) {
                Some(self.names()[name@])
            } else {
                None::<AnimId>
            },
    {
        let ghost e = name_entries(self.named_map@);
        let n = self.named_map.len();
        let mut i: usize = 0;
        while i < n
            invariant
                n == self.named_map@.len(),
                e == name_entries(self.named_map@),
                self.wf(),
                i <= n,
                forall|j: int| 0 <= j < i ==> (#[trigger] e[j]).0 != name@,
            decreases n - i,
        {
            if str_eq(self.named_map[i].0.as_str(), name) {
                proof {
                    lemma_assoc_at(e, i as int);
                }
                return Some(self.named_map[i].1);
            }
            i = i + 1;
        }
        proof {
            lemma_assoc_none(e, name@);
        }
        None
    }

    /// Registers `id` under `key`, replacing what the key gave before.
    fn set_key(&mut self, key: AnimKey, id: AnimId)
        requires
            old(self).wf(),
            id.0 < old(self).anims().len(),
        ensures
            final(self).wf(),
            final(self).anims() == old(self).anims(),
            final(self).keys() == old(self).keys().insert(key, id),
            final(self).names() == old(self).names(),
    {
        let n = self.key_map.len();
        let mut i: usize = 0;
        while i < n
            invariant
                n == self.key_map@.len(),
                *self == *old(self),
                old(self).wf(),
                id.0 < old(self).anims().len(),
                i <= n,
                forall|j: int| 0 <= j < i ==> (#[trigger] self.key_map@[j]).0 != key,
            decreases n - i,
        {
            if self.key_map[i].0 == key {
                proof {
                    lemma_assoc_map_update(self.key_map@, i as int, id);
                }
                self.key_map.set(i, (key, id));
                proof {
                    assert forall|j: int| 0 <= j < self.key_map@.len() implies (#[trigger] self.key_map@[j]).1.0
                        < self.anims@.len() by {
                        if j != i {
                            assert(old(self).key_map@[j].1.0 < old(self).anims@.len());
                        }
                    }
                }
                return;
            }
            i = i + 1;
        }
        proof {
            lemma_assoc_map_push(self.key_map@, key, id);
        }
        self.key_map.push((key, id));
    }

    /// Registers `id` under `name`, replacing what the name gave before.
    fn set_name(&mut self, name: String, id: AnimId)
        requires
            old(self).wf(),
            id.0 < old(self).anims().len(),
        ensures
            final(self).wf(),
            final(self).anims() == old(self).anims(),
            final(self).keys() == old(self).keys(),
            final(self).names() == old(self).names().insert(name@, id),
    {
        let ghost e = name_entries(self.named_map@);
        let n = self.named_map.len();
        let mut i: usize = 0;
        while i < n
            invariant
                n == self.named_map@.len(),
                *self == *old(self),
                old(self).wf(),
                id.0 < old(self).anims().len(),
                e == name_entries(self.named_map@),
                i <= n,
                forall|j: int| 0 <= j < i ==> (#[trigger] e[j]).0 != name@,
            decreases n - i,
        {
            if str_eq(self.named_map[i].0.as_str(), name.as_str()) {
                proof {
                    lemma_assoc_map_update(e, i as int, id);
                    assert(name_entries(self.named_map@.update(i as int, (name, id))) =~= e.update(
                        i as int,
                        (e[i as int].0, id),
                    ));
                }
                self.named_map.set(i, (name, id));
                proof {
                    assert forall|j: int| 0 <= j < self.named_map@.len() implies (#[trigger] self.named_map@[j]).1.0
                        < self.anims@.len() by {
                        if j != i {
                            assert(old(self).named_map@[j].1.0 < old(self).anims@.len());
                        }
                    }
                }
                return;
            }
            i = i + 1;
        }
        proof {
            lemma_assoc_map_push(e, name@, id);
            assert(name_entries(self.named_map@.push((name, id))) =~= e.push((name@, id)));
        }
        self.named_map.push((name, id));
    }

    /// Adds an animation read from the configuration under `name`, given the
    /// textures of its frames that could be loaded: an animation without a
    /// frame is skipped; otherwise it is registered under its name, and
    /// under its key when the name is that of a known animation.
    pub fn add_loaded(&mut self, name: String, frames: Vec<TextureId>, frame_time: Micros, looping: bool) -> (r: Option<AnimId>)
        requires
            old(self).wf(),
        ensures
            final(self).wf(),
            frames@.len() == 0 ==> r is None && *final(self) == *old(self),
            frames@.len() > 0 ==> r == Some(AnimId(old(self).anims().len() as u64)),
            frames@.len() > 0 ==> final(self).anims() == old(self).anims().push(
                (AnimData { frames: frames, frame_time: frame_time, looping: looping }),
            ),
            frames@.len() > 0 ==> final(self).names() == old(self).names().insert(name@, r.unwrap()),
            frames@.len() > 0 ==> final(self).keys() == match parse_key(name@) {
                Some(k) => old(self).keys().insert(k, r.unwrap()),
                None => old(self).keys(),
            },
    {
        if frames.len() == 0 {
            return None;
        }
        let id = self.register(AnimData { frames, frame_time, looping });
        match AnimKey::try_from(name.as_str()) {
            Ok(key) => {
                self.set_key(key, id);
            },
            Err(_) => {},
        }
        self.set_name(name, id);
        Some(id)
    }
}

/// What a load registers is what the lookups find: once an animation with
/// frames is loaded under `name` as `data`, the name gives its handle, so
/// does the key that the name stands for, and the handle gives `data`.
pub proof fn law_lookup_after_load(before: AnimationManager, after: AnimationManager, name: Seq<char>, data: AnimData)
    requires
        before.anims().len() < u64::MAX,
        after.anims() == before.anims().push(data),
        after.names() == before.names().insert(name, AnimId(before.anims().len() as u64)),
        after.keys() == match parse_key(name) {
            Some(k) => before.keys().insert(k, AnimId(before.anims().len() as u64)),
            None => before.keys(),
        },
    ensures
        after.names().dom().contains(name),
        after.anim(after.names()[name]) == Some(data),
        parse_key(name) is Some ==> after.keys().dom().contains(parse_key(name)->0) && after.keys()[parse_key(
            name,
        )->0] == after.names()[name],
        forall|k: AnimKey| #[trigger] before.keys().dom().contains(k) && parse_key(name) != Some(k) ==> after.keys()[k]
            == before.keys()[k],
{
}


} // verus!
