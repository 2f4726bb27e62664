//! The loaded shaders, the shader each render pass uses, and the time the
//! shaders are animated by.
use vstd::prelude::*;
use crate::Micros;
use crate::assoc::{assoc_map, keys_unique, lemma_assoc_at, lemma_assoc_map_empty, lemma_assoc_map_push, lemma_assoc_map_update, lemma_assoc_none};

verus! {

/// A pass of the rendering of a frame.
#[derive(Debug, Clone, Copy, PartialEq, Eq, Structural)]
pub enum PassKind {
    World,
    Vfx,
    Hud,
    PostProcess,
}

/// Handle of a loaded shader.
#[derive(Debug, Clone, Copy, PartialEq, Eq, Structural)]
pub struct ShaderId(pub u64);

/// The loaded shaders `S`, each under the handle it was given; a removed
/// shader leaves its handle unused.
pub struct ShaderManager<S> {
    shaders: Vec<Option<S>>,
    pass_shaders: Vec<(PassKind, ShaderId)>,
    elapsed: Micros,
}

impl<S> ShaderManager<S> {
    /// What each handle given so far holds, by handle.
    pub closed spec fn slots(&self) -> Seq<Option<S>> {
        self.shaders@
    }

    /// The shader handle each pass uses.
    pub closed spec fn passes(&self) -> Map<PassKind, ShaderId> {
        assoc_map(self.pass_shaders@)
    }

    /// The time the shaders have been animated for.
    pub closed spec fn elapsed(&self) -> Micros {
        self.elapsed
    }

    /// Internal consistency: no pass appears twice.
    pub closed spec fn wf(&self) -> bool {
        keys_unique(self.pass_shaders@)
    }

    /// The shader under `id`, if it is loaded.
    pub open spec fn shader(&self, id: ShaderId) -> Option<S> {
        if id.0 < self.slots().len() {
            self.slots()[id.0 as int]
        } else {
            None
        }
    }

    /// The shader pass `pass` uses, if it has one and it is loaded.
    pub open spec fn pass_shader(&self, pass: PassKind) -> Option<S> {
        if self.passes().dom().contains(pass) {
            self.shader(self.passes()[pass])
        } else {
            None
        }
    }

    /// No shader, no pass shader, no time elapsed.
    pub fn new() -> (m: Self)
        ensures
            m.wf(),
            m.slots().len() == 0,
            m.passes() == Map::<PassKind, ShaderId>::empty(),
            m.elapsed() == 0,
    {
        let m = ShaderManager { shaders: Vec::new(), pass_shaders: Vec::new(), elapsed: 0 };
        proof {
            lemma_assoc_map_empty(m.pass_shaders@);
        }
        m
    }

    /// Loads `shader` under the next handle.
    pub fn register(&mut self, shader: S) -> (id: ShaderId)
        requires
            old(self).wf(),
        ensures
            final(self).wf(),
            id.0 == old(self).slots().len(),
            final(self).slots() == old(self).slots().push(Some(shader)),
            final(self).passes() == old(self).passes(),
            final(self).elapsed() == old(self).elapsed(),
    {
        let id = ShaderId(self.shaders.len() as u64);
        self.shaders.push(Some(shader));
        id
    }

    /// Makes pass `pass` use the shader under `id`.
    pub fn set_pass_shader(&mut self, pass: PassKind, id: ShaderId)
        requires
            old(self).wf(),
        ensures
            final(self).wf(),
            final(self).slots() == old(self).slots(),
            final(self).passes() == old(self).passes().insert(pass, id),
            final(self).elapsed() == old(self).elapsed(),
    {
        let n = self.pass_shaders.len();
        let mut i: usize = 0;
        while i < n
            invariant
                n == self.pass_shaders@.len(),
                *self == *old(self),
                old(self).wf(),
                i <= n,
                forall|j: int| 0 <= j < i ==> (#[trigger] self.pass_shaders@[j]).0 != pass,
            decreases n - i,
        {
            if self.pass_shaders[i].0 == pass {
                proof {
                    lemma_assoc_map_update(self.pass_shaders@, i as int, id);
                }
                self.pass_shaders.set(i, (pass, id));
                return;
            }
            i = i + 1;
        }
        proof {
            lemma_assoc_map_push(self.pass_shaders@, pass, id);
        }
        self.pass_shaders.push((pass, id));
    }

    fn pass_id(&self, pass: PassKind) -> (r: Option<ShaderId>)
        requires
            self.wf(),
        ensures
            r == if self.passes().dom().contains(pass) {
                Some(self.passes()[pass])
            } else {
                None::<ShaderId>
            },
    {
        let n = self.pass_shaders.len();
        let mut i: usize = 0;
        while i < n
            invariant
                n == self.pass_shaders@.len(),
                self.wf(),
                i <= n,
                forall|j: int| 0 <= j < i ==> (#[trigger] self.pass_shaders@[j]).0 != pass,
            decreases n - i,
        {
            if self.pass_shaders[i].0 == pass {
                proof {
                    lemma_assoc_at(self.pass_shaders@, i as int);
                }
                return Some(self.pass_shaders[i].1);
            }
            i = i + 1;
        }
        proof {
            lemma_assoc_none(self.pass_shaders@, pass);
        }
        None
    }

    /// The shader under `id`, if it is loaded.
    pub fn get(&self, id: ShaderId) -> (r: Option<&S>)
        ensures
            match r {
                Some(s) => self.shader(id) == Some(*s),
                None => self.shader(id) is None,
            },
    {
        if id.0 < self.shaders.len() as u64 {
            match &self.shaders[id.0 as usize] {
                Some(s) => Some(s),
                None => None,
            }
        } else {
            None
        }
    }

    /// The shader under `id`, if it is loaded, to be changed in place.
    pub fn get_mut(&mut self, id: ShaderId) -> (r: Option<&mut S>)
        requires
            old(self).wf(),
        ensures
            final(self).wf(),
            final(self).passes() == old(self).passes(),
            final(self).elapsed() == old(self).elapsed(),
            match r {
                Some(s) => old(self).shader(id) == Some(*s) && final(self).slots() == old(self).slots().update(
                    id.0 as int,
                    Some(*final(s)),
                ),
                None => old(self).shader(id) is None && final(self).slots() == old(self).slots(),
            },
    {
        if id.0 < self.shaders.len() as u64 {
            self.shaders[id.0 as usize].as_mut()
        } else {
            None
        }
    }

    /// The shader pass `pass` uses, if it has one and it is loaded.
    pub fn get_pass_shader(&self, pass: PassKind) -> (r: Option<&S>)
        requires
            self.wf(),
        ensures
            match r {
                Some(s) => self.pass_shader(pass) == Some(*s),
                None => self.pass_shader(pass) is None,
            },
    {
        match self.pass_id(pass) {
            Some(id) => self.get(id),
            None => None,
        }
    }

    /// The shader pass `pass` uses, if it has one and it is loaded, to be
    /// changed in place.
    pub fn get_pass_shader_mut(&mut self, pass: PassKind) -> (r: Option<&mut S>)
        requires
            old(self).wf(),
        ensures
            final(self).wf(),
            final(self).passes() == old(self).passes(),
            final(self).elapsed() == old(self).elapsed(),
            match r {
                Some(s) => old(self).pass_shader(pass) == Some(*s) && final(self).slots() == old(self).slots().update(
                    old(self).passes()[pass].0 as int,
                    Some(*final(s)),
                ),
                None => old(self).pass_shader(pass) is None && final(self).slots() == old(self).slots(),
            },
    {
        match self.pass_id(pass) {
            Some(id) => self.get_mut(id),
            None => None,
        }
    }

    /// Unloads the shader under `id` and gives it back, if it was loaded.
    pub fn remove(&mut self, id: ShaderId) -> (r: Option<S>)
        requires
            old(self).wf(),
        ensures
            final(self).wf(),
            r == old(self).shader(id),
            final(self).slots() == if id.0 < old(self).slots().len() {
                old(self).slots().update(id.0 as int, None)
            } else {
                old(self).slots()
            },
            final(self).passes() == old(self).passes(),
            final(self).elapsed() == old(self).elapsed(),
    {
        if id.0 < self.shaders.len() as u64 {
            let mut out: Option<S> = None;
            std::mem::swap(&mut out, &mut self.shaders[id.0 as usize]);
            out
        } else {
            None
        }
    }

    /// Replaces the shader under `id`, if it is loaded, by `new_shader`.
    pub fn swap_shader(&mut self, id: ShaderId, new_shader: S)
        requires
            old(self).wf(),
        ensures
            final(self).wf(),
            final(self).slots() == if old(self).shader(id) is Some {
                old(self).slots().update(id.0 as int, Some(new_shader))
            } else {
                old(self).slots()
            },
            final(self).passes() == old(self).passes(),
            final(self).elapsed() == old(self).elapsed(),
    {
        if let Some(slot) = self.get_mut(id) {
            *slot = new_shader;
        }
    }

    /// Advances the animation time of the shaders by `dt` and gives the new
    /// time, capped at the largest representable duration.
    pub fn update_globals(&mut self, dt: Micros) -> (t: Micros)
        ensures
            t == final(self).elapsed(),
            t == if old(self).elapsed() + dt > u64::MAX {
                u64::MAX
            } else {
                (old(self).elapsed() + dt) as u64
            },
            final(self).slots() == old(self).slots(),
            final(self).passes() == old(self).passes(),
            final(self).wf() == old(self).wf(),
    {
        self.elapsed = if self.elapsed > u64::MAX - dt {
            u64::MAX
        } else {
            self.elapsed + dt
        };
        self.elapsed
    }
}

/// What a pass is set to use is what it finds: after pass `pass` is set to
/// the shader under `id`, the pass uses exactly what `id` holds, and every
/// other pass is unchanged.
pub proof fn law_pass_shader_set<S>(before: ShaderManager<S>, after: ShaderManager<S>, pass: PassKind, id: ShaderId)
    requires
        after.slots() == before.slots(),
        after.passes() == before.passes().insert(pass, id),
    ensures
        after.pass_shader(pass) == before.shader(id),
        forall|other: PassKind| other != pass ==> #[trigger] after.pass_shader(other) == before.pass_shader(other),
{
}

} // verus!
