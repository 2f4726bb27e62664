//! A fixed-capacity pool of slots, each either active or free.
//!
//! Spawning writes into the first free slot and is silently dropped when every
//! slot is active; releasing only clears the active flag, so a released slot is
//! reused by the next spawn.
use vstd::prelude::*;

verus! {

/// The items of the active slots of `s`, in slot order.
pub open spec fn active_items<T>(s: Seq<(bool, T)>) -> Seq<T>
    decreases s.len(),
{
    if s.len() == 0 {
        Seq::empty()
    } else {
        let rest = active_items(s.drop_last());
        if s.last().0 {
            rest.push(s.last().1)
        } else {
            rest
        }
    }
}

/// The index of the first free slot of `s` at or after `k`, if any.
pub open spec fn first_free_from<T>(s: Seq<(bool, T)>, k: int) -> Option<int>
    decreases s.len() - k,
{
    if k < 0 || k >= s.len() {
        None
    } else if !s[k].0 {
        Some(k)
    } else {
        first_free_from(s, k + 1)
    }
}

/// The index of the first free slot of `s`, if any.
pub open spec fn first_free<T>(s: Seq<(bool, T)>) -> Option<int> {
    first_free_from(s, 0)
}

/// The slots after a spawn of `item` into `s`.
pub open spec fn spawned<T>(s: Seq<(bool, T)>, item: T) -> Seq<(bool, T)> {
    match first_free(s) {
        Some(i) => s.update(i, (true, item)),
        None => s,
    }
}

/// At most one item per slot is active.
pub proof fn lemma_active_items_len<T>(s: Seq<(bool, T)>)
    ensures
        active_items(s).len() <= s.len(),
        active_items(s).len() == s.len() <==> forall|j: int| 0 <= j < s.len() ==> (#[trigger] s[j]).0,
    decreases s.len(),
{
    if s.len() > 0 {
        lemma_active_items_len(s.drop_last());
        if forall|j: int| 0 <= j < s.len() ==> (#[trigger] s[j]).0 {
            assert forall|j: int| 0 <= j < s.drop_last().len() implies (#[trigger] s.drop_last()[j]).0 by {
                assert(s[j].0);
            }
        }
        if active_items(s).len() == s.len() {
            assert forall|j: int| 0 <= j < s.len() implies (#[trigger] s[j]).0 by {
                if j < s.len() - 1 {
                    assert(s.drop_last()[j] == s[j]);
                }
            }
        }
    }
}

proof fn lemma_first_free_from<T>(s: Seq<(bool, T)>, k: int)
    requires
        0 <= k,
    ensures
        match first_free_from(s, k) {
            Some(i) => k <= i < s.len() && !s[i].0 && forall|j: int| k <= j < i ==> (#[trigger] s[j]).0,
            None => forall|j: int| k <= j < s.len() ==> (#[trigger] s[j]).0,
        },
    decreases s.len() - k,
{
    if k < s.len() && s[k].0 {
        lemma_first_free_from(s, k + 1);
    }
}

proof fn lemma_activate_one<T>(s: Seq<(bool, T)>, i: int, item: T)
    requires
        0 <= i < s.len(),
        !s[i].0,
    ensures
        active_items(s.update(i, (true, item))).len() == active_items(s).len() + 1,
    decreases s.len(),
{
    let u = s.update(i, (true, item));
    if i == s.len() - 1 {
        assert(u.drop_last() =~= s.drop_last());
    } else {
        assert(u.drop_last() =~= s.drop_last().update(i, (true, item)));
        lemma_activate_one(s.drop_last(), i, item);
    }
}

/// Spawning adds exactly one active item when a slot is free, and a pool whose
/// slots are all active drops the item and stays as it was.
pub proof fn law_spawn_count<T>(s: Seq<(bool, T)>, item: T)
    ensures
        first_free(s) is None <==> active_items(s).len() == s.len(),
        first_free(s) is None ==> spawned(s, item) == s,
        first_free(s) is Some ==> active_items(spawned(s, item)).len() == active_items(s).len() + 1,
        active_items(spawned(s, item)).len() <= s.len(),
        spawned(s, item).len() == s.len(),
{
    lemma_first_free_from(s, 0);
    lemma_active_items_len(s);
    match first_free(s) {
        Some(i) => {
            lemma_activate_one(s, i, item);
            lemma_active_items_len(s.update(i, (true, item)));
        },
        None => {},
    }
}

/// A spawn lands in a free slot: the first one, which holds the new item and is
/// active afterwards, every other slot being unchanged.
pub proof fn law_spawn_first_free<T>(s: Seq<(bool, T)>, item: T)
    requires
        exists|j: int| 0 <= j < s.len() && !(#[trigger] s[j]).0,
    ensures
        first_free(s) is Some,
        ({
            let i = first_free(s)->0;
            &&& 0 <= i < s.len()
            &&& !s[i].0
            &&& forall|j: int| 0 <= j < i ==> (#[trigger] s[j]).0
            &&& spawned(s, item)[i] == (true, item)
            &&& forall|j: int| 0 <= j < s.len() && j != i ==> #[trigger] spawned(s, item)[j] == s[j]
        }),
{
    lemma_first_free_from(s, 0);
}

/// Fixed-capacity pool of `N` slots.
pub struct Pool<T: Copy, const N: usize> {
    slots: Vec<(bool, T)>,
}

impl<T: Copy, const N: usize> View for Pool<T, N> {
    type V = Seq<(bool, T)>;

    closed spec fn view(&self) -> Seq<(bool, T)> {
        self.slots@
    }
}

impl<T: Copy, const N: usize> Pool<T, N> {
    /// A pool is well formed when it has exactly `N` slots.
    pub open spec fn wf(&self) -> bool {
        self@.len() == N
    }

    /// The items of the active slots, in slot order.
    pub open spec fn active(&self) -> Seq<T> {
        active_items(self@)
    }

    /// A pool with `N` free slots.
    pub fn new() -> (pool: Self) where T: Default
        ensures
            pool.wf(),
            forall|i: int| 0 <= i < N ==> !(#[trigger] pool@[i]).0,
    {
        let filler = T::default();
        let mut slots: Vec<(bool, T)> = Vec::new();
        let mut k: usize = 0;
        while k < N
            invariant
                k <= N,
                slots@.len() == k,
                forall|i: int| 0 <= i < k ==> !(#[trigger] slots@[i]).0,
            decreases N - k,
        {
            slots.push((false, filler));
            k = k + 1;
        }
        Pool { slots }
    }

    /// Number of slots.
    pub fn len(&self) -> (n: usize)
        ensures
            n == self@.len(),
    {
        self.slots.len()
    }

    /// The active flag and the item of slot `i`.
    pub fn slot(&self, i: usize) -> (s: (bool, T))
        requires
            i < self@.len(),
        ensures
            s == self@[i as int],
    {
        self.slots[i]
    }

    /// Replaces the item of slot `i`, keeping its active flag.
    pub fn replace(&mut self, i: usize, item: T)
        requires
            old(self).wf(),
            i < old(self)@.len(),
        ensures
            final(self).wf(),
            final(self)@ == old(self)@.update(i as int, (old(self)@[i as int].0, item)),
    {
        let (active, _) = self.slots[i];
        self.slots.set(i, (active, item));
    }

    /// Writes `item` into the first free slot and marks it active; does nothing
    /// when every slot is active.
    pub fn spawn(&mut self, item: T)
        requires
            old(self).wf(),
        ensures
            final(self).wf(),
            final(self)@ == spawned(old(self)@, item),
    {
        let n = self.slots.len();
        let mut i: usize = 0;
        while i < n
            invariant
                n == self.slots@.len(),
                n == N,
                i <= n,
                self.slots@ == old(self)@,
                first_free(old(self)@) == first_free_from(old(self)@, i as int),
            decreases n - i,
        {
            let (active, _) = self.slots[i];
            if !active {
                self.slots.set(i, (true, item));
                return;
            }
            i = i + 1;
        }
    }

    /// The items of the active slots, in slot order.
    pub fn iter_active(&self) -> (items: Vec<T>)
        ensures
            items@ == self.active(),
    {
        let mut items: Vec<T> = Vec::new();
        let n = self.slots.len();
        let mut i: usize = 0;
        while i < n
            invariant
                n == self.slots@.len(),
                i <= n,
                items@ == active_items(self.slots@.take(i as int)),
            decreases n - i,
        {
            let (active, item) = self.slots[i];
            proof {
                assert(self.slots@.take(i + 1).drop_last() =~= self.slots@.take(i as int));
            }
            if active {
                items.push(item);
            }
            i = i + 1;
        }
        proof {
            assert(self.slots@.take(n as int) =~= self.slots@);
        }
        items
    }

    /// Replaces each active item by `f` applied to it; free slots and the
    /// active flags are left as they were.
    pub fn iter_active_mut<F: Fn(T) -> T>(&mut self, f: F)
        requires
            old(self).wf(),
            forall|i: int|
                0 <= i < old(self)@.len() && (#[trigger] old(self)@[i]).0 ==> call_requires(
                    f,
                    (old(self)@[i].1,),
                ),
        ensures
            final(self).wf(),
            forall|i: int|
                0 <= i < old(self)@.len() ==> (#[trigger] final(self)@[i]).0 == old(self)@[i].0,
            forall|i: int|
                0 <= i < old(self)@.len() && !old(self)@[i].0 ==> #[trigger] final(self)@[i]
                    == old(self)@[i],
            forall|i: int|
                0 <= i < old(self)@.len() && old(self)@[i].0 ==> call_ensures(
                    f,
                    (old(self)@[i].1,),
                    (#[trigger] final(self)@[i]).1,
                ),
    {
        let n = self.slots.len();
        let mut i: usize = 0;
        while i < n
            invariant
                n == self.slots@.len(),
                n == old(self)@.len(),
                i <= n,
                forall|j: int|
                    0 <= j < n && (#[trigger] old(self)@[j]).0 ==> call_requires(
                        f,
                        (old(self)@[j].1,),
                    ),
                forall|j: int| i <= j < n ==> #[trigger] self.slots@[j] == old(self)@[j],
                forall|j: int| 0 <= j < n ==> (#[trigger] self.slots@[j]).0 == old(self)@[j].0,
                forall|j: int|
                    0 <= j < i && !old(self)@[j].0 ==> #[trigger] self.slots@[j] == old(
                        self,
                    )@[j],
                forall|j: int|
                    0 <= j < i && old(self)@[j].0 ==> call_ensures(
                        f,
                        (old(self)@[j].1,),
                        (#[trigger] self.slots@[j]).1,
                    ),
            decreases n - i,
        {
            let (active, item) = self.slots[i];
            if active {
                let updated = f(item);
                self.slots.set(i, (true, updated));
            }
            i = i + 1;
        }
    }

    /// Frees every active slot whose item satisfies `should_release`.
    pub fn release_if<F: Fn(&T) -> bool>(&mut self, should_release: F)
        requires
            old(self).wf(),
            forall|i: int|
                0 <= i < old(self)@.len() && (#[trigger] old(self)@[i]).0 ==> call_requires(
                    should_release,
                    (&old(self)@[i].1,),
                ),
        ensures
            final(self).wf(),
            forall|i: int|
                0 <= i < old(self)@.len() ==> (#[trigger] final(self)@[i]).1 == old(self)@[i].1,
            forall|i: int|
                0 <= i < old(self)@.len() && (#[trigger] final(self)@[i]).0 ==> old(self)@[i].0
                    && call_ensures(should_release, (&old(self)@[i].1,), false),
            forall|i: int|
                0 <= i < old(self)@.len() && old(self)@[i].0 && !(#[trigger] final(self)@[i]).0
                    ==> call_ensures(should_release, (&old(self)@[i].1,), true),
    {
        let n = self.slots.len();
        let mut i: usize = 0;
        while i < n
            invariant
                n == self.slots@.len(),
                n == old(self)@.len(),
                i <= n,
                forall|j: int|
                    0 <= j < n && (#[trigger] old(self)@[j]).0 ==> call_requires(
                        should_release,
                        (&old(self)@[j].1,),
                    ),
                forall|j: int| i <= j < n ==> #[trigger] self.slots@[j] == old(self)@[j],
                forall|j: int| 0 <= j < n ==> (#[trigger] self.slots@[j]).1 == old(self)@[j].1,
                forall|j: int|
                    0 <= j < i && (#[trigger] self.slots@[j]).0 ==> old(self)@[j].0
                        && call_ensures(should_release, (&old(self)@[j].1,), false),
                forall|j: int|
                    0 <= j < i && old(self)@[j].0 && !(#[trigger] self.slots@[j]).0
                        ==> call_ensures(should_release, (&old(self)@[j].1,), true),
            decreases n - i,
        {
            let (active, item) = self.slots[i];
            if active {
                let release = should_release(&item);
                if release {
                    self.slots.set(i, (false, item));
                }
            }
            i = i + 1;
        }
    }
}

} // verus!
