//! State of the shop window: the offered items and the timers of the "sold"
//! and "purchase failed" animations of each card.
use vstd::prelude::*;
use crate::Micros;
use crate::vfx::sat_sub;

verus! {

/// How long the "sold" animation of a card lasts.
pub const SOLD_ANIM_DURATION: Micros = 1_500_000;

/// How long the "purchase failed" animation of a card lasts.
pub const PURCHASE_FAILED_DURATION: Micros = 1_500_000;

/// A timer after `dt`: a running timer counts down to zero, a stopped one stays.
pub open spec fn tick_timer(t: Micros, dt: Micros) -> Micros {
    if t > 0 {
        sat_sub(t, dt)
    } else {
        t
    }
}

/// Whether the sold timer of card `i` runs out during an update of `dt`.
pub open spec fn sold_ends(sold: Seq<Micros>, i: int, dt: Micros) -> bool {
    0 <= i < sold.len() && sold[i] > 0 && sat_sub(sold[i], dt) == 0
}

/// State of the shop window; `I` is an offered item.
pub struct ShopUiState<I> {
    pub inventory: Option<Vec<Option<I>>>,
    pub error_timer: Vec<Micros>,
    pub sold_timer: Vec<Micros>,
}

impl<I> ShopUiState<I> {
    /// Closed, with no timers.
    pub fn new() -> (s: Self)
        ensures
            s.inventory is None,
            s.error_timer@.len() == 0,
            s.sold_timer@.len() == 0,
    {
        ShopUiState { inventory: None, error_timer: Vec::new(), sold_timer: Vec::new() }
    }

    /// Opens the shop on `inventory`, with one stopped timer of each kind per card.
    pub fn open(&mut self, inventory: Vec<Option<I>>)
        ensures
            final(self).inventory == Some(inventory),
            final(self).error_timer@ == Seq::new(inventory@.len(), |i: int| 0u64),
            final(self).sold_timer@ == Seq::new(inventory@.len(), |i: int| 0u64),
    {
        let n = inventory.len();
        self.error_timer = zeros(n);
        self.sold_timer = zeros(n);
        self.inventory = Some(inventory);
    }

    /// Closes the shop; the timers stay as they are.
    pub fn close(&mut self)
        ensures
            final(self).inventory is None,
            final(self).error_timer@ == old(self).error_timer@,
            final(self).sold_timer@ == old(self).sold_timer@,
    {
        self.inventory = None;
    }

    /// Starts the "sold" animation of card `slot`, if there is such a card.
    pub fn item_bought(&mut self, slot: usize)
        ensures
            final(self).inventory == old(self).inventory,
            final(self).error_timer@ == old(self).error_timer@,
            final(self).sold_timer@ == if slot < old(self).sold_timer@.len() {
                old(self).sold_timer@.update(slot as int, SOLD_ANIM_DURATION)
            } else {
                old(self).sold_timer@
            },
    {
        if slot < self.sold_timer.len() {
            self.sold_timer.set(slot, SOLD_ANIM_DURATION);
        }
    }

    /// Starts the "purchase failed" animation of card `slot`, if there is such a card.
    pub fn purchase_failed(&mut self, slot: usize)
        ensures
            final(self).inventory == old(self).inventory,
            final(self).sold_timer@ == old(self).sold_timer@,
            final(self).error_timer@ == if slot < old(self).error_timer@.len() {
                old(self).error_timer@.update(slot as int, PURCHASE_FAILED_DURATION)
            } else {
                old(self).error_timer@
            },
    {
        if slot < self.error_timer.len() {
            self.error_timer.set(slot, PURCHASE_FAILED_DURATION);
        }
    }

    /// Whether the shop is open.
    pub fn is_open(&self) -> (r: bool)
        ensures
            r == self.inventory is Some,
    {
        self.inventory.is_some()
    }

    /// Runs the timers for `dt`; a card whose "sold" animation ends during this
    /// update is emptied.
    pub fn update(&mut self, dt: Micros)
        ensures
            final(self).error_timer@ == Seq::new(
                old(self).error_timer@.len(),
                |i: int| tick_timer(old(self).error_timer@[i], dt),
            ),
            final(self).sold_timer@ == Seq::new(
                old(self).sold_timer@.len(),
                |i: int| tick_timer(old(self).sold_timer@[i], dt),
            ),
            final(self).inventory is Some <==> old(self).inventory is Some,
            old(self).inventory is Some ==> final(self).inventory->0@ == Seq::new(
                old(self).inventory->0@.len(),
                |i: int|
                    if sold_ends(old(self).sold_timer@, i, dt) {
                        None
                    } else {
                        old(self).inventory->0@[i]
                    },
            ),
    {
        let n = self.error_timer.len();
        let mut i: usize = 0;
        while i < n
            invariant
                n == self.error_timer@.len(),
                n == old(self).error_timer@.len(),
                i <= n,
                self.sold_timer@ == old(self).sold_timer@,
                self.inventory == old(self).inventory,
                forall|j: int|
                    0 <= j < i ==> #[trigger] self.error_timer@[j] == tick_timer(
                        old(self).error_timer@[j],
                        dt,
                    ),
                forall|j: int| i <= j < n ==> #[trigger] self.error_timer@[j] == old(self).error_timer@[j],
            decreases n - i,
        {
            let t = self.error_timer[i];
            if t > 0 {
                let left = if t > dt {
                    t - dt
                } else {
                    0
                };
                self.error_timer.set(i, left);
            }
            i = i + 1;
        }
        let ghost errors = self.error_timer@;
        let m = self.sold_timer.len();
        let mut k: usize = 0;
        while k < m
            invariant
                m == self.sold_timer@.len(),
                m == old(self).sold_timer@.len(),
                k <= m,
                self.error_timer@ == errors,
                self.inventory is Some <==> old(self).inventory is Some,
                forall|j: int|
                    0 <= j < k ==> #[trigger] self.sold_timer@[j] == tick_timer(
                        old(self).sold_timer@[j],
                        dt,
                    ),
                forall|j: int| k <= j < m ==> #[trigger] self.sold_timer@[j] == old(self).sold_timer@[j],
                old(self).inventory is Some ==> self.inventory->0@.len() == old(self).inventory->0@.len(),
                old(self).inventory is Some ==> forall|j: int|
                    0 <= j < self.inventory->0@.len() ==> #[trigger] self.inventory->0@[j] == if j < k
                        && sold_ends(old(self).sold_timer@, j, dt) {
                        None
                    } else {
                        old(self).inventory->0@[j]
                    },
            decreases m - k,
        {
            let t = self.sold_timer[k];
            if t > 0 {
                let left = if t > dt {
                    t - dt
                } else {
                    0
                };
                self.sold_timer.set(k, left);
                if left == 0 {
                    match &mut self.inventory {
                        Some(inv) => {
                            if k < inv.len() {
                                inv.set(k, None);
                            }
                        },
                        None => {},
                    }
                }
            }
            k = k + 1;
        }
        proof {
            assert(self.error_timer@ =~= Seq::new(
                old(self).error_timer@.len(),
                |i: int| tick_timer(old(self).error_timer@[i], dt),
            ));
            assert(self.sold_timer@ =~= Seq::new(
                old(self).sold_timer@.len(),
                |i: int| tick_timer(old(self).sold_timer@[i], dt),
            ));
            if old(self).inventory is Some {
                assert(self.inventory->0@ =~= Seq::new(
                    old(self).inventory->0@.len(),
                    |i: int|
                        if sold_ends(old(self).sold_timer@, i, dt) {
                            None
                        } else {
                            old(self).inventory->0@[i]
                        },
                ));
            }
        }
    }
}

/// `n` zeros.
fn zeros(n: usize) -> (v: Vec<Micros>)
    ensures
        v@ == Seq::new(n as nat, |i: int| 0u64),
{
    let mut v: Vec<Micros> = Vec::new();
    let mut i: usize = 0;
    while i < n
        invariant
            i <= n,
            v@.len() == i,
            forall|j: int| 0 <= j < i ==> #[trigger] v@[j] == 0u64,
        decreases n - i,
    {
        v.push(0);
        i = i + 1;
    }
    proof {
        assert(v@ =~= Seq::new(n as nat, |i: int| 0u64));
    }
    v
}

} // verus!
