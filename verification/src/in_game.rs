//! Pieces of the in-game scene: the local client id, the HUD text buffers,
//! the network tick clock and the clicks on the shop cards.
use vstd::prelude::*;
use crate::Micros;
use crate::game_phase::GamePhase;
use crate::input::{ShopAction, ShopActionKind};
use crate::vfx::sat_sub;

verus! {

/// Id of this client on the server.
#[derive(Debug, Clone, Copy, PartialEq, Eq, Structural)]
pub struct ClientId(pub u64);

/// `String::with_capacity` (std): its documentation promises an empty string
/// with room reserved; the contract claims that the string is empty. The
/// capacity is left unsaid, as vstd models no capacity of a `String`.
pub assume_specification[ String::with_capacity ](capacity: usize) -> (s: String)
    requires
        capacity <= isize::MAX,
    ensures
        s@ == Seq::<char>::empty(),
;

/// Text shown by the HUD.
pub struct HudBuffers {
    pub hp: String,
    pub gold: String,
    pub wave: String,
}

impl HudBuffers {
    /// Empty buffers.
    pub fn new() -> (b: Self)
        ensures
            b.hp@.len() == 0,
            b.gold@.len() == 0,
            b.wave@.len() == 0,
    {
        HudBuffers { hp: String::with_capacity(16), gold: String::with_capacity(16), wave: String::with_capacity(32) }
    }
}

/// Time between two inputs sent to the server (20 per second).
pub const TICK_DURATION: Micros = 50_000;

/// Clock of the inputs sent to the server.
#[derive(Debug, Clone, Copy, PartialEq, Eq, Structural)]
pub struct Ticks {
    /// When the last tick happened.
    pub last_tick: Micros,
    /// Id of the next tick.
    pub tick_id: u64,
}

impl Ticks {
    /// A clock whose first tick is due `TICK_DURATION` after `now`.
    pub fn new(now: Micros) -> (t: Self)
        ensures
            t == (Ticks { last_tick: now, tick_id: 0 }),
    {
        Ticks { last_tick: now, tick_id: 0 }
    }

    /// At time `now`, whether a tick is due; if so, the clock restarts at `now`,
    /// the id of this tick is returned and the next id is one more.
    pub fn advance(&mut self, now: Micros) -> (tick: Option<u64>)
        requires
            old(self).tick_id < u64::MAX,
        ensures
            sat_sub(now, old(self).last_tick) >= TICK_DURATION ==> {
                &&& tick == Some(old(self).tick_id)
                &&& final(self).last_tick == now
                &&& final(self).tick_id == old(self).tick_id + 1
            },
            sat_sub(now, old(self).last_tick) < TICK_DURATION ==> tick is None && *final(self)
                == *old(self),
    {
        let elapsed = if now > self.last_tick {
            now - self.last_tick
        } else {
            0
        };
        if elapsed >= TICK_DURATION {
            let id = self.tick_id;
            self.last_tick = now;
            self.tick_id = self.tick_id + 1;
            Some(id)
        } else {
            None
        }
    }
}

/// The two last snapshots received from the server, `S` being a snapshot,
/// and when the last one came.
pub struct Snapshots<S> {
    pub prev_snapshot: Option<S>,
    pub last_snapshot: Option<S>,
    pub last_snap_time: Micros,
}

impl<S> Snapshots<S> {
    /// No snapshot yet, the clock starting at `now`.
    pub fn new(now: Micros) -> (s: Self)
        ensures
            s.prev_snapshot is None,
            s.last_snapshot is None,
            s.last_snap_time == now,
    {
        Snapshots { prev_snapshot: None, last_snapshot: None, last_snap_time: now }
    }

    /// Snapshot `snap` came at `now`: the last one becomes the previous one.
    pub fn receive(&mut self, snap: S, now: Micros)
        ensures
            final(self).prev_snapshot == old(self).last_snapshot,
            final(self).last_snapshot == Some(snap),
            final(self).last_snap_time == now,
    {
        self.prev_snapshot = self.last_snapshot.take();
        self.last_snapshot = Some(snap);
        self.last_snap_time = now;
    }

    /// How far, at `now`, the display is from the previous snapshot to the
    /// last one, as a share of `TICK_DURATION`: the time since the last
    /// snapshot, at most `TICK_DURATION`.
    pub fn interpolation_elapsed(&self, now: Micros) -> (e: Micros)
        ensures
            e == if sat_sub(now, self.last_snap_time) < TICK_DURATION {
                sat_sub(now, self.last_snap_time)
            } else {
                TICK_DURATION
            },
    {
        let elapsed = if now > self.last_snap_time {
            now - self.last_snap_time
        } else {
            0
        };
        if elapsed < TICK_DURATION {
            elapsed
        } else {
            TICK_DURATION
        }
    }
}

/// Whether the point (`mx`, `my`) hits the card whose left edge is `card_x`,
/// with the comparisons the shop makes: the vertical position is checked
/// against the card's left edge and against its top and bottom, the
/// horizontal one against its right edge.
pub open spec fn hits_card(mx: i32, my: i32, card_x: i32, card_y: i32, card_w: i32, card_h: i32) -> bool {
    &&& my >= card_x
    &&& mx <= card_x + card_w
    &&& my >= card_y
    &&& my <= card_y + card_h
}

/// The buy request of a click on the shop: when the shop can be shown and the
/// left button is down, the first card (in slot order) that the mouse hits is
/// bought.
pub fn shop_click(
    phase: &GamePhase,
    left_pressed: bool,
    mx: i32,
    my: i32,
    card_xs: [i32; 3],
    card_y: i32,
    card_w: i32,
    card_h: i32,
) -> (r: Option<ShopAction>)
    ensures
        !(phase.spec_can_show_shop() && left_pressed) ==> r is None,
        phase.spec_can_show_shop() && left_pressed ==> match r {
            Some(a) => {
                &&& a.kind == ShopActionKind::Buy
                &&& a.slot < 3
                &&& hits_card(mx, my, card_xs@[a.slot as int], card_y, card_w, card_h)
                &&& forall|j: int|
                    0 <= j < a.slot ==> !hits_card(mx, my, #[trigger] card_xs@[j], card_y, card_w, card_h)
            },
            None => forall|j: int|
                0 <= j < 3 ==> !hits_card(mx, my, #[trigger] card_xs@[j], card_y, card_w, card_h),
        },
{
    if !(phase.can_show_shop() && left_pressed) {
        return None;
    }
    let mut i: usize = 0;
    while i < 3
        invariant
            i <= 3,
            phase.spec_can_show_shop() && left_pressed,
            forall|j: int|
                0 <= j < i ==> !hits_card(mx, my, #[trigger] card_xs@[j], card_y, card_w, card_h),
        decreases 3 - i,
    {
        let card_x = card_xs[i];
        let right = card_x as i64 + card_w as i64;
        let bottom = card_y as i64 + card_h as i64;
        if my >= card_x && (mx as i64) <= right && my >= card_y && (my as i64) <= bottom {
            return Some(ShopAction { kind: ShopActionKind::Buy, slot: i as u8 });
        }
        i = i + 1;
    }
    None
}

/// A click buys a card only when the cursor lies between the card's top and
/// bottom edges and not right of its right edge (the vertical position is also
/// held against the card's left edge, as the shop does); and any such click
/// hits the card.
pub proof fn law_click_within_card(mx: i32, my: i32, card_x: i32, card_y: i32, card_w: i32, card_h: i32)
    ensures
        hits_card(mx, my, card_x, card_y, card_w, card_h) ==> card_y <= my && my <= card_y + card_h,
        hits_card(mx, my, card_x, card_y, card_w, card_h) ==> mx <= card_x + card_w,
        my > card_y + card_h ==> !hits_card(mx, my, card_x, card_y, card_w, card_h),
        my < card_y ==> !hits_card(mx, my, card_x, card_y, card_w, card_h),
        mx > card_x + card_w ==> !hits_card(mx, my, card_x, card_y, card_w, card_h),
        card_y <= my <= card_y + card_h && mx <= card_x + card_w && my >= card_x ==> hits_card(
            mx,
            my,
            card_x,
            card_y,
            card_w,
            card_h,
        ),
{
}

} // verus!
