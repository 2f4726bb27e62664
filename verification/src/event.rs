//! Game events sent by the server and how the client state reacts to them.
use vstd::prelude::*;
use crate::Micros;
use crate::debug_state::{DebugState, ATTACK_BOX_LIFETIME, DebugRectState, aged_boxes};
use crate::game_phase::GamePhase;
use crate::shop_state::{ShopUiState, SOLD_ANIM_DURATION, PURCHASE_FAILED_DURATION, tick_timer, sold_ends};
use crate::ui_state::{UiState, SpectatorMode, SharedLivesDisplay, tick_respawn};

verus! {

/// Kind of a game event; `I` is a shop item, `R` the geometry of an attack
/// box and `Pt` a position.
pub enum GameEventKind<I, R, Pt> {
    ShopOpened { inventory: Vec<Option<I>> },
    WaveEnd { time_between_wave: Micros },
    WaveStart,
    BossSpawn,
    PlayerDied,
    ItemBought { slot: u8 },
    PurchaseFailed { slot: u8 },
    SpawnRect { rect: R },
    EntityHit { pos: Pt },
    DebugCollider { pos: Pt },
    SharedLivesUpdate { remaining: u32, max: u32 },
    RespawnScheduled { delay: Micros },
    GameOver,
    PlayerHit,
    PlayerSpawn { client_id: u64, entity_id: u64 },
    RequestRespawn,
    RespawnError,
    RespawnPlayer,
    RespawnAccept,
}

/// A game event.
pub struct GameEvent<I, R, Pt> {
    pub kind: GameEventKind<I, R, Pt>,
}

/// The ids of the local player.
#[derive(Debug, Clone, Copy, PartialEq, Eq, Structural)]
pub struct LocalId {
    pub entity_id: u64,
    pub client_id: u64,
}

impl Default for LocalId {
    fn default() -> (r: Self)
        ensures
            r == (LocalId { entity_id: 0, client_id: 0 }),
    {
        LocalId { entity_id: 0, client_id: 0 }
    }
}

/// Everything the client tracks about the running game.
pub struct ClientState<I, R, Pt> {
    pub phase: GamePhase,
    pub shop_ui: ShopUiState<I>,
    pub debug: DebugState<R, Pt>,
    pub ui_state: UiState,
    pub local_id: LocalId,
}

/// `s` is the shop opened on `inventory`.
pub open spec fn shop_opened<I>(s: ShopUiState<I>, inventory: Vec<Option<I>>) -> bool {
    &&& s.inventory == Some(inventory)
    &&& s.error_timer@ == Seq::new(inventory@.len(), |i: int| 0u64)
    &&& s.sold_timer@ == Seq::new(inventory@.len(), |i: int| 0u64)
}

/// `s` is `o` closed.
pub open spec fn shop_closed<I>(s: ShopUiState<I>, o: ShopUiState<I>) -> bool {
    &&& s.inventory is None
    &&& s.error_timer@ == o.error_timer@
    &&& s.sold_timer@ == o.sold_timer@
}

/// `s` is `o` after the "sold" animation of card `slot` was started.
pub open spec fn shop_sold<I>(s: ShopUiState<I>, o: ShopUiState<I>, slot: int) -> bool {
    &&& s.inventory == o.inventory
    &&& s.error_timer@ == o.error_timer@
    &&& s.sold_timer@ == if 0 <= slot < o.sold_timer@.len() {
        o.sold_timer@.update(slot, SOLD_ANIM_DURATION)
    } else {
        o.sold_timer@
    }
}

/// `s` is `o` after the "purchase failed" animation of card `slot` was started.
pub open spec fn shop_failed<I>(s: ShopUiState<I>, o: ShopUiState<I>, slot: int) -> bool {
    &&& s.inventory == o.inventory
    &&& s.sold_timer@ == o.sold_timer@
    &&& s.error_timer@ == if 0 <= slot < o.error_timer@.len() {
        o.error_timer@.update(slot, PURCHASE_FAILED_DURATION)
    } else {
        o.error_timer@
    }
}

/// `d` is `o` with its attack boxes, colliders, hit position and flag as given.
pub open spec fn debug_is<R, Pt>(
    d: DebugState<R, Pt>,
    o: DebugState<R, Pt>,
    boxes: Seq<DebugRectState<R>>,
    colliders: Seq<Pt>,
    hit: Pt,
    cleared: bool,
) -> bool {
    &&& d.attack_box@ == boxes
    &&& d.collider@ == colliders
    &&& d.hit_pos_anim == hit
    &&& d.mode == o.mode
    &&& d.cleared == cleared
}

/// The colliders after a collider event at `pos`, for `handle_event`: the old
/// ones are dropped on the first collider since the flag was reset, then the
/// collider is recorded twice.
pub open spec fn colliders_after<R, Pt>(o: DebugState<R, Pt>, pos: Pt) -> Seq<Pt> {
    let base = if o.cleared {
        o.collider@
    } else {
        Seq::empty()
    };
    base.push(pos).push(pos)
}

/// How `handle_event` changes the client state: `n` is `o` after `kind`.
pub open spec fn event_applied<I, R, Pt>(
    o: ClientState<I, R, Pt>,
    n: ClientState<I, R, Pt>,
    kind: GameEventKind<I, R, Pt>,
) -> bool {
    match kind {
        GameEventKind::ShopOpened { inventory } => n.phase == o.phase && shop_opened(n.shop_ui, inventory)
            && n.debug == o.debug && n.ui_state == o.ui_state && n.local_id == o.local_id,
        GameEventKind::WaveEnd { time_between_wave } => n.phase == (GamePhase::BetweenWave {
            time_remaining: time_between_wave,
            shop_available: true,
        }) && n.shop_ui == o.shop_ui && n.debug == o.debug && n.ui_state == o.ui_state
            && n.local_id == o.local_id,
        GameEventKind::WaveStart => n.phase == GamePhase::Wave && shop_closed(n.shop_ui, o.shop_ui)
            && n.debug == o.debug && n.ui_state == o.ui_state && n.local_id == o.local_id,
        GameEventKind::PlayerDied => n.phase == GamePhase::Dead && n.shop_ui == o.shop_ui
            && n.debug == o.debug && n.ui_state == (UiState {
            spectator_mode: Some(SpectatorMode::Free),
            ..o.ui_state
        }) && n.local_id == o.local_id,
        GameEventKind::ItemBought { slot } => n.phase == o.phase && shop_sold(
            n.shop_ui,
            o.shop_ui,
            slot as int,
        ) && n.debug == o.debug && n.ui_state == o.ui_state && n.local_id == o.local_id,
        GameEventKind::PurchaseFailed { slot } => n.phase == o.phase && shop_failed(
            n.shop_ui,
            o.shop_ui,
            slot as int,
        ) && n.debug == o.debug && n.ui_state == o.ui_state && n.local_id == o.local_id,
        GameEventKind::SpawnRect { rect } => n.phase == o.phase && n.shop_ui == o.shop_ui
            && debug_is(
            n.debug,
            o.debug,
            o.debug.attack_box@.push(DebugRectState { geom: rect, lifetime: ATTACK_BOX_LIFETIME }),
            o.debug.collider@,
            o.debug.hit_pos_anim,
            o.debug.cleared,
        ) && n.ui_state == o.ui_state && n.local_id == o.local_id,
        GameEventKind::EntityHit { pos } => n.phase == o.phase && n.shop_ui == o.shop_ui && debug_is(
            n.debug,
            o.debug,
            o.debug.attack_box@,
            o.debug.collider@,
            pos,
            o.debug.cleared,
        ) && n.ui_state == o.ui_state && n.local_id == o.local_id,
        GameEventKind::DebugCollider { pos } => n.phase == o.phase && n.shop_ui == o.shop_ui
            && debug_is(
            n.debug,
            o.debug,
            o.debug.attack_box@,
            colliders_after(o.debug, pos),
            o.debug.hit_pos_anim,
            true,
        ) && n.ui_state == o.ui_state && n.local_id == o.local_id,
        GameEventKind::SharedLivesUpdate { remaining, max } => n.phase == o.phase && n.shop_ui
            == o.shop_ui && n.debug == o.debug && n.ui_state == (UiState {
            shared_lives: SharedLivesDisplay { current: remaining, max },
            ..o.ui_state
        }) && n.local_id == o.local_id,
        GameEventKind::RespawnScheduled { delay } => n.phase == o.phase && n.shop_ui == o.shop_ui
            && n.debug == o.debug && n.ui_state == (UiState {
            respawn_timer: Some(delay),
            ..o.ui_state
        }) && n.local_id == o.local_id,
        GameEventKind::PlayerSpawn { client_id, entity_id } => n.phase == o.phase && n.shop_ui
            == o.shop_ui && n.debug == o.debug && n.ui_state == o.ui_state && n.local_id == (LocalId {
            entity_id,
            client_id,
        }),
        GameEventKind::RespawnError => n.phase == GamePhase::Dead && n.shop_ui == o.shop_ui
            && n.debug == o.debug && n.ui_state == o.ui_state && n.local_id == o.local_id,
        GameEventKind::RespawnAccept => n.phase == GamePhase::Wave && n.shop_ui == o.shop_ui
            && n.debug == o.debug && n.ui_state == o.ui_state && n.local_id == o.local_id,
        _ => n.phase == o.phase && n.shop_ui == o.shop_ui && n.debug == o.debug && n.ui_state
            == o.ui_state && n.local_id == o.local_id,
    }
}

/// Applies a game event to the client state.
pub fn handle_event<I, R: Copy, Pt: Copy>(
    event: GameEvent<I, R, Pt>,
    state: &mut ClientState<I, R, Pt>,
)
    ensures
        event_applied(*old(state), *final(state), event.kind),
{
    match event.kind {
        GameEventKind::ShopOpened { inventory } => {
            state.shop_ui.open(inventory);
        },
        GameEventKind::WaveEnd { time_between_wave } => {
            state.phase = GamePhase::BetweenWave {
                time_remaining: time_between_wave,
                shop_available: true,
            };
        },
        GameEventKind::WaveStart => {
            state.phase = GamePhase::Wave;
            state.shop_ui.close();
        },
        GameEventKind::BossSpawn => {},
        GameEventKind::PlayerDied => {
            state.phase = GamePhase::Dead;
            state.ui_state.spectator_mode = Some(SpectatorMode::Free);
        },
        GameEventKind::ItemBought { slot } => {
            state.shop_ui.item_bought(slot as usize);
        },
        GameEventKind::PurchaseFailed { slot } => {
            state.shop_ui.purchase_failed(slot as usize);
        },
        GameEventKind::SpawnRect { rect } => {
            state.debug.add_rect(rect);
        },
        GameEventKind::EntityHit { pos } => {
            state.debug.set_hit_anim(pos);
        },
        GameEventKind::DebugCollider { pos } => {
            if !state.debug.cleared {
                state.debug.collider.clear();
                state.debug.cleared = true;
            }
            state.debug.add_collider(pos);
        },
        GameEventKind::SharedLivesUpdate { remaining, max } => {
            state.ui_state.shared_lives.current = remaining;
            state.ui_state.shared_lives.max = max;
        },
        GameEventKind::RespawnScheduled { delay } => {
            state.ui_state.respawn_timer = Some(delay);
        },
        GameEventKind::GameOver => {},
        GameEventKind::PlayerHit => {},
        GameEventKind::PlayerSpawn { client_id, entity_id } => {
            state.local_id.entity_id = entity_id;
            state.local_id.client_id = client_id;
        },
        GameEventKind::RequestRespawn => {},
        GameEventKind::RespawnError => {
            state.phase = GamePhase::Dead;
        },
        GameEventKind::RespawnPlayer => {},
        GameEventKind::RespawnAccept => {
            state.phase = GamePhase::Wave;
        },
    }
}

/// How `ClientState::handle_event` changes the client state: as
/// `handle_event` for the shop, the waves and the debug boxes, but a death only
/// sets the phase, a collider is recorded once, and the events about lives,
/// respawns and the local ids are ignored.
pub open spec fn event_applied_to_session<I, R, Pt>(
    o: ClientState<I, R, Pt>,
    n: ClientState<I, R, Pt>,
    kind: GameEventKind<I, R, Pt>,
) -> bool {
    match kind {
        GameEventKind::PlayerDied => n.phase == GamePhase::Dead && n.shop_ui == o.shop_ui
            && n.debug == o.debug && n.ui_state == o.ui_state && n.local_id == o.local_id,
        GameEventKind::DebugCollider { pos } => n.phase == o.phase && n.shop_ui == o.shop_ui
            && debug_is(
            n.debug,
            o.debug,
            o.debug.attack_box@,
            (if o.debug.cleared {
                o.debug.collider@
            } else {
                Seq::empty()
            }).push(pos),
            o.debug.hit_pos_anim,
            true,
        ) && n.ui_state == o.ui_state && n.local_id == o.local_id,
        GameEventKind::SharedLivesUpdate { .. } | GameEventKind::RespawnScheduled { .. }
        | GameEventKind::PlayerSpawn { .. } | GameEventKind::RespawnError
        | GameEventKind::RespawnAccept => n.phase == o.phase && n.shop_ui == o.shop_ui && n.debug
            == o.debug && n.ui_state == o.ui_state && n.local_id == o.local_id,
        _ => event_applied(o, n, kind),
    }
}

/// How the timers move over `dt`.
pub open spec fn timers_ran<I, R, Pt>(
    o: ClientState<I, R, Pt>,
    n: ClientState<I, R, Pt>,
    dt: Micros,
) -> bool {
    &&& n.phase == o.phase.ticked(dt)
    &&& n.shop_ui.error_timer@ == Seq::new(
        o.shop_ui.error_timer@.len(),
        |i: int| tick_timer(o.shop_ui.error_timer@[i], dt),
    )
    &&& n.shop_ui.sold_timer@ == Seq::new(
        o.shop_ui.sold_timer@.len(),
        |i: int| tick_timer(o.shop_ui.sold_timer@[i], dt),
    )
    &&& (n.shop_ui.inventory is Some <==> o.shop_ui.inventory is Some)
    &&& o.shop_ui.inventory is Some ==> n.shop_ui.inventory->0@ == Seq::new(
        o.shop_ui.inventory->0@.len(),
        |i: int|
            if sold_ends(o.shop_ui.sold_timer@, i, dt) {
                None
            } else {
                o.shop_ui.inventory->0@[i]
            },
    )
    &&& debug_is(
        n.debug,
        o.debug,
        aged_boxes(o.debug.attack_box@, dt),
        o.debug.collider@,
        o.debug.hit_pos_anim,
        o.debug.cleared,
    )
    &&& n.local_id == o.local_id
}

impl<I, R: Copy, Pt: Copy> ClientState<I, R, Pt> {
    /// Start of a session: phase Wave, shop closed, no debug data.
    pub fn new() -> (s: Self) where Pt: Default
        ensures
            s.phase == GamePhase::Wave,
            s.shop_ui.inventory is None,
            s.shop_ui.error_timer@.len() == 0,
            s.shop_ui.sold_timer@.len() == 0,
            s.debug.attack_box@.len() == 0,
            s.debug.collider@.len() == 0,
            !s.debug.cleared,
            s.ui_state.respawn_timer is None,
            s.ui_state.spectator_mode is None,
            s.local_id == (LocalId { entity_id: 0, client_id: 0 }),
    {
        ClientState {
            phase: GamePhase::Wave,
            shop_ui: ShopUiState::new(),
            debug: DebugState::new(),
            ui_state: UiState::default(),
            local_id: LocalId::default(),
        }
    }

    /// Applies a game event to the state of the session.
    pub fn handle_event(&mut self, event: GameEvent<I, R, Pt>)
        ensures
            event_applied_to_session(*old(self), *final(self), event.kind),
    {
        match event.kind {
            GameEventKind::PlayerDied => {
                self.phase = GamePhase::Dead;
            },
            GameEventKind::DebugCollider { pos } => {
                if !self.debug.cleared {
                    self.debug.collider.clear();
                    self.debug.cleared = true;
                }
                self.debug.collider.push(pos);
            },
            GameEventKind::SharedLivesUpdate { .. } => {},
            GameEventKind::RespawnScheduled { .. } => {},
            GameEventKind::PlayerSpawn { .. } => {},
            GameEventKind::RespawnError => {},
            GameEventKind::RespawnAccept => {},
            kind => {
                handle_event(GameEvent { kind }, self);
            },
        }
    }

    /// Runs the shop timers, the countdown between waves and the debug boxes.
    pub fn update_timers(&mut self, dt: Micros)
        ensures
            timers_ran(*old(self), *final(self), dt),
            final(self).ui_state == old(self).ui_state,
    {
        self.shop_ui.update(dt);
        self.phase.update(dt);
        self.debug.update(dt);
    }

    /// Closes the shop.
    pub fn close_shop(&mut self)
        ensures
            shop_closed(final(self).shop_ui, old(self).shop_ui),
            final(self).phase == old(self).phase,
            final(self).debug == old(self).debug,
            final(self).ui_state == old(self).ui_state,
            final(self).local_id == old(self).local_id,
    {
        self.shop_ui.close();
    }
}

/// Runs every timer of the client state by `dt`, the respawn countdown included.
pub fn update_state_timer<I, R: Copy, Pt: Copy>(state: &mut ClientState<I, R, Pt>, dt: Micros)
    ensures
        timers_ran(*old(state), *final(state), dt),
        final(state).ui_state.respawn_timer == tick_respawn(old(state).ui_state.respawn_timer, dt),
        final(state).ui_state.shared_lives == old(state).ui_state.shared_lives,
        final(state).ui_state.spectator_mode == old(state).ui_state.spectator_mode,
{
    state.debug.update(dt);
    state.shop_ui.update(dt);
    state.phase.update(dt);
    state.ui_state.update(dt);
}

/// The shop can be shown right after a wave ends, and a new wave closes it and
/// takes that possibility away.
pub proof fn law_wave_cycle<I, R, Pt>(
    o: ClientState<I, R, Pt>,
    n: ClientState<I, R, Pt>,
    m: ClientState<I, R, Pt>,
    t: Micros,
)
    requires
        event_applied(o, n, GameEventKind::WaveEnd { time_between_wave: t }),
        event_applied(n, m, GameEventKind::WaveStart),
    ensures
        n.phase.spec_can_show_shop(),
        !m.phase.spec_can_show_shop(),
        m.shop_ui.inventory is None,
{
}

/// The shop holds what it was opened on, and a purchase or a failed purchase
/// on a card that does not exist changes nothing.
pub proof fn law_shop_slots<I, R, Pt>(
    o: ClientState<I, R, Pt>,
    n: ClientState<I, R, Pt>,
    slot: u8,
)
    requires
        event_applied(o, n, GameEventKind::ItemBought { slot }) || event_applied(
            o,
            n,
            GameEventKind::PurchaseFailed { slot },
        ),
        slot as int >= o.shop_ui.sold_timer@.len(),
        slot as int >= o.shop_ui.error_timer@.len(),
    ensures
        n.shop_ui.sold_timer@ == o.shop_ui.sold_timer@,
        n.shop_ui.error_timer@ == o.shop_ui.error_timer@,
        n.shop_ui.inventory == o.shop_ui.inventory,
        n.phase == o.phase,
{
}

} // verus!
