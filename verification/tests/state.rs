use client::debug_state::{DebugMode, DebugState, ATTACK_BOX_LIFETIME};
use client::event::{handle_event, update_state_timer, ClientState, GameEvent, GameEventKind, LocalId};
use client::game_phase::GamePhase;
use client::shop_state::{ShopUiState, PURCHASE_FAILED_DURATION, SOLD_ANIM_DURATION};
use client::ui_state::{SharedLivesDisplay, SpectatorMode, UiState};

type Rect = (f32, f32, f32, f32);
type Pos = (f32, f32);
type State = ClientState<u32, Rect, Pos>;

fn ev(kind: GameEventKind<u32, Rect, Pos>) -> GameEvent<u32, Rect, Pos> {
    GameEvent { kind }
}

// Game phase

#[test]
fn phase_default_is_wave() {
    assert!(matches!(GamePhase::default(), GamePhase::Wave));
}

#[test]
fn shop_shown_only_between_waves_when_available() {
    assert!(GamePhase::BetweenWave { time_remaining: 5, shop_available: true }.can_show_shop());
    assert!(!GamePhase::BetweenWave { time_remaining: 5, shop_available: false }.can_show_shop());
    assert!(!GamePhase::Wave.can_show_shop());
    assert!(!GamePhase::Dead.can_show_shop());
    assert!(!GamePhase::Respawning.can_show_shop());
    assert!(!GamePhase::GameOver.can_show_shop());
}

#[test]
fn phase_countdown_stops_at_zero() {
    let mut p = GamePhase::BetweenWave { time_remaining: 3_000_000, shop_available: true };
    p.update(1_000_000);
    assert!(matches!(p, GamePhase::BetweenWave { time_remaining: 2_000_000, shop_available: true }));
    p.update(5_000_000);
    assert!(matches!(p, GamePhase::BetweenWave { time_remaining: 0, shop_available: true }));
    let mut w = GamePhase::Wave;
    w.update(1_000_000);
    assert!(matches!(w, GamePhase::Wave));
}

// Shop state

#[test]
fn shop_opens_with_stopped_timers_and_closes() {
    let mut s: ShopUiState<u32> = ShopUiState::new();
    assert!(!s.is_open());
    s.open(vec![Some(1), None, Some(3)]);
    assert!(s.is_open());
    assert_eq!(s.error_timer, vec![0, 0, 0]);
    assert_eq!(s.sold_timer, vec![0, 0, 0]);
    s.close();
    assert!(!s.is_open());
}

#[test]
fn sold_card_is_emptied_when_its_animation_ends() {
    let mut s: ShopUiState<u32> = ShopUiState::new();
    s.open(vec![Some(1), Some(2), Some(3)]);
    s.item_bought(1);
    assert_eq!(s.sold_timer, vec![0, SOLD_ANIM_DURATION, 0]);
    s.update(1_000_000);
    assert_eq!(s.sold_timer, vec![0, 500_000, 0]);
    assert_eq!(s.inventory, Some(vec![Some(1), Some(2), Some(3)]));
    s.update(500_000);
    assert_eq!(s.sold_timer, vec![0, 0, 0]);
    assert_eq!(s.inventory, Some(vec![Some(1), None, Some(3)]));
}

#[test]
fn purchase_failed_starts_error_timer_only_for_existing_card() {
    let mut s: ShopUiState<u32> = ShopUiState::new();
    s.open(vec![Some(1), Some(2)]);
    s.purchase_failed(0);
    assert_eq!(s.error_timer, vec![PURCHASE_FAILED_DURATION, 0]);
    s.purchase_failed(5);
    s.item_bought(5);
    assert_eq!(s.error_timer, vec![PURCHASE_FAILED_DURATION, 0]);
    assert_eq!(s.sold_timer, vec![0, 0]);
}

// Debug state

#[test]
fn debug_mode_cycles_through_three_modes() {
    let mut d: DebugState<Rect, Pos> = DebugState::new();
    assert_eq!(d.mode, DebugMode::Off);
    d.cycle();
    assert_eq!(d.mode, DebugMode::Overlay);
    d.cycle();
    assert_eq!(d.mode, DebugMode::Interactive);
    d.cycle();
    assert_eq!(d.mode, DebugMode::Off);
}

#[test]
fn attack_boxes_expire() {
    let mut d: DebugState<Rect, Pos> = DebugState::new();
    d.add_rect((0.0, 0.0, 1.0, 1.0));
    d.update(100_000);
    d.add_rect((1.0, 1.0, 1.0, 1.0));
    assert_eq!(d.attack_box.len(), 2);
    assert_eq!(d.attack_box[0].lifetime, ATTACK_BOX_LIFETIME - 100_000);
    d.update(50_000);
    assert_eq!(d.attack_box.len(), 1);
    assert_eq!(d.attack_box[0].geom, (1.0, 1.0, 1.0, 1.0));
    assert_eq!(d.attack_box[0].lifetime, 100_000);
}

#[test]
fn collider_is_recorded_twice() {
    let mut d: DebugState<Rect, Pos> = DebugState::new();
    d.add_collider((2.0, 3.0));
    assert_eq!(d.collider, vec![(2.0, 3.0), (2.0, 3.0)]);
    d.set_hit_anim((4.0, 5.0));
    assert_eq!(d.hit_pos_anim, (4.0, 5.0));
}

// Interface state

#[test]
fn respawn_countdown_disappears_at_zero() {
    let mut ui = UiState::default();
    ui.respawn_timer = Some(2_000_000);
    ui.update(500_000);
    assert_eq!(ui.respawn_timer, Some(1_500_000));
    ui.update(1_500_000);
    assert_eq!(ui.respawn_timer, None);
    ui.update(1);
    assert_eq!(ui.respawn_timer, None);
}

// Events

#[test]
fn wave_cycle_through_events() {
    let mut s: State = ClientState::new();
    handle_event(ev(GameEventKind::WaveEnd { time_between_wave: 10_000_000 }), &mut s);
    assert!(s.phase.can_show_shop());
    handle_event(ev(GameEventKind::ShopOpened { inventory: vec![Some(7), None, Some(9)] }), &mut s);
    assert!(s.shop_ui.is_open());
    handle_event(ev(GameEventKind::ItemBought { slot: 2 }), &mut s);
    assert_eq!(s.shop_ui.sold_timer, vec![0, 0, SOLD_ANIM_DURATION]);
    handle_event(ev(GameEventKind::PurchaseFailed { slot: 0 }), &mut s);
    assert_eq!(s.shop_ui.error_timer, vec![PURCHASE_FAILED_DURATION, 0, 0]);
    handle_event(ev(GameEventKind::WaveStart), &mut s);
    assert!(matches!(s.phase, GamePhase::Wave));
    assert!(!s.shop_ui.is_open());
}

#[test]
fn death_and_respawn_events() {
    let mut s: State = ClientState::new();
    handle_event(ev(GameEventKind::PlayerDied), &mut s);
    assert!(matches!(s.phase, GamePhase::Dead));
    assert_eq!(s.ui_state.spectator_mode, Some(SpectatorMode::Free));
    handle_event(ev(GameEventKind::RespawnScheduled { delay: 3_000_000 }), &mut s);
    assert_eq!(s.ui_state.respawn_timer, Some(3_000_000));
    handle_event(ev(GameEventKind::RespawnAccept), &mut s);
    assert!(matches!(s.phase, GamePhase::Wave));
    handle_event(ev(GameEventKind::RespawnError), &mut s);
    assert!(matches!(s.phase, GamePhase::Dead));
}

#[test]
fn lives_and_spawn_events() {
    let mut s: State = ClientState::new();
    handle_event(ev(GameEventKind::SharedLivesUpdate { remaining: 2, max: 5 }), &mut s);
    assert_eq!(s.ui_state.shared_lives, SharedLivesDisplay { current: 2, max: 5 });
    handle_event(ev(GameEventKind::PlayerSpawn { client_id: 11, entity_id: 22 }), &mut s);
    assert_eq!(s.local_id, LocalId { entity_id: 22, client_id: 11 });
}

#[test]
fn debug_events() {
    let mut s: State = ClientState::new();
    s.debug.collider.push((9.0, 9.0));
    handle_event(ev(GameEventKind::DebugCollider { pos: (1.0, 2.0) }), &mut s);
    assert_eq!(s.debug.collider, vec![(1.0, 2.0), (1.0, 2.0)]);
    assert!(s.debug.cleared);
    handle_event(ev(GameEventKind::DebugCollider { pos: (3.0, 4.0) }), &mut s);
    assert_eq!(s.debug.collider, vec![(1.0, 2.0), (1.0, 2.0), (3.0, 4.0), (3.0, 4.0)]);
    handle_event(ev(GameEventKind::SpawnRect { rect: (0.0, 0.0, 2.0, 1.0) }), &mut s);
    assert_eq!(s.debug.attack_box.len(), 1);
    assert_eq!(s.debug.attack_box[0].lifetime, ATTACK_BOX_LIFETIME);
    handle_event(ev(GameEventKind::EntityHit { pos: (5.0, 6.0) }), &mut s);
    assert_eq!(s.debug.hit_pos_anim, (5.0, 6.0));
}

#[test]
fn session_handler_records_collider_once_and_ignores_lives() {
    let mut s: State = ClientState::new();
    s.handle_event(ev(GameEventKind::DebugCollider { pos: (1.0, 2.0) }));
    assert_eq!(s.debug.collider, vec![(1.0, 2.0)]);
    s.handle_event(ev(GameEventKind::SharedLivesUpdate { remaining: 2, max: 5 }));
    assert_eq!(s.ui_state.shared_lives, SharedLivesDisplay { current: 0, max: 0 });
    s.handle_event(ev(GameEventKind::PlayerDied));
    assert!(matches!(s.phase, GamePhase::Dead));
    assert_eq!(s.ui_state.spectator_mode, None);
}

#[test]
fn timers_run_together() {
    let mut s: State = ClientState::new();
    handle_event(ev(GameEventKind::WaveEnd { time_between_wave: 1_000_000 }), &mut s);
    handle_event(ev(GameEventKind::RespawnScheduled { delay: 400_000 }), &mut s);
    handle_event(ev(GameEventKind::SpawnRect { rect: (0.0, 0.0, 1.0, 1.0) }), &mut s);
    update_state_timer(&mut s, 400_000);
    assert!(matches!(s.phase, GamePhase::BetweenWave { time_remaining: 600_000, shop_available: true }));
    assert_eq!(s.ui_state.respawn_timer, None);
    assert_eq!(s.debug.attack_box.len(), 0);
    s.update_timers(600_000);
    assert!(matches!(s.phase, GamePhase::BetweenWave { time_remaining: 0, shop_available: true }));
}

#[test]
fn close_shop_keeps_timers() {
    let mut s: State = ClientState::new();
    handle_event(ev(GameEventKind::ShopOpened { inventory: vec![Some(1)] }), &mut s);
    handle_event(ev(GameEventKind::ItemBought { slot: 0 }), &mut s);
    s.close_shop();
    assert!(!s.shop_ui.is_open());
    assert_eq!(s.shop_ui.sold_timer, vec![SOLD_ANIM_DURATION]);
}
