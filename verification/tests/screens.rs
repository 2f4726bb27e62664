use client::debug_data::DebugData;
use client::event::{GameEvent, GameEventKind};
use client::frame::{begin_frame, screen_frame, FrameKeys, MenuView};
use client::game_phase::GamePhase;
use client::in_game::{shop_click, HudBuffers, Snapshots, Ticks, TICK_DURATION};
use client::input::{
    handle_shop_input, move_axes, selected_spell, shop_request, ShopAction, ShopActionKind, ShopInputAction,
    SpellSlot,
};
use client::input_state::Input;
use client::lobby::{
    handle_input, handle_lobby_message, slot_view, AppScreen, LobbyMessage, LobbyScreenState, LobbySlotInfo,
    PlayerClass, SlotView, LOBBY_SLOTS,
};
use client::main_menu::{handle_input as menu_input, MenuAction};
use client::resources::Resources;
use client::shaders::{PassKind, ShaderId, ShaderManager};
use client::shop_state::ShopUiState;
use client::shop_ui::{handle_shop_ui_event, EffectType, ShopCardIds, ShopItem, ShopUiCommand, UiColor};

type Screen = AppScreen<u8>;

fn lobby_state(is_solo: bool) -> LobbyScreenState<u8> {
    LobbyScreenState {
        code: "ABCD".to_string(),
        slot_index: 1,
        slots: vec![None, None, None, None],
        my_class: None,
        ready: false,
        is_solo,
        phase: 0,
    }
}

fn no_keys() -> FrameKeys {
    FrameKeys { enter_pressed: false, m_pressed: false, p_just_pressed: false }
}

// Main menu and frames

#[test]
fn menu_choices() {
    assert_eq!(menu_input(false, true, false), MenuAction::Solo);
    assert_eq!(menu_input(false, false, true), MenuAction::Multi);
    assert_eq!(menu_input(false, true, true), MenuAction::Solo);
    assert_eq!(menu_input(false, false, false), MenuAction::NoAction);
    assert_eq!(menu_input(true, true, true), MenuAction::NoAction);
}

#[test]
fn escape_ends_the_frame() {
    let b = begin_frame(&Screen::MainMenu, true, true);
    assert!(b.quit);
    assert!(!b.drain_lobby_messages);
    let b = begin_frame(&Screen::MainMenu, false, true);
    assert!(!b.quit);
    assert!(b.drain_lobby_messages);
    assert!(!begin_frame(&Screen::InGame, false, true).drain_lobby_messages);
    assert!(!begin_frame(&Screen::MainMenu, false, false).drain_lobby_messages);
    assert!(begin_frame(&Screen::Lobby(lobby_state(false)), false, true).drain_lobby_messages);
}

#[test]
fn main_menu_frame() {
    let keys = FrameKeys { enter_pressed: true, ..no_keys() };
    let f = screen_frame(&Screen::MainMenu, false, keys, false);
    assert_eq!(f.menu_action, MenuAction::Solo);
    assert!(f.is_solo);
    assert_eq!(f.menu_view, Some(MenuView::Connecting));
    assert!(!f.show_lobby && !f.show_hud && !f.clear_frame_queue);
    let f = screen_frame(&Screen::MainMenu, false, no_keys(), true);
    assert_eq!(f.menu_action, MenuAction::NoAction);
    assert!(f.is_solo);
    assert_eq!(f.menu_view, Some(MenuView::Title));
    let keys = FrameKeys { m_pressed: true, ..no_keys() };
    let f = screen_frame(&Screen::MainMenu, false, keys, true);
    assert_eq!(f.menu_action, MenuAction::Multi);
    assert!(!f.is_solo);
    let f = screen_frame(&Screen::MainMenu, true, keys, true);
    assert_eq!(f.menu_action, MenuAction::NoAction);
    assert_eq!(f.menu_view, Some(MenuView::Connecting));
}

#[test]
fn lobby_and_game_frames() {
    let f = screen_frame(&Screen::Lobby(lobby_state(false)), true, no_keys(), false);
    assert!(f.lobby_input && f.show_lobby && !f.show_hud);
    assert_eq!(f.menu_view, None);
    let keys = FrameKeys { p_just_pressed: true, ..no_keys() };
    let f = screen_frame(&Screen::InGame, true, keys, false);
    assert!(f.clear_frame_queue && f.cycle_debug && f.show_hud && !f.show_lobby);
    let f = screen_frame(&Screen::InGame, false, no_keys(), false);
    assert!(!f.clear_frame_queue && !f.cycle_debug);
}

// Lobby

#[test]
fn joining_a_session_opens_an_empty_lobby() {
    let mut screen = Screen::MainMenu;
    let mut is_solo = true;
    handle_lobby_message(
        LobbyMessage::SessionJoined { code: "XYZ".to_string(), slot_index: 2 },
        &mut screen,
        &mut is_solo,
        7,
    );
    match &screen {
        AppScreen::Lobby(st) => {
            assert_eq!(st.code, "XYZ");
            assert_eq!(st.slot_index, 2);
            assert_eq!(st.slots.len(), LOBBY_SLOTS);
            assert!(st.slots.iter().all(|s| s.is_none()));
            assert!(st.is_solo);
            assert_eq!(st.phase, 7);
            assert_eq!(st.my_class, None);
        },
        _ => panic!("not in the lobby"),
    }
    let info = LobbySlotInfo { slot_index: 0, class: Some(PlayerClass::Mage), ready: true };
    handle_lobby_message(
        LobbyMessage::LobbyUpdate { slots: vec![Some(info), None, None, None], phase: 3 },
        &mut screen,
        &mut is_solo,
        7,
    );
    match &screen {
        AppScreen::Lobby(st) => {
            assert_eq!(st.slots[0], Some(info));
            assert_eq!(st.phase, 3);
            assert_eq!(st.code, "XYZ");
        },
        _ => panic!("not in the lobby"),
    }
    handle_lobby_message(LobbyMessage::GameStarting, &mut screen, &mut is_solo, 7);
    assert!(matches!(screen, AppScreen::InGame));
    assert!(is_solo);
}

#[test]
fn lobby_error_keeps_the_screen() {
    let mut screen = Screen::MainMenu;
    let mut is_solo = false;
    handle_lobby_message(LobbyMessage::SessionError { reason: "full".to_string() }, &mut screen, &mut is_solo, 0);
    assert!(matches!(screen, AppScreen::MainMenu));
}

#[test]
fn class_keys_select_and_space_toggles_ready() {
    let mut st = lobby_state(false);
    let sent = handle_input([false, true, false, false], false, &mut st);
    assert_eq!(st.my_class, Some(PlayerClass::Assassin));
    assert_eq!(sent, vec![LobbyMessage::ClassSelected { class: PlayerClass::Assassin }]);
    let sent = handle_input([false, false, false, false], true, &mut st);
    assert!(st.ready);
    assert_eq!(sent, vec![LobbyMessage::ToggleReady]);
}

#[test]
fn space_without_class_does_nothing() {
    let mut st = lobby_state(false);
    let sent = handle_input([false, false, false, false], true, &mut st);
    assert!(sent.is_empty());
    assert!(!st.ready);
}

#[test]
fn solo_class_choice_makes_ready_once() {
    let mut st = lobby_state(true);
    let sent = handle_input([true, false, false, true], true, &mut st);
    assert_eq!(st.my_class, Some(PlayerClass::Tank));
    assert!(st.ready);
    assert_eq!(
        sent,
        vec![
            LobbyMessage::ClassSelected { class: PlayerClass::Warrior },
            LobbyMessage::ToggleReady,
            LobbyMessage::ClassSelected { class: PlayerClass::Tank },
        ]
    );
}

#[test]
fn slots_show_local_choices_for_the_local_player() {
    let mut st = lobby_state(false);
    st.my_class = Some(PlayerClass::Mage);
    st.ready = true;
    st.slots[1] = Some(LobbySlotInfo { slot_index: 1, class: None, ready: false });
    st.slots[2] = Some(LobbySlotInfo { slot_index: 2, class: Some(PlayerClass::Tank), ready: false });
    assert_eq!(slot_view(&st, 0), None);
    assert_eq!(
        slot_view(&st, 1),
        Some(SlotView { player_number: 2, class: Some(PlayerClass::Mage), ready: true, is_local: true })
    );
    assert_eq!(
        slot_view(&st, 2),
        Some(SlotView { player_number: 3, class: Some(PlayerClass::Tank), ready: false, is_local: false })
    );
}

// In game

#[test]
fn shop_key_opens_then_closes() {
    let phase = GamePhase::BetweenWave { time_remaining: 1, shop_available: true };
    let mut shop: ShopUiState<u32> = ShopUiState::new();
    let a = handle_shop_input(true, &phase, &mut shop);
    assert_eq!(a, ShopInputAction::Open);
    assert_eq!(shop_request(a), Some(ShopAction { kind: ShopActionKind::Open, slot: 0 }));
    assert!(!shop.is_open());
    shop.open(vec![Some(1)]);
    let a = handle_shop_input(true, &phase, &mut shop);
    assert_eq!(a, ShopInputAction::Close);
    assert_eq!(shop_request(a), Some(ShopAction { kind: ShopActionKind::Close, slot: 0 }));
    assert!(!shop.is_open());
    assert_eq!(handle_shop_input(false, &phase, &mut shop), ShopInputAction::NoAction);
    assert_eq!(handle_shop_input(true, &GamePhase::Wave, &mut shop), ShopInputAction::NoAction);
    assert_eq!(shop_request(ShopInputAction::NoAction), None);
}

#[test]
fn spells_and_movement() {
    assert_eq!(selected_spell(true, false, false, false), Some(SpellSlot::First));
    assert_eq!(selected_spell(true, true, false, false), Some(SpellSlot::Second));
    assert_eq!(selected_spell(true, false, true, true), Some(SpellSlot::Fourth));
    assert_eq!(selected_spell(false, false, false, false), None);
    assert_eq!(move_axes(true, false, false, true), (1, -1));
    assert_eq!(move_axes(true, true, true, false), (0, 1));
}

#[test]
fn ticks_come_every_tick_duration() {
    let mut t = Ticks::new(1_000);
    assert_eq!(t.advance(1_000 + TICK_DURATION - 1), None);
    assert_eq!(t.advance(1_000 + TICK_DURATION), Some(0));
    assert_eq!(t.advance(1_000 + TICK_DURATION + 10), None);
    assert_eq!(t.advance(1_000 + 2 * TICK_DURATION), Some(1));
    assert_eq!(t, Ticks { last_tick: 1_000 + 2 * TICK_DURATION, tick_id: 2 });
    assert_eq!(t.advance(0), None);
}

#[test]
fn click_buys_first_card_hit() {
    let phase = GamePhase::BetweenWave { time_remaining: 1, shop_available: true };
    let xs = [100, 300, 500];
    let r = shop_click(&phase, true, 120, 350, xs, 100, 150, 300);
    assert_eq!(r, Some(ShopAction { kind: ShopActionKind::Buy, slot: 0 }));
    assert_eq!(shop_click(&phase, false, 120, 350, xs, 100, 150, 300), None);
    assert_eq!(shop_click(&GamePhase::Wave, true, 120, 350, xs, 100, 150, 300), None);
    assert_eq!(shop_click(&phase, true, 120, 50, xs, 100, 150, 300), None);
}

#[test]
fn hud_buffers_start_empty() {
    let b = HudBuffers::new();
    assert!(b.hp.is_empty() && b.gold.is_empty() && b.wave.is_empty());
}

// Input state

#[test]
fn keys_pressed_released_and_frame_end() {
    let mut i: Input<(f32, f32)> = Input::new((0.0, 0.0));
    i.pressed(30);
    assert!(i.is_pressed(30) && i.is_just_pressed(30));
    i.released(30);
    assert!(!i.is_pressed(30) && i.is_just_pressed(30));
    i.pressed(31);
    i.end_frame();
    assert!(i.is_pressed(31) && !i.is_just_pressed(31));
    i.mouse_pressed(0);
    assert!(i.is_mouse_pressed(0) && !i.is_mousew_released(0));
    i.mouse_release(0);
    assert!(i.is_mousew_released(0));
    i.set_mouse_position((3.0, 4.0));
    assert_eq!(i.mouse_position(), (3.0, 4.0));
}

// Shaders

#[test]
fn pass_uses_its_shader() {
    let mut m: ShaderManager<&str> = ShaderManager::new();
    let a = m.register("world");
    let b = m.register("bloom");
    assert_eq!(m.get_pass_shader(PassKind::World), None);
    m.set_pass_shader(PassKind::World, a);
    m.set_pass_shader(PassKind::PostProcess, b);
    assert_eq!(m.get_pass_shader(PassKind::World), Some(&"world"));
    m.set_pass_shader(PassKind::World, b);
    assert_eq!(m.get_pass_shader(PassKind::World), Some(&"bloom"));
    *m.get_pass_shader_mut(PassKind::PostProcess).unwrap() = "blur";
    assert_eq!(m.get(b), Some(&"blur"));
    assert_eq!(m.get_pass_shader(PassKind::Hud), None);
}

#[test]
fn removed_shader_is_gone() {
    let mut m: ShaderManager<u32> = ShaderManager::new();
    let a = m.register(1);
    m.set_pass_shader(PassKind::Vfx, a);
    assert_eq!(m.remove(a), Some(1));
    assert_eq!(m.get(a), None);
    assert_eq!(m.get_pass_shader(PassKind::Vfx), None);
    assert_eq!(m.remove(a), None);
    assert_eq!(m.remove(ShaderId(9)), None);
    m.swap_shader(a, 5);
    assert_eq!(m.get(a), None);
    let b = m.register(2);
    m.swap_shader(b, 3);
    assert_eq!(m.get(b), Some(&3));
    *m.get_mut(b).unwrap() += 1;
    assert_eq!(m.get(b), Some(&4));
}

#[test]
fn shader_time_accumulates_and_saturates() {
    let mut m: ShaderManager<u32> = ShaderManager::new();
    assert_eq!(m.update_globals(16_000), 16_000);
    assert_eq!(m.update_globals(16_000), 32_000);
    assert_eq!(m.update_globals(u64::MAX), u64::MAX);
}

// Shop overlay

fn cards() -> [Option<ShopCardIds>; 3] {
    let card = |b: u64| ShopCardIds {
        root: b,
        art: b + 1,
        name: b + 2,
        desc: b + 3,
        price: b + 4,
        sold_overlay: b + 5,
        error_overlay: b + 6,
        sold_text: b + 7,
    };
    [Some(card(10)), Some(card(20)), Some(card(30))]
}

fn item(name: &str, price: u32, effect_type: EffectType) -> ShopItem {
    ShopItem { name: name.to_string(), description: format!("{name} desc"), price, effect_type }
}

fn shop_event(kind: GameEventKind<ShopItem, (), ()>) -> GameEvent<ShopItem, (), ()> {
    GameEvent { kind }
}

#[test]
fn opened_shop_fills_cards() {
    let e = shop_event(GameEventKind::ShopOpened {
        inventory: vec![Some(item("Potion", 30, EffectType::Health)), None],
    });
    let cmds = handle_shop_ui_event(&e, Some(1), &cards());
    assert_eq!(
        cmds,
        vec![
            ShopUiCommand::SetVisible { target: 1, visible: true },
            ShopUiCommand::SetColor { target: 10, color: UiColor::DarkGreen },
            ShopUiCommand::SetText { target: 12, content: "Potion".to_string() },
            ShopUiCommand::SetText { target: 13, content: "Potion desc".to_string() },
            ShopUiCommand::SetPrice { target: 14, price: 30 },
            ShopUiCommand::SetVisible { target: 15, visible: false },
            ShopUiCommand::SetVisible { target: 25, visible: true },
        ]
    );
}

#[test]
fn shop_fill_stops_at_unknown_card() {
    let mut c = cards();
    c[1] = None;
    let e = shop_event(GameEventKind::ShopOpened {
        inventory: vec![None, Some(item("Sword", 50, EffectType::Damage)), None, None],
    });
    let cmds = handle_shop_ui_event(&e, Some(1), &c);
    assert_eq!(
        cmds,
        vec![
            ShopUiCommand::SetVisible { target: 1, visible: true },
            ShopUiCommand::SetVisible { target: 15, visible: true },
        ]
    );
}

#[test]
fn shop_overlay_other_events() {
    let c = cards();
    assert!(handle_shop_ui_event(&shop_event(GameEventKind::WaveStart), None, &c).is_empty());
    assert_eq!(
        handle_shop_ui_event(&shop_event(GameEventKind::WaveStart), Some(1), &c),
        vec![ShopUiCommand::SetVisible { target: 1, visible: false }]
    );
    assert_eq!(
        handle_shop_ui_event(&shop_event(GameEventKind::ItemBought { slot: 2 }), Some(1), &c),
        vec![
            ShopUiCommand::FadeInSold { overlay: 35, text: 37 },
            ShopUiCommand::SetVisible { target: 35, visible: true },
        ]
    );
    assert_eq!(
        handle_shop_ui_event(&shop_event(GameEventKind::PurchaseFailed { slot: 0 }), Some(1), &c),
        vec![
            ShopUiCommand::FlashError { overlay: 16 },
            ShopUiCommand::SetVisible { target: 16, visible: true },
            ShopUiCommand::SetOpacity { target: 16, percent: 70 },
        ]
    );
    assert!(handle_shop_ui_event(&shop_event(GameEventKind::BossSpawn), Some(1), &c).is_empty());
    let e = shop_event(GameEventKind::ShopOpened { inventory: vec![Some(item("Boots", 5, EffectType::Speed))] });
    let cmds = handle_shop_ui_event(&e, Some(1), &c);
    assert_eq!(cmds[1], ShopUiCommand::SetColor { target: 10, color: UiColor::DarkBlue });
    let e = shop_event(GameEventKind::ShopOpened { inventory: vec![Some(item("Purse", 5, EffectType::Gold))] });
    let cmds = handle_shop_ui_event(&e, Some(1), &c);
    assert_eq!(cmds[1], ShopUiCommand::SetColor { target: 10, color: UiColor::Gold });
}

// Resources and debug data

#[test]
fn resource_read_after_insert() {
    let mut r: Resources<String> = Resources::new();
    assert!(!r.contains(1));
    r.insert(1, "a".to_string());
    r.insert(2, "b".to_string());
    assert_eq!(r.read_resource(1), "a");
    r.write_resource(1).push('!');
    assert_eq!(r.read_resource(1), "a!");
    r.insert(1, "c".to_string());
    assert_eq!(r.read_resource(1), "c");
    assert_eq!(r.read_resource(2), "b");
}

#[test]
fn debug_data_read_and_update() {
    let mut d: DebugData<u32> = DebugData::new();
    assert_eq!(d.read(4), None);
    d.insert(4, 10);
    assert_eq!(d.read(4), Some(&10));
    *d.update_data(4).unwrap() += 1;
    assert_eq!(d.read(4), Some(&11));
    assert!(d.update_data(5).is_none());
}

#[test]
fn snapshots_rotate_and_interpolation_is_capped() {
    let mut s: Snapshots<u32> = Snapshots::new(0);
    s.receive(1, 100);
    assert_eq!((s.prev_snapshot, s.last_snapshot, s.last_snap_time), (None, Some(1), 100));
    s.receive(2, 200);
    assert_eq!((s.prev_snapshot, s.last_snapshot), (Some(1), Some(2)));
    assert_eq!(s.interpolation_elapsed(150), 0);
    assert_eq!(s.interpolation_elapsed(200 + 20_000), 20_000);
    assert_eq!(s.interpolation_elapsed(200 + TICK_DURATION + 5), TICK_DURATION);
}
