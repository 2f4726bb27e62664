//! What the player's keys and mouse ask for in game.
use vstd::prelude::*;
use crate::game_phase::GamePhase;
use crate::shop_state::ShopUiState;

verus! {

/// What a press on the shop key did.
#[derive(Debug, Clone, Copy, PartialEq, Eq, Structural)]
pub enum ShopInputAction {
    Open,
    Close,
    NoAction,
}

/// Kind of a shop request sent to the server.
#[derive(Debug, Clone, Copy, PartialEq, Eq, Structural)]
pub enum ShopActionKind {
    Open,
    Close,
    Buy,
}

/// A shop request sent to the server.
#[derive(Debug, Clone, Copy, PartialEq, Eq, Structural)]
pub struct ShopAction {
    pub kind: ShopActionKind,
    pub slot: u8,
}

/// Spell slot a key casts.
#[derive(Debug, Clone, Copy, PartialEq, Eq, Structural)]
pub enum SpellSlot {
    First,
    Second,
    Third,
    Fourth,
}

/// Handles the shop key: when it was just pressed, opens the shop if it can be
/// shown and is closed, or closes it if it is open. Closing also closes the
/// local shop state; opening waits for the server. The request to send is
/// `shop_request(result)`.
pub fn handle_shop_input<I>(g_just_pressed: bool, phase: &GamePhase, shop: &mut ShopUiState<I>) -> (action:
    ShopInputAction)
    ensures
        action == if !g_just_pressed {
            ShopInputAction::NoAction
        } else if phase.spec_can_show_shop() && old(shop).inventory is None {
            ShopInputAction::Open
        } else if old(shop).inventory is Some {
            ShopInputAction::Close
        } else {
            ShopInputAction::NoAction
        },
        action == ShopInputAction::Close ==> final(shop).inventory is None,
        action != ShopInputAction::Close ==> final(shop).inventory == old(shop).inventory,
        final(shop).error_timer@ == old(shop).error_timer@,
        final(shop).sold_timer@ == old(shop).sold_timer@,
{
    if !g_just_pressed {
        return ShopInputAction::NoAction;
    }
    if phase.can_show_shop() && !shop.is_open() {
        ShopInputAction::Open
    } else if shop.is_open() {
        shop.close();
        ShopInputAction::Close
    } else {
        ShopInputAction::NoAction
    }
}

/// The request the server gets for a press on the shop key.
pub fn shop_request(action: ShopInputAction) -> (r: Option<ShopAction>)
    ensures
        r == match action {
            ShopInputAction::Open => Some(ShopAction { kind: ShopActionKind::Open, slot: 0 }),
            ShopInputAction::Close => Some(ShopAction { kind: ShopActionKind::Close, slot: 0 }),
            ShopInputAction::NoAction => None::<ShopAction>,
        },
{
    match action {
        ShopInputAction::Open => Some(ShopAction { kind: ShopActionKind::Open, slot: 0 }),
        ShopInputAction::Close => Some(ShopAction { kind: ShopActionKind::Close, slot: 0 }),
        ShopInputAction::NoAction => None,
    }
}

/// The spell cast this frame: the keys E, Q, V, C select the first to fourth
/// slot, and when several were just pressed the last of them in that order wins.
pub fn selected_spell(e: bool, q: bool, v: bool, c: bool) -> (slot: Option<SpellSlot>)
    ensures
        slot == if c {
            Some(SpellSlot::Fourth)
        } else if v {
            Some(SpellSlot::Third)
        } else if q {
            Some(SpellSlot::Second)
        } else if e {
            Some(SpellSlot::First)
        } else {
            None::<SpellSlot>
        },
{
    let mut spell: Option<SpellSlot> = None;
    if e {
        spell = Some(SpellSlot::First);
    }
    if q {
        spell = Some(SpellSlot::Second);
    }
    if v {
        spell = Some(SpellSlot::Third);
    }
    if c {
        spell = Some(SpellSlot::Fourth);
    }
    spell
}

/// The raw movement direction from the movement keys: `right - left` on x and
/// `down - up` on y, each in -1..=1 (before normalisation).
pub fn move_axes(right: bool, left: bool, down: bool, up: bool) -> (dir: (i8, i8))
    ensures
        dir.0 == (if right { 1int } else { 0int }) - (if left { 1int } else { 0int }),
        dir.1 == (if down { 1int } else { 0int }) - (if up { 1int } else { 0int }),
{
    let mut x: i8 = 0;
    let mut y: i8 = 0;
    if right {
        x = x + 1;
    }
    if left {
        x = x - 1;
    }
    if down {
        y = y + 1;
    }
    if up {
        y = y - 1;
    }
    (x, y)
}

} // verus!
