//! What the shop overlay shows in answer to a game event: the commands sent
//! to the interface nodes of the shop and of its cards.
use vstd::prelude::*;
use crate::event::{GameEvent, GameEventKind};

verus! {

/// What an item does to the player who buys it.
#[derive(Debug, Clone, Copy, PartialEq, Eq, Structural)]
pub enum EffectType {
    Health,
    Damage,
    Speed,
    Gold,
}

/// An item offered by the shop.
#[derive(Debug, Clone)]
pub struct ShopItem {
    pub name: String,
    pub description: String,
    pub price: u32,
    pub effect_type: EffectType,
}

/// The interface nodes of one shop card.
#[derive(Debug, Clone, Copy, PartialEq, Eq, Structural)]
pub struct ShopCardIds {
    pub root: u64,
    pub art: u64,
    pub name: u64,
    pub desc: u64,
    pub price: u64,
    pub sold_overlay: u64,
    pub error_overlay: u64,
    pub sold_text: u64,
}

/// Number of cards of the shop.
pub const SHOP_CARDS: usize = 3;

/// A colour the shop gives a node.
#[derive(Debug, Clone, Copy, PartialEq, Eq, Structural)]
pub enum UiColor {
    DarkGreen,
    Maroon,
    DarkBlue,
    Gold,
}

/// A command to the interface.
#[derive(Debug, PartialEq, Eq)]
pub enum ShopUiCommand {
    SetVisible { target: u64, visible: bool },
    SetColor { target: u64, color: UiColor },
    SetText { target: u64, content: String },
    /// Shows the price of an item on `target`.
    SetPrice { target: u64, price: u32 },
    /// Sets the opacity of `target`, in percent.
    SetOpacity { target: u64, percent: u8 },
    /// Fades the "sold" overlay in; once done it turns grey and opaque and
    /// `text` shows "sold".
    FadeInSold { overlay: u64, text: u64 },
    /// Fades the error overlay out and hides it once done.
    FlashError { overlay: u64 },
}

/// The border colour of a card that offers an item of effect `e`.
pub open spec fn border_color(e: EffectType) -> UiColor {
    match e {
        EffectType::Health => UiColor::DarkGreen,
        EffectType::Damage => UiColor::Maroon,
        EffectType::Speed => UiColor::DarkBlue,
        EffectType::Gold => UiColor::Gold,
    }
}

/// The commands that fill card `c` with `item`, or mark it sold out.
pub open spec fn card_commands(item: Option<ShopItem>, c: ShopCardIds) -> Seq<ShopUiCommand> {
    match item {
        Some(it) => seq![
            ShopUiCommand::SetColor { target: c.root, color: border_color(it.effect_type) },
            ShopUiCommand::SetText { target: c.name, content: it.name },
            ShopUiCommand::SetText { target: c.desc, content: it.description },
            ShopUiCommand::SetPrice { target: c.price, price: it.price },
            ShopUiCommand::SetVisible { target: c.sold_overlay, visible: false },
        ],
        None => seq![ShopUiCommand::SetVisible { target: c.sold_overlay, visible: true }],
    }
}

/// The commands that fill the cards from the `i`-th on with `inventory`,
/// stopping at the first card whose nodes are unknown.
pub open spec fn fill_commands(inventory: Seq<Option<ShopItem>>, cards: Seq<Option<ShopCardIds>>, i: int) -> Seq<ShopUiCommand>
    decreases inventory.len() - i,
{
    if i < 0 || i >= inventory.len() || i >= cards.len() {
        Seq::empty()
    } else {
        match cards[i] {
            None => Seq::empty(),
            Some(c) => card_commands(inventory[i], c) + fill_commands(inventory, cards, i + 1),
        }
    }
}

/// Whether the nodes of every card are known.
pub open spec fn all_cards_known(cards: Seq<Option<ShopCardIds>>) -> bool {
    forall|i: int| 0 <= i < cards.len() ==> (#[trigger] cards[i]) is Some
}

/// The commands the shop overlay answers an event with, given its root node
/// and the nodes of its cards where they are known.
pub open spec fn shop_ui_commands<R, Pt>(
    kind: GameEventKind<ShopItem, R, Pt>,
    root: Option<u64>,
    cards: Seq<Option<ShopCardIds>>,
) -> Seq<ShopUiCommand> {
    match root {
        None => Seq::empty(),
        Some(r) => match kind {
            GameEventKind::ShopOpened { inventory } => seq![
                ShopUiCommand::SetVisible { target: r, visible: true },
            ] + fill_commands(inventory@, cards, 0),
            GameEventKind::WaveStart => seq![ShopUiCommand::SetVisible { target: r, visible: false }],
            GameEventKind::ItemBought { slot } => match cards[slot as int] {
                None => Seq::empty(),
                Some(c) => seq![
                    ShopUiCommand::FadeInSold { overlay: c.sold_overlay, text: c.sold_text },
                    ShopUiCommand::SetVisible { target: c.sold_overlay, visible: true },
                ],
            },
            GameEventKind::PurchaseFailed { slot } => match cards[slot as int] {
                None => Seq::empty(),
                Some(c) => seq![
                    ShopUiCommand::FlashError { overlay: c.error_overlay },
                    ShopUiCommand::SetVisible { target: c.error_overlay, visible: true },
                    ShopUiCommand::SetOpacity { target: c.error_overlay, percent: 70 },
                ],
            },
            _ => Seq::empty(),
        },
    }
}

/// Whether the event names a card that exists: an opened shop offers no
/// more items than it has cards, unless the nodes of a card are unknown, and a
/// purchase names one of its cards.
pub open spec fn shop_event_in_range<R, Pt>(
    kind: GameEventKind<ShopItem, R, Pt>,
    root: Option<u64>,
    cards: Seq<Option<ShopCardIds>>,
) -> bool {
    root is Some ==> match kind {
        GameEventKind::ShopOpened { inventory } => inventory@.len() <= cards.len() || !all_cards_known(cards),
        GameEventKind::ItemBought { slot } => slot < cards.len(),
        GameEventKind::PurchaseFailed { slot } => slot < cards.len(),
        _ => true,
    }
}

fn card_fill(item: &Option<ShopItem>, c: ShopCardIds, out: &mut Vec<ShopUiCommand>)
    ensures
        final(out)@ == old(out)@ + card_commands(*item, c),
{
    match item {
        Some(it) => {
            let color = match it.effect_type {
                EffectType::Health => UiColor::DarkGreen,
                EffectType::Damage => UiColor::Maroon,
                EffectType::Speed => UiColor::DarkBlue,
                EffectType::Gold => UiColor::Gold,
            };
            out.push(ShopUiCommand::SetColor { target: c.root, color });
            out.push(ShopUiCommand::SetText { target: c.name, content: it.name.clone() });
            out.push(ShopUiCommand::SetText { target: c.desc, content: it.description.clone() });
            out.push(ShopUiCommand::SetPrice { target: c.price, price: it.price });
            out.push(ShopUiCommand::SetVisible { target: c.sold_overlay, visible: false });
        },
        None => {
            out.push(ShopUiCommand::SetVisible { target: c.sold_overlay, visible: true });
        },
    }
    proof {
        assert(final(out)@ =~= old(out)@ + card_commands(*item, c));
    }
}

proof fn lemma_fill_full(inventory: Seq<Option<ShopItem>>, cards: Seq<Option<ShopCardIds>>, i: int)
    requires
        0 <= i <= inventory.len(),
    ensures
        i == inventory.len() ==> fill_commands(inventory, cards, i) == Seq::<ShopUiCommand>::empty(),
{
}

/// The commands the shop overlay answers `event` with. Nothing is shown
/// without the shop's root node; an opened shop becomes visible and its
/// cards are filled in order until one whose nodes are unknown; the start of
/// a wave hides it; a purchase fades in the card's "sold" overlay, and a
/// refused one flashes its error overlay.
pub fn handle_shop_ui_event<R, Pt>(
    event: &GameEvent<ShopItem, R, Pt>,
    root: Option<u64>,
    cards: &[Option<ShopCardIds>; 3],
) -> (cmds: Vec<ShopUiCommand>)
    requires
        shop_event_in_range(event.kind, root, cards@),
    ensures
        cmds@ == shop_ui_commands(event.kind, root, cards@),
{
    let mut out: Vec<ShopUiCommand> = Vec::new();
    let r = match root {
        Some(r) => r,
        None => {
            return out;
        },
    };
    match &event.kind {
        GameEventKind::ShopOpened { inventory } => {
            out.push(ShopUiCommand::SetVisible { target: r, visible: true });
            let ghost start = out@;
            let n = inventory.len();
            let mut i: usize = 0;
            while i < n
                invariant
                    n == inventory@.len(),
                    i <= n,
                    inventory@.len() <= 3 || !all_cards_known(cards@),
                    cards@.len() == 3,
                    forall|j: int| 0 <= j < i ==> (#[trigger] cards@[j]) is Some,
                    start == seq![ShopUiCommand::SetVisible { target: r, visible: true }],
                    root == Some(r),
                    event.kind == (GameEventKind::<ShopItem, R, Pt>::ShopOpened { inventory: *inventory }),
                    out@ + fill_commands(inventory@, cards@, i as int) == start + fill_commands(
                        inventory@,
                        cards@,
                        0,
                    ),
                decreases n - i,
            {
                if i >= 3 {
                    proof {
                        assert(all_cards_known(cards@));
                    }
                }
                let c = match cards[i] {
                    Some(c) => c,
                    None => {
                        proof {
                            assert(fill_commands(inventory@, cards@, i as int) =~= Seq::<ShopUiCommand>::empty());
                            assert(out@ + Seq::<ShopUiCommand>::empty() =~= out@);
                            assert(out@ =~= start + fill_commands(inventory@, cards@, 0));
                            assert(out@ =~= shop_ui_commands(event.kind, root, cards@));
                        }
                        return out;
                    },
                };
                let ghost before = out@;
                card_fill(&inventory[i], c, &mut out);
                proof {
                    assert(before + fill_commands(inventory@, cards@, i as int) =~= out@ + fill_commands(
                        inventory@,
                        cards@,
                        i + 1,
                    ));
                }
                i = i + 1;
            }
            proof {
                lemma_fill_full(inventory@, cards@, n as int);
                assert(out@ + Seq::<ShopUiCommand>::empty() =~= out@);
            }
        },
        GameEventKind::WaveStart => {
            out.push(ShopUiCommand::SetVisible { target: r, visible: false });
        },
        GameEventKind::ItemBought { slot } => {
            match cards[*slot as usize] {
                Some(c) => {
                    out.push(ShopUiCommand::FadeInSold { overlay: c.sold_overlay, text: c.sold_text });
                    out.push(ShopUiCommand::SetVisible { target: c.sold_overlay, visible: true });
                },
                None => {},
            }
        },
        GameEventKind::PurchaseFailed { slot } => {
            match cards[*slot as usize] {
                Some(c) => {
                    out.push(ShopUiCommand::FlashError { overlay: c.error_overlay });
                    out.push(ShopUiCommand::SetVisible { target: c.error_overlay, visible: true });
                    out.push(ShopUiCommand::SetOpacity { target: c.error_overlay, percent: 70 });
                },
                None => {},
            }
        },
        _ => {},
    }
    proof {
        assert(out@ =~= shop_ui_commands(event.kind, root, cards@));
    }
    out
}

/// Each effect has its own border colour: health is dark green, damage
/// maroon, speed dark blue and gold gold, so no two effects share one; and a
/// filled card first takes the colour of its item's effect on its root node.
pub proof fn law_border_colors(a: EffectType, b: EffectType, it: ShopItem, c: ShopCardIds)
    ensures
        border_color(EffectType::Health) == UiColor::DarkGreen,
        border_color(EffectType::Damage) == UiColor::Maroon,
        border_color(EffectType::Speed) == UiColor::DarkBlue,
        border_color(EffectType::Gold) == UiColor::Gold,
        border_color(a) == border_color(b) ==> a == b,
        card_commands(Some(it), c)[0] == (ShopUiCommand::SetColor { target: c.root, color: border_color(it.effect_type) }),
{
}

} // verus!
