//! The lobby: which screen the client shows, the lobby messages, and what the
//! lobby keys do.
use vstd::prelude::*;

verus! {

/// Class of a player.
#[derive(Debug, Clone, Copy, PartialEq, Eq, Structural)]
pub enum PlayerClass {
    Warrior,
    Assassin,
    Mage,
    Tank,
}

/// One occupied slot of the lobby, as the server reports it.
#[derive(Debug, Clone, Copy, PartialEq, Eq, Structural)]
pub struct LobbySlotInfo {
    pub slot_index: u8,
    pub class: Option<PlayerClass>,
    pub ready: bool,
}

/// The lobby as the local player sees it; `Ph` is the phase reported by the server.
pub struct LobbyScreenState<Ph> {
    pub code: String,
    pub slot_index: u8,
    pub slots: Vec<Option<LobbySlotInfo>>,
    pub my_class: Option<PlayerClass>,
    pub ready: bool,
    pub is_solo: bool,
    pub phase: Ph,
}

/// The screen the client shows.
pub enum AppScreen<Ph> {
    MainMenu,
    Lobby(LobbyScreenState<Ph>),
    InGame,
}

/// Messages exchanged with the server about the lobby.
#[derive(Debug, PartialEq, Eq)]
pub enum LobbyMessage<Ph> {
    SessionJoined { code: String, slot_index: u8 },
    LobbyUpdate { slots: Vec<Option<LobbySlotInfo>>, phase: Ph },
    GameStarting,
    SessionError { reason: String },
    ClassSelected { class: PlayerClass },
    ToggleReady,
}

/// Number of slots of a lobby.
pub const LOBBY_SLOTS: usize = 4;

/// `n` is the screen after message `msg` on screen `o`.
pub open spec fn lobby_message_applied<Ph>(
    o: AppScreen<Ph>,
    n: AppScreen<Ph>,
    msg: LobbyMessage<Ph>,
    is_solo: bool,
    waiting: Ph,
) -> bool {
    match msg {
        LobbyMessage::SessionJoined { code, slot_index } => match n {
            AppScreen::Lobby(st) => {
                &&& st.code == code
                &&& st.slot_index == slot_index
                &&& st.slots@ == Seq::new(LOBBY_SLOTS as nat, |i: int| None::<LobbySlotInfo>)
                &&& st.my_class is None
                &&& !st.ready
                &&& st.is_solo == is_solo
                &&& st.phase == waiting
            },
            _ => false,
        },
        LobbyMessage::LobbyUpdate { slots, phase } => match o {
            AppScreen::Lobby(os) => match n {
                AppScreen::Lobby(ns) => {
                    &&& ns.slots == slots
                    &&& ns.phase == phase
                    &&& ns.code == os.code
                    &&& ns.slot_index == os.slot_index
                    &&& ns.my_class == os.my_class
                    &&& ns.ready == os.ready
                    &&& ns.is_solo == os.is_solo
                },
                _ => false,
            },
            _ => n == o,
        },
        LobbyMessage::GameStarting => n is InGame,
        _ => n == o,
    }
}

/// Applies a lobby message to the current screen: joining a session opens the
/// lobby with its slots empty, an update refreshes the lobby, and the start of
/// the game switches to the game screen. `waiting` is the phase a new lobby
/// starts in. Returns whether a game starts, which begins a new game state.
pub fn handle_lobby_message<Ph>(
    msg: LobbyMessage<Ph>,
    screen: &mut AppScreen<Ph>,
    is_solo: &mut bool,
    waiting: Ph,
) -> (started: bool)
    ensures
        lobby_message_applied(*old(screen), *final(screen), msg, *old(is_solo), waiting),
        *final(is_solo) == *old(is_solo),
        started == msg is GameStarting,
{
    let started = match &msg {
        LobbyMessage::GameStarting => true,
        _ => false,
    };
    match msg {
        LobbyMessage::SessionJoined { code, slot_index } => {
            let mut slots: Vec<Option<LobbySlotInfo>> = Vec::new();
            let mut i: usize = 0;
            while i < LOBBY_SLOTS
                invariant
                    i <= LOBBY_SLOTS,
                    slots@.len() == i,
                    forall|j: int| 0 <= j < i ==> #[trigger] slots@[j] == None::<LobbySlotInfo>,
                decreases LOBBY_SLOTS - i,
            {
                slots.push(None);
                i = i + 1;
            }
            proof {
                assert(slots@ =~= Seq::new(LOBBY_SLOTS as nat, |i: int| None::<LobbySlotInfo>));
            }
            *screen = AppScreen::Lobby(
                LobbyScreenState {
                    code,
                    slot_index,
                    slots,
                    my_class: None,
                    ready: false,
                    is_solo: *is_solo,
                    phase: waiting,
                },
            );
        },
        LobbyMessage::LobbyUpdate { slots, phase } => {
            match screen {
                AppScreen::Lobby(state) => {
                    state.slots = slots;
                    state.phase = phase;
                },
                _ => {},
            }
        },
        LobbyMessage::GameStarting => {
            *screen = AppScreen::InGame;
        },
        _ => {},
    }
    started
}

/// The class chosen by the `k`-th class key.
pub open spec fn class_of_key(k: int) -> PlayerClass {
    if k == 0 {
        PlayerClass::Warrior
    } else if k == 1 {
        PlayerClass::Assassin
    } else if k == 2 {
        PlayerClass::Mage
    } else {
        PlayerClass::Tank
    }
}

/// The chosen class, the ready flag and the messages sent after handling the
/// class keys from the `k`-th on: each pressed key selects its class, and in
/// solo the first selection also makes the player ready.
pub open spec fn class_keys_from<Ph>(
    pressed: Seq<bool>,
    k: int,
    class: Option<PlayerClass>,
    ready: bool,
    is_solo: bool,
) -> (Option<PlayerClass>, bool, Seq<LobbyMessage<Ph>>)
    decreases 4 - k,
{
    if k < 0 || k >= 4 {
        (class, ready, Seq::empty())
    } else if pressed[k] {
        let c = class_of_key(k);
        let auto_ready = is_solo && !ready;
        let sent = if auto_ready {
            seq![LobbyMessage::ClassSelected { class: c }, LobbyMessage::ToggleReady]
        } else {
            seq![LobbyMessage::ClassSelected { class: c }]
        };
        let rest = class_keys_from::<Ph>(pressed, k + 1, Some(c), ready || auto_ready, is_solo);
        (rest.0, rest.1, sent + rest.2)
    } else {
        class_keys_from::<Ph>(pressed, k + 1, class, ready, is_solo)
    }
}

fn key_class(k: usize) -> (c: PlayerClass)
    requires
        k < 4,
    ensures
        c == class_of_key(k as int),
{
    if k == 0 {
        PlayerClass::Warrior
    } else if k == 1 {
        PlayerClass::Assassin
    } else if k == 2 {
        PlayerClass::Mage
    } else {
        PlayerClass::Tank
    }
}

/// Handles the lobby keys: `class_keys[k]` tells whether the key of the `k`-th
/// class (Warrior, Assassin, Mage, Tank) was just pressed, `space` whether the
/// ready key was. Returns the messages to send to the server, in order.
pub fn handle_input<Ph>(class_keys: [bool; 4], space: bool, state: &mut LobbyScreenState<Ph>) -> (sent:
    Vec<LobbyMessage<Ph>>)
    ensures
        ({
            let after = class_keys_from::<Ph>(
                class_keys@,
                0,
                old(state).my_class,
                old(state).ready,
                old(state).is_solo,
            );
            let toggle = !old(state).is_solo && space && after.0 is Some;
            &&& final(state).my_class == after.0
            &&& final(state).ready == if toggle {
                !after.1
            } else {
                after.1
            }
            &&& sent@ == if toggle {
                after.2.push(LobbyMessage::ToggleReady)
            } else {
                after.2
            }
        }),
        final(state).code == old(state).code,
        final(state).slot_index == old(state).slot_index,
        final(state).slots == old(state).slots,
        final(state).is_solo == old(state).is_solo,
        final(state).phase == old(state).phase,
{
    let mut sent: Vec<LobbyMessage<Ph>> = Vec::new();
    let ghost total = class_keys_from::<Ph>(
        class_keys@,
        0,
        old(state).my_class,
        old(state).ready,
        old(state).is_solo,
    );
    let mut k: usize = 0;
    while k < 4
        invariant
            k <= 4,
            state.is_solo == old(state).is_solo,
            state.code == old(state).code,
            state.slot_index == old(state).slot_index,
            state.slots == old(state).slots,
            state.phase == old(state).phase,
            ({
                let rest = class_keys_from::<Ph>(
                    class_keys@,
                    k as int,
                    state.my_class,
                    state.ready,
                    state.is_solo,
                );
                &&& rest.0 == total.0
                &&& rest.1 == total.1
                &&& sent@ + rest.2 == total.2
            }),
        decreases 4 - k,
    {
        if class_keys[k] {
            let class = key_class(k);
            state.my_class = Some(class);
            sent.push(LobbyMessage::ClassSelected { class });
            if state.is_solo && !state.ready {
                state.ready = true;
                sent.push(LobbyMessage::ToggleReady);
            }
        }
        k = k + 1;
    }
    proof {
        assert(sent@ + Seq::<LobbyMessage<Ph>>::empty() =~= sent@);
    }
    if !state.is_solo && space && state.my_class.is_some() {
        state.ready = !state.ready;
        sent.push(LobbyMessage::ToggleReady);
    }
    sent
}

/// The class keys stand, in order, for Warrior, Assassin, Mage and Tank.
pub proof fn law_class_key_table(k: int)
    requires
        0 <= k < 4,
    ensures
        class_of_key(k) == seq![
            PlayerClass::Warrior,
            PlayerClass::Assassin,
            PlayerClass::Mage,
            PlayerClass::Tank,
        ][k],
{
}

/// Pressing only the `k`-th class key in a multiplayer lobby selects the
/// `k`-th of Warrior, Assassin, Mage and Tank, leaves the ready flag alone,
/// and sends exactly one class selection, for that class; in solo the first
/// selection also sends the ready toggle.
pub proof fn law_single_class_key<Ph>(k: int, class: Option<PlayerClass>, ready: bool, is_solo: bool)
    requires
        0 <= k < 4,
    ensures
        ({
            let c = seq![PlayerClass::Warrior, PlayerClass::Assassin, PlayerClass::Mage, PlayerClass::Tank][k];
            let r = class_keys_from::<Ph>(Seq::new(4, |i: int| i == k), 0, class, ready, is_solo);
            &&& r.0 == Some(c)
            &&& !is_solo ==> r.1 == ready && r.2 == seq![LobbyMessage::<Ph>::ClassSelected { class: c }]
            &&& is_solo && !ready ==> r.1 && r.2 == seq![
                LobbyMessage::<Ph>::ClassSelected { class: c },
                LobbyMessage::<Ph>::ToggleReady,
            ]
            &&& is_solo && ready ==> r.1 && r.2 == seq![LobbyMessage::<Ph>::ClassSelected { class: c }]
        }),
{
    let pressed = Seq::new(4, |i: int| i == k);
    reveal_with_fuel(class_keys_from, 5);
    let c = class_of_key(k);
    let nr = ready || (is_solo && !ready);
    let e = Seq::<LobbyMessage<Ph>>::empty();
    assert(class_keys_from::<Ph>(pressed, 4, Some(c), nr, is_solo) == (Some(c), nr, e));
    assert(class_keys_from::<Ph>(pressed, k + 1, Some(c), nr, is_solo) == (Some(c), nr, e)) by {
        if k + 1 <= 3 {
            assert(!pressed[3]);
        }
        if k + 1 <= 2 {
            assert(!pressed[2]);
        }
        if k + 1 <= 1 {
            assert(!pressed[1]);
        }
    }
    assert(class_keys_from::<Ph>(pressed, 0, class, ready, is_solo) == class_keys_from::<Ph>(pressed, k, class, ready, is_solo)) by {
        if k >= 1 {
            assert(!pressed[0]);
        }
        if k >= 2 {
            assert(!pressed[1]);
        }
        if k >= 3 {
            assert(!pressed[2]);
        }
    }
    assert(pressed[k]);
    let sent = if is_solo && !ready {
        seq![LobbyMessage::<Ph>::ClassSelected { class: c }, LobbyMessage::<Ph>::ToggleReady]
    } else {
        seq![LobbyMessage::<Ph>::ClassSelected { class: c }]
    };
    assert(sent + e =~= sent);
}

/// A freshly joined lobby shows the local player with no class, not ready,
/// with the session's code and slot and every one of its slots empty.
pub proof fn law_joined_lobby_fresh<Ph>(
    o: AppScreen<Ph>,
    n: AppScreen<Ph>,
    code: String,
    slot_index: u8,
    is_solo: bool,
    waiting: Ph,
)
    requires
        lobby_message_applied(o, n, LobbyMessage::SessionJoined { code, slot_index }, is_solo, waiting),
    ensures
        n is Lobby,
        !n->0.ready,
        n->0.my_class is None,
        n->0.code == code,
        n->0.slot_index == slot_index,
        n->0.slots@.len() == 4,
        forall|i: int| 0 <= i < 4 ==> (#[trigger] n->0.slots@[i]) is None,
{
}

/// The class keys select a class as soon as one of them is pressed; in solo
/// a selection makes the player ready, and only the ready key can change the
/// ready flag otherwise.
pub proof fn law_class_keys<Ph>(
    pressed: Seq<bool>,
    k: int,
    class: Option<PlayerClass>,
    ready: bool,
    is_solo: bool,
)
    requires
        0 <= k <= 4,
        pressed.len() == 4,
    ensures
        ({
            let r = class_keys_from::<Ph>(pressed, k, class, ready, is_solo);
            let any = exists|j: int| k <= j < 4 && #[trigger] pressed[j];
            &&& r.0 is Some <==> (class is Some || any)
            &&& !any ==> r.0 == class
            &&& is_solo ==> r.1 == (ready || any)
            &&& !is_solo ==> r.1 == ready
            &&& !any ==> r.2.len() == 0
        }),
    decreases 4 - k,
{
    if k < 4 {
        let c = class_of_key(k);
        if pressed[k] {
            law_class_keys::<Ph>(pressed, k + 1, Some(c), ready || (is_solo && !ready), is_solo);
        } else {
            law_class_keys::<Ph>(pressed, k + 1, class, ready, is_solo);
            assert forall|j: int| k <= j < 4 && #[trigger] pressed[j] implies k + 1 <= j by {}
        }
    }
}

/// How a lobby slot is shown.
#[derive(Debug, Clone, Copy, PartialEq, Eq, Structural)]
pub struct SlotView {
    /// The number shown after "Joueur", one more than the server's index.
    pub player_number: u16,
    pub class: Option<PlayerClass>,
    pub ready: bool,
    /// Whether this is the local player's slot, which shows the local choices.
    pub is_local: bool,
}

/// How slot `i` of the lobby is shown: nothing when it is empty; the local
/// player's own slot shows the local class and ready flag, the others what the
/// server reported.
pub fn slot_view<Ph>(state: &LobbyScreenState<Ph>, i: usize) -> (v: Option<SlotView>)
    requires
        i < state.slots@.len(),
    ensures
        match state.slots@[i as int] {
            None => v is None,
            Some(info) => v == Some(
                SlotView {
                    player_number: (info.slot_index + 1) as u16,
                    class: if i == state.slot_index {
                        state.my_class
                    } else {
                        info.class
                    },
                    ready: if i == state.slot_index {
                        state.ready
                    } else {
                        info.ready
                    },
                    is_local: i == state.slot_index,
                },
            ),
        },
{
    match state.slots[i] {
        None => None,
        Some(info) => {
            let is_local = i == state.slot_index as usize;
            Some(
                SlotView {
                    player_number: info.slot_index as u16 + 1,
                    class: if is_local {
                        state.my_class
                    } else {
                        info.class
                    },
                    ready: if is_local {
                        state.ready
                    } else {
                        info.ready
                    },
                    is_local,
                },
            )
        },
    }
}

} // verus!
