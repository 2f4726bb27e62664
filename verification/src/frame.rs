//! The decisions of one frame of the application: whether to quit, which
//! messages to read, what the shown screen does with the keys, and which
//! parts of the interface are visible.
use vstd::prelude::*;
use crate::lobby::AppScreen;
use crate::main_menu::{MenuAction, handle_input};

verus! {

/// What the main menu shows.
#[derive(Debug, Clone, Copy, PartialEq, Eq, Structural)]
pub enum MenuView {
    /// The title and the choices.
    Title,
    /// The wait for the connection.
    Connecting,
}

/// What a frame does before anything else.
#[derive(Debug, Clone, Copy, PartialEq, Eq, Structural)]
pub struct FrameBegin {
    /// Escape was pressed: the application exits and the frame stops.
    pub quit: bool,
    /// The lobby messages received are to be handled.
    pub drain_lobby_messages: bool,
}

/// The keys a frame reads.
#[derive(Debug, Clone, Copy, PartialEq, Eq, Structural)]
pub struct FrameKeys {
    pub enter_pressed: bool,
    pub m_pressed: bool,
    pub p_just_pressed: bool,
}

/// What the shown screen does during a frame.
#[derive(Debug, Clone, Copy, PartialEq, Eq, Structural)]
pub struct ScreenFrame {
    /// The frames queued for drawing are dropped.
    pub clear_frame_queue: bool,
    /// What the main menu asks for; a connection is opened unless nothing.
    pub menu_action: MenuAction,
    /// Whether the game is played alone.
    pub is_solo: bool,
    /// What the main menu shows, when it is the screen.
    pub menu_view: Option<MenuView>,
    /// The lobby reads the keys and sends what they ask for.
    pub lobby_input: bool,
    /// The debug display goes to its next mode.
    pub cycle_debug: bool,
    /// The lobby interface is visible.
    pub show_lobby: bool,
    /// The in-game interface is visible.
    pub show_hud: bool,
}

/// Starts a frame: it stops when Escape was pressed; otherwise, with a
/// connection, the lobby messages are handled while the main menu or the
/// lobby is shown.
pub fn begin_frame<Ph>(screen: &AppScreen<Ph>, escape_pressed: bool, has_client: bool) -> (b: FrameBegin)
    ensures
        b.quit == escape_pressed,
        b.drain_lobby_messages == (!escape_pressed && has_client && !(*screen is InGame)),
{
    let in_game = match screen {
        AppScreen::InGame => true,
        _ => false,
    };
    FrameBegin { quit: escape_pressed, drain_lobby_messages: !escape_pressed && has_client && !in_game }
}

/// What the screen shown after the lobby messages does with the keys: the
/// main menu chooses the mode and shows the wait once a connection exists;
/// the lobby reads the keys when connected; the game drops the queued frames
/// when connected and cycles the debug display on P. The lobby interface is
/// visible exactly in the lobby and the in-game one exactly in the game.
pub fn screen_frame<Ph>(screen: &AppScreen<Ph>, has_client: bool, keys: FrameKeys, is_solo: bool) -> (f: ScreenFrame)
    ensures
        f.clear_frame_queue == (has_client && *screen is InGame),
        f.menu_action == if *screen is MainMenu && !has_client {
            if keys.enter_pressed {
                MenuAction::Solo
            } else if keys.m_pressed {
                MenuAction::Multi
            } else {
                MenuAction::NoAction
            }
        } else {
            MenuAction::NoAction
        },
        f.is_solo == match f.menu_action {
            MenuAction::Solo => true,
            MenuAction::Multi => false,
            MenuAction::NoAction => is_solo,
        },
        f.menu_view == if *screen is MainMenu {
            if has_client || f.menu_action != MenuAction::NoAction {
                Some(MenuView::Connecting)
            } else {
                Some(MenuView::Title)
            }
        } else {
            None::<MenuView>
        },
        f.lobby_input == (*screen is Lobby && has_client),
        f.cycle_debug == (*screen is InGame && keys.p_just_pressed),
        f.show_lobby == *screen is Lobby,
        f.show_hud == *screen is InGame,
{
    match screen {
        AppScreen::MainMenu => {
            let action = handle_input(has_client, keys.enter_pressed, keys.m_pressed);
            let solo = match action {
                MenuAction::Solo => true,
                MenuAction::Multi => false,
                MenuAction::NoAction => is_solo,
            };
            let connected = match action {
                MenuAction::NoAction => has_client,
                _ => true,
            };
            let view = if connected {
                MenuView::Connecting
            } else {
                MenuView::Title
            };
            ScreenFrame {
                clear_frame_queue: false,
                menu_action: action,
                is_solo: solo,
                menu_view: Some(view),
                lobby_input: false,
                cycle_debug: false,
                show_lobby: false,
                show_hud: false,
            }
        },
        AppScreen::Lobby(_) => ScreenFrame {
            clear_frame_queue: false,
            menu_action: MenuAction::NoAction,
            is_solo,
            menu_view: None,
            lobby_input: has_client,
            cycle_debug: false,
            show_lobby: true,
            show_hud: false,
        },
        AppScreen::InGame => ScreenFrame {
            clear_frame_queue: has_client,
            menu_action: MenuAction::NoAction,
            is_solo,
            menu_view: None,
            lobby_input: false,
            cycle_debug: keys.p_just_pressed,
            show_lobby: false,
            show_hud: true,
        },
    }
}

} // verus!
