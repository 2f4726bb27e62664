//! The main menu: choosing solo or multiplayer.
use vstd::prelude::*;

verus! {

/// What the main menu asks for.
#[derive(Debug, Clone, Copy, PartialEq, Eq, Structural)]
pub enum MenuAction {
    NoAction,
    Solo,
    Multi,
}

/// Decides what the main menu does: nothing while a connection is already
/// under way, solo on Enter, multiplayer on M (Enter wins when both are
/// pressed). A connection is to be opened exactly when the result is not `None`.
pub fn handle_input(has_client: bool, enter_pressed: bool, m_pressed: bool) -> (action: MenuAction)
    ensures
        action == if has_client {
            MenuAction::NoAction
        } else if enter_pressed {
            MenuAction::Solo
        } else if m_pressed {
            MenuAction::Multi
        } else {
            MenuAction::NoAction
        },
{
    if has_client {
        return MenuAction::NoAction;
    }
    if enter_pressed {
        return MenuAction::Solo;
    }
    if m_pressed {
        return MenuAction::Multi;
    }
    MenuAction::NoAction
}

} // verus!
