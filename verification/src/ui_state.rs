//! State of the in-game interface outside the shop: shared lives, respawn
//! countdown and spectator mode.
use vstd::prelude::*;
use crate::Micros;
use crate::vfx::sat_sub;

verus! {

/// Lives shared by the team.
#[derive(Debug, Clone, Copy, PartialEq, Eq, Structural)]
pub struct SharedLivesDisplay {
    pub current: u32,
    pub max: u32,
}

/// How a dead player watches the game.
#[derive(Debug, Clone, Copy, PartialEq, Eq, Structural)]
pub enum SpectatorMode {
    Free,
    Follow { target_id: u64 },
}

/// The respawn countdown after `dt`: it goes away once it reaches zero.
pub open spec fn tick_respawn(t: Option<Micros>, dt: Micros) -> Option<Micros> {
    match t {
        Some(left) => if sat_sub(left, dt) == 0 {
            None
        } else {
            Some(sat_sub(left, dt))
        },
        None => None,
    }
}

/// State of the in-game interface.
#[derive(Debug, Clone, Copy, PartialEq, Eq, Structural)]
pub struct UiState {
    pub shared_lives: SharedLivesDisplay,
    pub respawn_timer: Option<Micros>,
    pub spectator_mode: Option<SpectatorMode>,
}

impl Default for UiState {
    fn default() -> (r: Self)
        ensures
            r.shared_lives == (SharedLivesDisplay { current: 0, max: 0 }),
            r.respawn_timer is None,
            r.spectator_mode is None,
    {
        UiState {
            shared_lives: SharedLivesDisplay { current: 0, max: 0 },
            respawn_timer: None,
            spectator_mode: None,
        }
    }
}

impl UiState {
    /// Counts the respawn countdown down by `dt`, removing it at zero.
    pub fn update(&mut self, dt: Micros)
        ensures
            final(self).respawn_timer == tick_respawn(old(self).respawn_timer, dt),
            final(self).shared_lives == old(self).shared_lives,
            final(self).spectator_mode == old(self).spectator_mode,
    {
        match self.respawn_timer {
            Some(left) => {
                let now = if left > dt {
                    left - dt
                } else {
                    0
                };
                if now == 0 {
                    self.respawn_timer = None;
                } else {
                    self.respawn_timer = Some(now);
                }
            },
            None => {},
        }
    }
}

/// A respawn countdown never grows, and it is gone after an update at least
/// as long as what was left.
pub proof fn law_respawn_countdown(t: Option<Micros>, dt: Micros)
    ensures
        t is None ==> tick_respawn(t, dt) is None,
        tick_respawn(t, dt) is Some ==> t is Some && t->0 > dt && tick_respawn(t, dt)->0 == t->0 - dt,
        t is Some && t->0 <= dt ==> tick_respawn(t, dt) is None,
{
}

} // verus!
