//! The phase of the game as the client sees it.
use vstd::prelude::*;
use crate::Micros;
use crate::vfx::sat_sub;

verus! {

/// Phase of the game.
pub enum GamePhase {
    Wave,
    BetweenWave { time_remaining: Micros, shop_available: bool },
    Dead,
    Respawning,
    GameOver,
}

impl Default for GamePhase {
    fn default() -> (r: Self)
        ensures
            r == GamePhase::Wave,
    {
        GamePhase::Wave
    }
}

impl GamePhase {
    /// The shop can be shown only between two waves, when it is available.
    pub open spec fn spec_can_show_shop(&self) -> bool {
        match self {
            GamePhase::BetweenWave { shop_available, .. } => *shop_available,
            _ => false,
        }
    }

    /// The phase after `dt`: only the countdown between waves moves, down to zero.
    pub open spec fn ticked(self, dt: Micros) -> GamePhase {
        match self {
            GamePhase::BetweenWave { time_remaining, shop_available } => GamePhase::BetweenWave {
                time_remaining: sat_sub(time_remaining, dt),
                shop_available,
            },
            other => other,
        }
    }

    /// Whether the shop can be shown.
    pub fn can_show_shop(&self) -> (r: bool)
        ensures
            r == self.spec_can_show_shop(),
    {
        match self {
            GamePhase::BetweenWave { shop_available, .. } => *shop_available,
            _ => false,
        }
    }

    /// Counts the time between waves down by `dt`.
    pub fn update(&mut self, dt: Micros)
        ensures
            *final(self) == old(self).ticked(dt),
    {
        match self {
            GamePhase::BetweenWave { time_remaining, .. } => {
                if *time_remaining > 0 {
                    *time_remaining = if *time_remaining > dt {
                        *time_remaining - dt
                    } else {
                        0
                    };
                }
            },
            _ => {},
        }
    }
}

/// Time passing never changes the phase itself nor whether the shop can be
/// shown, and the countdown between waves never goes up.
pub proof fn law_update_keeps_phase(p: GamePhase, dt: Micros)
    ensures
        p.ticked(dt).spec_can_show_shop() == p.spec_can_show_shop(),
        p is Wave <==> p.ticked(dt) is Wave,
        p is BetweenWave <==> p.ticked(dt) is BetweenWave,
        p is Dead <==> p.ticked(dt) is Dead,
        p is Respawning <==> p.ticked(dt) is Respawning,
        p is GameOver <==> p.ticked(dt) is GameOver,
        p is BetweenWave ==> p.ticked(dt)->time_remaining <= p->time_remaining,
        p is BetweenWave && p->time_remaining <= dt ==> p.ticked(dt)->time_remaining == 0,
{
}

} // verus!
