//! Names of the animations in the configuration file and the keys they stand for.
use vstd::prelude::*;
use vstd::string::StrSliceExecFns;

verus! {

/// Animation state of a player.
#[derive(Debug, Clone, Copy, PartialEq, Eq, Structural)]
pub enum PlayerState {
    Idle,
    Run,
    Dash,
    Attack,
    Die,
}

/// Animation state of an enemy.
#[derive(Debug, Clone, Copy, PartialEq, Eq, Structural)]
pub enum EnemyState {
    Idle,
    Run,
    Attack,
    Die,
}

/// Animation state of a boss.
#[derive(Debug, Clone, Copy, PartialEq, Eq, Structural)]
pub enum BossState {
    Idle,
    Attack,
    Run,
    Die,
}

/// Kind of a boss.
#[derive(Debug, Clone, Copy, PartialEq, Eq, Structural)]
pub enum BossKind {
    Big,
    Sorcerer,
    Fast,
    Tank,
}

/// Which animation an entity plays.
#[derive(Debug, Clone, Copy, PartialEq, Eq, Structural)]
pub enum AnimKey {
    Player(PlayerState),
    Enemy(EnemyState),
    Boss(BossKind, BossState),
    Coin,
    Projectile,
}

/// Kind of an entity of the world.
#[derive(Debug, Clone, Copy, PartialEq, Eq, Structural)]
pub enum EntityKind {
    Player,
    Enemy,
    Boss(BossKind),
    Coin,
    Projectile,
}

/// Whether two strings are equal.
pub fn str_eq(a: &str, b: &str) -> (r: bool)
    ensures
        r == (a@ == b@),
{
    let n = a.unicode_len();
    let m = b.unicode_len();
    if n != m {
        return false;
    }
    let mut i: usize = 0;
    while i < n
        invariant
            n == a@.len(),
            m == b@.len(),
            n == m,
            i <= n,
            forall|j: int| 0 <= j < i ==> a@[j] == b@[j],
        decreases n - i,
    {
        if a.get_char(i) != b.get_char(i) {
            return false;
        }
        i = i + 1;
    }
    proof {
        assert(a@ =~= b@);
    }
    true
}

/// The name of each animation in the configuration file.
pub open spec fn key_name(k: AnimKey) -> Seq<char> {
    match k {
        AnimKey::Player(PlayerState::Idle) => "player_idle"@,
        AnimKey::Player(PlayerState::Run) => "player_run"@,
        AnimKey::Player(PlayerState::Dash) => "player_dash"@,
        AnimKey::Player(PlayerState::Attack) => "player_attack"@,
        AnimKey::Player(PlayerState::Die) => "player_die"@,
        AnimKey::Enemy(EnemyState::Idle) => "enemy_idle"@,
        AnimKey::Enemy(EnemyState::Run) => "enemy_run"@,
        AnimKey::Enemy(EnemyState::Attack) => "enemy_attack"@,
        AnimKey::Enemy(EnemyState::Die) => "enemy_died"@,
        AnimKey::Boss(BossKind::Big, BossState::Idle) => "big_boss_idle"@,
        AnimKey::Boss(BossKind::Big, BossState::Run) => "big_boss_run"@,
        AnimKey::Boss(BossKind::Big, BossState::Attack) => "big_boss_attack"@,
        AnimKey::Boss(BossKind::Big, BossState::Die) => "big_boss_die"@,
        AnimKey::Boss(BossKind::Sorcerer, BossState::Idle) => "sorcerer_boss_idle"@,
        AnimKey::Boss(BossKind::Sorcerer, BossState::Run) => "sorcerer_boss_run"@,
        AnimKey::Boss(BossKind::Sorcerer, BossState::Attack) => "sorcerer_boss_attack"@,
        AnimKey::Boss(BossKind::Sorcerer, BossState::Die) => "sorcerer_boss_die"@,
        AnimKey::Boss(BossKind::Fast, BossState::Idle) => "fast_boss_idle"@,
        AnimKey::Boss(BossKind::Fast, BossState::Run) => "fast_boss_run"@,
        AnimKey::Boss(BossKind::Fast, BossState::Attack) => "fast_boss_attack"@,
        AnimKey::Boss(BossKind::Fast, BossState::Die) => "fast_boss_die"@,
        AnimKey::Boss(BossKind::Tank, BossState::Idle) => "tank_boss_idle"@,
        AnimKey::Boss(BossKind::Tank, BossState::Run) => "tank_boss_run"@,
        AnimKey::Boss(BossKind::Tank, BossState::Attack) => "tank_boss_attack"@,
        AnimKey::Boss(BossKind::Tank, BossState::Die) => "tank_boss_die"@,
        AnimKey::Coin => "coin"@,
        AnimKey::Projectile => "projectile"@,
    }
}
/// The animation a configuration name stands for, if any.
pub open spec fn parse_key(s: Seq<char>) -> Option<AnimKey> {
    if s == "player_idle"@ {
        Some(AnimKey::Player(PlayerState::Idle))
    } else if s == "player_run"@ {
        Some(AnimKey::Player(PlayerState::Run))
    } else if s == "player_dash"@ {
        Some(AnimKey::Player(PlayerState::Dash))
    } else if s == "player_attack"@ {
        Some(AnimKey::Player(PlayerState::Attack))
    } else if s == "player_die"@ {
        Some(AnimKey::Player(PlayerState::Die))
    } else if s == "enemy_idle"@ {
        Some(AnimKey::Enemy(EnemyState::Idle))
    } else if s == "enemy_run"@ {
        Some(AnimKey::Enemy(EnemyState::Run))
    } else if s == "enemy_attack"@ {
        Some(AnimKey::Enemy(EnemyState::Attack))
    } else if s == "enemy_died"@ {
        Some(AnimKey::Enemy(EnemyState::Die))
    } else if s == "big_boss_idle"@ {
        Some(AnimKey::Boss(BossKind::Big, BossState::Idle))
    } else if s == "big_boss_run"@ {
        Some(AnimKey::Boss(BossKind::Big, BossState::Run))
    } else if s == "big_boss_attack"@ {
        Some(AnimKey::Boss(BossKind::Big, BossState::Attack))
    } else if s == "big_boss_die"@ {
        Some(AnimKey::Boss(BossKind::Big, BossState::Die))
    } else if s == "sorcerer_boss_idle"@ {
        Some(AnimKey::Boss(BossKind::Sorcerer, BossState::Idle))
    } else if s == "sorcerer_boss_run"@ {
        Some(AnimKey::Boss(BossKind::Sorcerer, BossState::Run))
    } else if s == "sorcerer_boss_attack"@ {
        Some(AnimKey::Boss(BossKind::Sorcerer, BossState::Attack))
    } else if s == "sorcerer_boss_die"@ {
        Some(AnimKey::Boss(BossKind::Sorcerer, BossState::Die))
    } else if s == "fast_boss_idle"@ {
        Some(AnimKey::Boss(BossKind::Fast, BossState::Idle))
    } else if s == "fast_boss_run"@ {
        Some(AnimKey::Boss(BossKind::Fast, BossState::Run))
    } else if s == "fast_boss_attack"@ {
        Some(AnimKey::Boss(BossKind::Fast, BossState::Attack))
    } else if s == "fast_boss_die"@ {
        Some(AnimKey::Boss(BossKind::Fast, BossState::Die))
    } else if s == "tank_boss_idle"@ {
        Some(AnimKey::Boss(BossKind::Tank, BossState::Idle))
    } else if s == "tank_boss_run"@ {
        Some(AnimKey::Boss(BossKind::Tank, BossState::Run))
    } else if s == "tank_boss_attack"@ {
        Some(AnimKey::Boss(BossKind::Tank, BossState::Attack))
    } else if s == "tank_boss_die"@ {
        Some(AnimKey::Boss(BossKind::Tank, BossState::Die))
    } else if s == "coin"@ {
        Some(AnimKey::Coin)
    } else if s == "projectile"@ {
        Some(AnimKey::Projectile)
    } else {
        None
    }
}

/// The animation a configuration name stands for, among those of the
/// characters (the coin and the projectile are not recognised).
pub open spec fn parse_id(s: Seq<char>) -> Option<AnimKey> {
    if s == "player_idle"@ {
        Some(AnimKey::Player(PlayerState::Idle))
    } else if s == "player_run"@ {
        Some(AnimKey::Player(PlayerState::Run))
    } else if s == "player_dash"@ {
        Some(AnimKey::Player(PlayerState::Dash))
    } else if s == "player_attack"@ {
        Some(AnimKey::Player(PlayerState::Attack))
    } else if s == "player_die"@ {
        Some(AnimKey::Player(PlayerState::Die))
    } else if s == "enemy_idle"@ {
        Some(AnimKey::Enemy(EnemyState::Idle))
    } else if s == "enemy_run"@ {
        Some(AnimKey::Enemy(EnemyState::Run))
    } else if s == "enemy_attack"@ {
        Some(AnimKey::Enemy(EnemyState::Attack))
    } else if s == "enemy_died"@ {
        Some(AnimKey::Enemy(EnemyState::Die))
    } else if s == "big_boss_idle"@ {
        Some(AnimKey::Boss(BossKind::Big, BossState::Idle))
    } else if s == "big_boss_run"@ {
        Some(AnimKey::Boss(BossKind::Big, BossState::Run))
    } else if s == "big_boss_attack"@ {
        Some(AnimKey::Boss(BossKind::Big, BossState::Attack))
    } else if s == "big_boss_die"@ {
        Some(AnimKey::Boss(BossKind::Big, BossState::Die))
    } else if s == "sorcerer_boss_idle"@ {
        Some(AnimKey::Boss(BossKind::Sorcerer, BossState::Idle))
    } else if s == "sorcerer_boss_run"@ {
        Some(AnimKey::Boss(BossKind::Sorcerer, BossState::Run))
    } else if s == "sorcerer_boss_attack"@ {
        Some(AnimKey::Boss(BossKind::Sorcerer, BossState::Attack))
    } else if s == "sorcerer_boss_die"@ {
        Some(AnimKey::Boss(BossKind::Sorcerer, BossState::Die))
    } else if s == "fast_boss_idle"@ {
        Some(AnimKey::Boss(BossKind::Fast, BossState::Idle))
    } else if s == "fast_boss_run"@ {
        Some(AnimKey::Boss(BossKind::Fast, BossState::Run))
    } else if s == "fast_boss_attack"@ {
        Some(AnimKey::Boss(BossKind::Fast, BossState::Attack))
    } else if s == "fast_boss_die"@ {
        Some(AnimKey::Boss(BossKind::Fast, BossState::Die))
    } else if s == "tank_boss_idle"@ {
        Some(AnimKey::Boss(BossKind::Tank, BossState::Idle))
    } else if s == "tank_boss_run"@ {
        Some(AnimKey::Boss(BossKind::Tank, BossState::Run))
    } else if s == "tank_boss_attack"@ {
        Some(AnimKey::Boss(BossKind::Tank, BossState::Attack))
    } else if s == "tank_boss_die"@ {
        Some(AnimKey::Boss(BossKind::Tank, BossState::Die))
    } else {
        None
    }
}

impl AnimKey {
    /// The animation a configuration name stands for.
    pub fn try_from(key: &str) -> (r: Result<AnimKey, &'static str>)
        ensures
            match parse_key(key@) {
                Some(k) => r == Ok::<AnimKey, &'static str>(k),
                None => r is Err && r->Err_0@ == "Clé d'animation non reconnue"@,
            },
    {
        if str_eq(key, "player_idle") {
            return Ok(AnimKey::Player(PlayerState::Idle));
        }
        if str_eq(key, "player_run") {
            return Ok(AnimKey::Player(PlayerState::Run));
        }
        if str_eq(key, "player_dash") {
            return Ok(AnimKey::Player(PlayerState::Dash));
        }
        if str_eq(key, "player_attack") {
            return Ok(AnimKey::Player(PlayerState::Attack));
        }
        if str_eq(key, "player_die") {
            return Ok(AnimKey::Player(PlayerState::Die));
        }
        if str_eq(key, "enemy_idle") {
            return Ok(AnimKey::Enemy(EnemyState::Idle));
        }
        if str_eq(key, "enemy_run") {
            return Ok(AnimKey::Enemy(EnemyState::Run));
        }
        if str_eq(key, "enemy_attack") {
            return Ok(AnimKey::Enemy(EnemyState::Attack));
        }
        if str_eq(key, "enemy_died") {
            return Ok(AnimKey::Enemy(EnemyState::Die));
        }
        if str_eq(key, "big_boss_idle") {
            return Ok(AnimKey::Boss(BossKind::Big, BossState::Idle));
        }
        if str_eq(key, "big_boss_run") {
            return Ok(AnimKey::Boss(BossKind::Big, BossState::Run));
        }
        if str_eq(key, "big_boss_attack") {
            return Ok(AnimKey::Boss(BossKind::Big, BossState::Attack));
        }
        if str_eq(key, "big_boss_die") {
            return Ok(AnimKey::Boss(BossKind::Big, BossState::Die));
        }
        if str_eq(key, "sorcerer_boss_idle") {
            return Ok(AnimKey::Boss(BossKind::Sorcerer, BossState::Idle));
        }
        if str_eq(key, "sorcerer_boss_run") {
            return Ok(AnimKey::Boss(BossKind::Sorcerer, BossState::Run));
        }
        if str_eq(key, "sorcerer_boss_attack") {
            return Ok(AnimKey::Boss(BossKind::Sorcerer, BossState::Attack));
        }
        if str_eq(key, "sorcerer_boss_die") {
            return Ok(AnimKey::Boss(BossKind::Sorcerer, BossState::Die));
        }
        if str_eq(key, "fast_boss_idle") {
            return Ok(AnimKey::Boss(BossKind::Fast, BossState::Idle));
        }
        if str_eq(key, "fast_boss_run") {
            return Ok(AnimKey::Boss(BossKind::Fast, BossState::Run));
        }
        if str_eq(key, "fast_boss_attack") {
            return Ok(AnimKey::Boss(BossKind::Fast, BossState::Attack));
        }
        if str_eq(key, "fast_boss_die") {
            return Ok(AnimKey::Boss(BossKind::Fast, BossState::Die));
        }
        if str_eq(key, "tank_boss_idle") {
            return Ok(AnimKey::Boss(BossKind::Tank, BossState::Idle));
        }
        if str_eq(key, "tank_boss_run") {
            return Ok(AnimKey::Boss(BossKind::Tank, BossState::Run));
        }
        if str_eq(key, "tank_boss_attack") {
            return Ok(AnimKey::Boss(BossKind::Tank, BossState::Attack));
        }
        if str_eq(key, "tank_boss_die") {
            return Ok(AnimKey::Boss(BossKind::Tank, BossState::Die));
        }
        if str_eq(key, "coin") {
            return Ok(AnimKey::Coin);
        }
        if str_eq(key, "projectile") {
            return Ok(AnimKey::Projectile);
        }
        Err("Clé d'animation non reconnue")
    }

}

/// The character animation a configuration name stands for.
pub fn key_to_id(key: &str) -> (r: Result<AnimKey, &'static str>)
    ensures
        match parse_id(key@) {
            Some(k) => r == Ok::<AnimKey, &'static str>(k),
            None => r is Err && r->Err_0@ == "Clé anim non reconnu"@,
        },
{
    if str_eq(key, "player_idle") {
        return Ok(AnimKey::Player(PlayerState::Idle));
    }
    if str_eq(key, "player_run") {
        return Ok(AnimKey::Player(PlayerState::Run));
    }
    if str_eq(key, "player_dash") {
        return Ok(AnimKey::Player(PlayerState::Dash));
    }
    if str_eq(key, "player_attack") {
        return Ok(AnimKey::Player(PlayerState::Attack));
    }
    if str_eq(key, "player_die") {
        return Ok(AnimKey::Player(PlayerState::Die));
    }
    if str_eq(key, "enemy_idle") {
        return Ok(AnimKey::Enemy(EnemyState::Idle));
    }
    if str_eq(key, "enemy_run") {
        return Ok(AnimKey::Enemy(EnemyState::Run));
    }
    if str_eq(key, "enemy_attack") {
        return Ok(AnimKey::Enemy(EnemyState::Attack));
    }
    if str_eq(key, "enemy_died") {
        return Ok(AnimKey::Enemy(EnemyState::Die));
    }
    if str_eq(key, "big_boss_idle") {
        return Ok(AnimKey::Boss(BossKind::Big, BossState::Idle));
    }
    if str_eq(key, "big_boss_run") {
        return Ok(AnimKey::Boss(BossKind::Big, BossState::Run));
    }
    if str_eq(key, "big_boss_attack") {
        return Ok(AnimKey::Boss(BossKind::Big, BossState::Attack));
    }
    if str_eq(key, "big_boss_die") {
        return Ok(AnimKey::Boss(BossKind::Big, BossState::Die));
    }
    if str_eq(key, "sorcerer_boss_idle") {
        return Ok(AnimKey::Boss(BossKind::Sorcerer, BossState::Idle));
    }
    if str_eq(key, "sorcerer_boss_run") {
        return Ok(AnimKey::Boss(BossKind::Sorcerer, BossState::Run));
    }
    if str_eq(key, "sorcerer_boss_attack") {
        return Ok(AnimKey::Boss(BossKind::Sorcerer, BossState::Attack));
    }
    if str_eq(key, "sorcerer_boss_die") {
        return Ok(AnimKey::Boss(BossKind::Sorcerer, BossState::Die));
    }
    if str_eq(key, "fast_boss_idle") {
        return Ok(AnimKey::Boss(BossKind::Fast, BossState::Idle));
    }
    if str_eq(key, "fast_boss_run") {
        return Ok(AnimKey::Boss(BossKind::Fast, BossState::Run));
    }
    if str_eq(key, "fast_boss_attack") {
        return Ok(AnimKey::Boss(BossKind::Fast, BossState::Attack));
    }
    if str_eq(key, "fast_boss_die") {
        return Ok(AnimKey::Boss(BossKind::Fast, BossState::Die));
    }
    if str_eq(key, "tank_boss_idle") {
        return Ok(AnimKey::Boss(BossKind::Tank, BossState::Idle));
    }
    if str_eq(key, "tank_boss_run") {
        return Ok(AnimKey::Boss(BossKind::Tank, BossState::Run));
    }
    if str_eq(key, "tank_boss_attack") {
        return Ok(AnimKey::Boss(BossKind::Tank, BossState::Attack));
    }
    if str_eq(key, "tank_boss_die") {
        return Ok(AnimKey::Boss(BossKind::Tank, BossState::Die));
    }
    Err("Clé anim non reconnu")
}

/// The configuration name of `id`; the coin and the projectile have none (the
/// empty string).
pub fn id_to_key(id: &AnimKey) -> (name: &'static str)
    ensures
        name@ == if id is Coin || id is Projectile {
            ""@
        } else {
            key_name(*id)
        },
{
    match id {
        AnimKey::Player(PlayerState::Idle) => "player_idle",
        AnimKey::Player(PlayerState::Run) => "player_run",
        AnimKey::Player(PlayerState::Dash) => "player_dash",
        AnimKey::Player(PlayerState::Attack) => "player_attack",
        AnimKey::Player(PlayerState::Die) => "player_die",
        AnimKey::Enemy(EnemyState::Idle) => "enemy_idle",
        AnimKey::Enemy(EnemyState::Run) => "enemy_run",
        AnimKey::Enemy(EnemyState::Attack) => "enemy_attack",
        AnimKey::Enemy(EnemyState::Die) => "enemy_died",
        AnimKey::Boss(BossKind::Big, BossState::Idle) => "big_boss_idle",
        AnimKey::Boss(BossKind::Big, BossState::Run) => "big_boss_run",
        AnimKey::Boss(BossKind::Big, BossState::Attack) => "big_boss_attack",
        AnimKey::Boss(BossKind::Big, BossState::Die) => "big_boss_die",
        AnimKey::Boss(BossKind::Sorcerer, BossState::Idle) => "sorcerer_boss_idle",
        AnimKey::Boss(BossKind::Sorcerer, BossState::Run) => "sorcerer_boss_run",
        AnimKey::Boss(BossKind::Sorcerer, BossState::Attack) => "sorcerer_boss_attack",
        AnimKey::Boss(BossKind::Sorcerer, BossState::Die) => "sorcerer_boss_die",
        AnimKey::Boss(BossKind::Fast, BossState::Idle) => "fast_boss_idle",
        AnimKey::Boss(BossKind::Fast, BossState::Run) => "fast_boss_run",
        AnimKey::Boss(BossKind::Fast, BossState::Attack) => "fast_boss_attack",
        AnimKey::Boss(BossKind::Fast, BossState::Die) => "fast_boss_die",
        AnimKey::Boss(BossKind::Tank, BossState::Idle) => "tank_boss_idle",
        AnimKey::Boss(BossKind::Tank, BossState::Run) => "tank_boss_run",
        AnimKey::Boss(BossKind::Tank, BossState::Attack) => "tank_boss_attack",
        AnimKey::Boss(BossKind::Tank, BossState::Die) => "tank_boss_die",
        AnimKey::Coin => "",
        AnimKey::Projectile => "",
    }
}

/// The animation an entity plays, given whether it moved since the previous
/// snapshot: players and enemies run while moving, bosses idle.
pub fn resolve_anim(kind: EntityKind, moving: bool) -> (k: AnimKey)
    ensures
        k == match kind {
            EntityKind::Player => AnimKey::Player(if moving { PlayerState::Run } else { PlayerState::Idle }),
            EntityKind::Enemy => AnimKey::Enemy(if moving { EnemyState::Run } else { EnemyState::Idle }),
            EntityKind::Boss(b) => AnimKey::Boss(b, BossState::Idle),
            EntityKind::Coin => AnimKey::Coin,
            EntityKind::Projectile => AnimKey::Projectile,
        },
{
    match kind {
        EntityKind::Player => AnimKey::Player(
            if moving {
                PlayerState::Run
            } else {
                PlayerState::Idle
            },
        ),
        EntityKind::Enemy => AnimKey::Enemy(
            if moving {
                EnemyState::Run
            } else {
                EnemyState::Idle
            },
        ),
        EntityKind::Boss(b) => AnimKey::Boss(b, BossState::Idle),
        EntityKind::Coin => AnimKey::Coin,
        EntityKind::Projectile => AnimKey::Projectile,
    }
}

proof fn lemma_names_differ()
    ensures
        "player_run"@ != "player_idle"@,
        "player_dash"@ != "player_idle"@,
        "player_dash"@ != "player_run"@,
        "player_attack"@ != "player_idle"@,
        "player_attack"@ != "player_run"@,
        "player_attack"@ != "player_dash"@,
        "player_die"@ != "player_idle"@,
        "player_die"@ != "player_run"@,
        "player_die"@ != "player_dash"@,
        "player_die"@ != "player_attack"@,
        "enemy_idle"@ != "player_idle"@,
        "enemy_idle"@ != "player_run"@,
        "enemy_idle"@ != "player_dash"@,
        "enemy_idle"@ != "player_attack"@,
        "enemy_idle"@ != "player_die"@,
        "enemy_run"@ != "player_idle"@,
        "enemy_run"@ != "player_run"@,
        "enemy_run"@ != "player_dash"@,
        "enemy_run"@ != "player_attack"@,
        "enemy_run"@ != "player_die"@,
        "enemy_run"@ != "enemy_idle"@,
        "enemy_attack"@ != "player_idle"@,
        "enemy_attack"@ != "player_run"@,
        "enemy_attack"@ != "player_dash"@,
        "enemy_attack"@ != "player_attack"@,
        "enemy_attack"@ != "player_die"@,
        "enemy_attack"@ != "enemy_idle"@,
        "enemy_attack"@ != "enemy_run"@,
        "enemy_died"@ != "player_idle"@,
        "enemy_died"@ != "player_run"@,
        "enemy_died"@ != "player_dash"@,
        "enemy_died"@ != "player_attack"@,
        "enemy_died"@ != "player_die"@,
        "enemy_died"@ != "enemy_idle"@,
        "enemy_died"@ != "enemy_run"@,
        "enemy_died"@ != "enemy_attack"@,
        "big_boss_idle"@ != "player_idle"@,
        "big_boss_idle"@ != "player_run"@,
        "big_boss_idle"@ != "player_dash"@,
        "big_boss_idle"@ != "player_attack"@,
        "big_boss_idle"@ != "player_die"@,
        "big_boss_idle"@ != "enemy_idle"@,
        "big_boss_idle"@ != "enemy_run"@,
        "big_boss_idle"@ != "enemy_attack"@,
        "big_boss_idle"@ != "enemy_died"@,
        "big_boss_run"@ != "player_idle"@,
        "big_boss_run"@ != "player_run"@,
        "big_boss_run"@ != "player_dash"@,
        "big_boss_run"@ != "player_attack"@,
        "big_boss_run"@ != "player_die"@,
        "big_boss_run"@ != "enemy_idle"@,
        "big_boss_run"@ != "enemy_run"@,
        "big_boss_run"@ != "enemy_attack"@,
        "big_boss_run"@ != "enemy_died"@,
        "big_boss_run"@ != "big_boss_idle"@,
        "big_boss_attack"@ != "player_idle"@,
        "big_boss_attack"@ != "player_run"@,
        "big_boss_attack"@ != "player_dash"@,
        "big_boss_attack"@ != "player_attack"@,
        "big_boss_attack"@ != "player_die"@,
        "big_boss_attack"@ != "enemy_idle"@,
        "big_boss_attack"@ != "enemy_run"@,
        "big_boss_attack"@ != "enemy_attack"@,
        "big_boss_attack"@ != "enemy_died"@,
        "big_boss_attack"@ != "big_boss_idle"@,
        "big_boss_attack"@ != "big_boss_run"@,
        "big_boss_die"@ != "player_idle"@,
        "big_boss_die"@ != "player_run"@,
        "big_boss_die"@ != "player_dash"@,
        "big_boss_die"@ != "player_attack"@,
        "big_boss_die"@ != "player_die"@,
        "big_boss_die"@ != "enemy_idle"@,
        "big_boss_die"@ != "enemy_run"@,
        "big_boss_die"@ != "enemy_attack"@,
        "big_boss_die"@ != "enemy_died"@,
        "big_boss_die"@ != "big_boss_idle"@,
        "big_boss_die"@ != "big_boss_run"@,
        "big_boss_die"@ != "big_boss_attack"@,
        "sorcerer_boss_idle"@ != "player_idle"@,
        "sorcerer_boss_idle"@ != "player_run"@,
        "sorcerer_boss_idle"@ != "player_dash"@,
        "sorcerer_boss_idle"@ != "player_attack"@,
        "sorcerer_boss_idle"@ != "player_die"@,
        "sorcerer_boss_idle"@ != "enemy_idle"@,
        "sorcerer_boss_idle"@ != "enemy_run"@,
        "sorcerer_boss_idle"@ != "enemy_attack"@,
        "sorcerer_boss_idle"@ != "enemy_died"@,
        "sorcerer_boss_idle"@ != "big_boss_idle"@,
        "sorcerer_boss_idle"@ != "big_boss_run"@,
        "sorcerer_boss_idle"@ != "big_boss_attack"@,
        "sorcerer_boss_idle"@ != "big_boss_die"@,
        "sorcerer_boss_run"@ != "player_idle"@,
        "sorcerer_boss_run"@ != "player_run"@,
        "sorcerer_boss_run"@ != "player_dash"@,
        "sorcerer_boss_run"@ != "player_attack"@,
        "sorcerer_boss_run"@ != "player_die"@,
        "sorcerer_boss_run"@ != "enemy_idle"@,
        "sorcerer_boss_run"@ != "enemy_run"@,
        "sorcerer_boss_run"@ != "enemy_attack"@,
        "sorcerer_boss_run"@ != "enemy_died"@,
        "sorcerer_boss_run"@ != "big_boss_idle"@,
        "sorcerer_boss_run"@ != "big_boss_run"@,
        "sorcerer_boss_run"@ != "big_boss_attack"@,
        "sorcerer_boss_run"@ != "big_boss_die"@,
        "sorcerer_boss_run"@ != "sorcerer_boss_idle"@,
        "sorcerer_boss_attack"@ != "player_idle"@,
        "sorcerer_boss_attack"@ != "player_run"@,
        "sorcerer_boss_attack"@ != "player_dash"@,
        "sorcerer_boss_attack"@ != "player_attack"@,
        "sorcerer_boss_attack"@ != "player_die"@,
        "sorcerer_boss_attack"@ != "enemy_idle"@,
        "sorcerer_boss_attack"@ != "enemy_run"@,
        "sorcerer_boss_attack"@ != "enemy_attack"@,
        "sorcerer_boss_attack"@ != "enemy_died"@,
        "sorcerer_boss_attack"@ != "big_boss_idle"@,
        "sorcerer_boss_attack"@ != "big_boss_run"@,
        "sorcerer_boss_attack"@ != "big_boss_attack"@,
        "sorcerer_boss_attack"@ != "big_boss_die"@,
        "sorcerer_boss_attack"@ != "sorcerer_boss_idle"@,
        "sorcerer_boss_attack"@ != "sorcerer_boss_run"@,
        "sorcerer_boss_die"@ != "player_idle"@,
        "sorcerer_boss_die"@ != "player_run"@,
        "sorcerer_boss_die"@ != "player_dash"@,
        "sorcerer_boss_die"@ != "player_attack"@,
        "sorcerer_boss_die"@ != "player_die"@,
        "sorcerer_boss_die"@ != "enemy_idle"@,
        "sorcerer_boss_die"@ != "enemy_run"@,
        "sorcerer_boss_die"@ != "enemy_attack"@,
        "sorcerer_boss_die"@ != "enemy_died"@,
        "sorcerer_boss_die"@ != "big_boss_idle"@,
        "sorcerer_boss_die"@ != "big_boss_run"@,
        "sorcerer_boss_die"@ != "big_boss_attack"@,
        "sorcerer_boss_die"@ != "big_boss_die"@,
        "sorcerer_boss_die"@ != "sorcerer_boss_idle"@,
        "sorcerer_boss_die"@ != "sorcerer_boss_run"@,
        "sorcerer_boss_die"@ != "sorcerer_boss_attack"@,
        "fast_boss_idle"@ != "player_idle"@,
        "fast_boss_idle"@ != "player_run"@,
        "fast_boss_idle"@ != "player_dash"@,
        "fast_boss_idle"@ != "player_attack"@,
        "fast_boss_idle"@ != "player_die"@,
        "fast_boss_idle"@ != "enemy_idle"@,
        "fast_boss_idle"@ != "enemy_run"@,
        "fast_boss_idle"@ != "enemy_attack"@,
        "fast_boss_idle"@ != "enemy_died"@,
        "fast_boss_idle"@ != "big_boss_idle"@,
        "fast_boss_idle"@ != "big_boss_run"@,
        "fast_boss_idle"@ != "big_boss_attack"@,
        "fast_boss_idle"@ != "big_boss_die"@,
        "fast_boss_idle"@ != "sorcerer_boss_idle"@,
        "fast_boss_idle"@ != "sorcerer_boss_run"@,
        "fast_boss_idle"@ != "sorcerer_boss_attack"@,
        "fast_boss_idle"@ != "sorcerer_boss_die"@,
        "fast_boss_run"@ != "player_idle"@,
        "fast_boss_run"@ != "player_run"@,
        "fast_boss_run"@ != "player_dash"@,
        "fast_boss_run"@ != "player_attack"@,
        "fast_boss_run"@ != "player_die"@,
        "fast_boss_run"@ != "enemy_idle"@,
        "fast_boss_run"@ != "enemy_run"@,
        "fast_boss_run"@ != "enemy_attack"@,
        "fast_boss_run"@ != "enemy_died"@,
        "fast_boss_run"@ != "big_boss_idle"@,
        "fast_boss_run"@ != "big_boss_run"@,
        "fast_boss_run"@ != "big_boss_attack"@,
        "fast_boss_run"@ != "big_boss_die"@,
        "fast_boss_run"@ != "sorcerer_boss_idle"@,
        "fast_boss_run"@ != "sorcerer_boss_run"@,
        "fast_boss_run"@ != "sorcerer_boss_attack"@,
        "fast_boss_run"@ != "sorcerer_boss_die"@,
        "fast_boss_run"@ != "fast_boss_idle"@,
        "fast_boss_attack"@ != "player_idle"@,
        "fast_boss_attack"@ != "player_run"@,
        "fast_boss_attack"@ != "player_dash"@,
        "fast_boss_attack"@ != "player_attack"@,
        "fast_boss_attack"@ != "player_die"@,
        "fast_boss_attack"@ != "enemy_idle"@,
        "fast_boss_attack"@ != "enemy_run"@,
        "fast_boss_attack"@ != "enemy_attack"@,
        "fast_boss_attack"@ != "enemy_died"@,
        "fast_boss_attack"@ != "big_boss_idle"@,
        "fast_boss_attack"@ != "big_boss_run"@,
        "fast_boss_attack"@ != "big_boss_attack"@,
        "fast_boss_attack"@ != "big_boss_die"@,
        "fast_boss_attack"@ != "sorcerer_boss_idle"@,
        "fast_boss_attack"@ != "sorcerer_boss_run"@,
        "fast_boss_attack"@ != "sorcerer_boss_attack"@,
        "fast_boss_attack"@ != "sorcerer_boss_die"@,
        "fast_boss_attack"@ != "fast_boss_idle"@,
        "fast_boss_attack"@ != "fast_boss_run"@,
        "fast_boss_die"@ != "player_idle"@,
        "fast_boss_die"@ != "player_run"@,
        "fast_boss_die"@ != "player_dash"@,
        "fast_boss_die"@ != "player_attack"@,
        "fast_boss_die"@ != "player_die"@,
        "fast_boss_die"@ != "enemy_idle"@,
        "fast_boss_die"@ != "enemy_run"@,
        "fast_boss_die"@ != "enemy_attack"@,
        "fast_boss_die"@ != "enemy_died"@,
        "fast_boss_die"@ != "big_boss_idle"@,
        "fast_boss_die"@ != "big_boss_run"@,
        "fast_boss_die"@ != "big_boss_attack"@,
        "fast_boss_die"@ != "big_boss_die"@,
        "fast_boss_die"@ != "sorcerer_boss_idle"@,
        "fast_boss_die"@ != "sorcerer_boss_run"@,
        "fast_boss_die"@ != "sorcerer_boss_attack"@,
        "fast_boss_die"@ != "sorcerer_boss_die"@,
        "fast_boss_die"@ != "fast_boss_idle"@,
        "fast_boss_die"@ != "fast_boss_run"@,
        "fast_boss_die"@ != "fast_boss_attack"@,
        "tank_boss_idle"@ != "player_idle"@,
        "tank_boss_idle"@ != "player_run"@,
        "tank_boss_idle"@ != "player_dash"@,
        "tank_boss_idle"@ != "player_attack"@,
        "tank_boss_idle"@ != "player_die"@,
        "tank_boss_idle"@ != "enemy_idle"@,
        "tank_boss_idle"@ != "enemy_run"@,
        "tank_boss_idle"@ != "enemy_attack"@,
        "tank_boss_idle"@ != "enemy_died"@,
        "tank_boss_idle"@ != "big_boss_idle"@,
        "tank_boss_idle"@ != "big_boss_run"@,
        "tank_boss_idle"@ != "big_boss_attack"@,
        "tank_boss_idle"@ != "big_boss_die"@,
        "tank_boss_idle"@ != "sorcerer_boss_idle"@,
        "tank_boss_idle"@ != "sorcerer_boss_run"@,
        "tank_boss_idle"@ != "sorcerer_boss_attack"@,
        "tank_boss_idle"@ != "sorcerer_boss_die"@,
        "tank_boss_idle"@ != "fast_boss_idle"@,
        "tank_boss_idle"@ != "fast_boss_run"@,
        "tank_boss_idle"@ != "fast_boss_attack"@,
        "tank_boss_idle"@ != "fast_boss_die"@,
        "tank_boss_run"@ != "player_idle"@,
        "tank_boss_run"@ != "player_run"@,
        "tank_boss_run"@ != "player_dash"@,
        "tank_boss_run"@ != "player_attack"@,
        "tank_boss_run"@ != "player_die"@,
        "tank_boss_run"@ != "enemy_idle"@,
        "tank_boss_run"@ != "enemy_run"@,
        "tank_boss_run"@ != "enemy_attack"@,
        "tank_boss_run"@ != "enemy_died"@,
        "tank_boss_run"@ != "big_boss_idle"@,
        "tank_boss_run"@ != "big_boss_run"@,
        "tank_boss_run"@ != "big_boss_attack"@,
        "tank_boss_run"@ != "big_boss_die"@,
        "tank_boss_run"@ != "sorcerer_boss_idle"@,
        "tank_boss_run"@ != "sorcerer_boss_run"@,
        "tank_boss_run"@ != "sorcerer_boss_attack"@,
        "tank_boss_run"@ != "sorcerer_boss_die"@,
        "tank_boss_run"@ != "fast_boss_idle"@,
        "tank_boss_run"@ != "fast_boss_run"@,
        "tank_boss_run"@ != "fast_boss_attack"@,
        "tank_boss_run"@ != "fast_boss_die"@,
        "tank_boss_run"@ != "tank_boss_idle"@,
        "tank_boss_attack"@ != "player_idle"@,
        "tank_boss_attack"@ != "player_run"@,
        "tank_boss_attack"@ != "player_dash"@,
        "tank_boss_attack"@ != "player_attack"@,
        "tank_boss_attack"@ != "player_die"@,
        "tank_boss_attack"@ != "enemy_idle"@,
        "tank_boss_attack"@ != "enemy_run"@,
        "tank_boss_attack"@ != "enemy_attack"@,
        "tank_boss_attack"@ != "enemy_died"@,
        "tank_boss_attack"@ != "big_boss_idle"@,
        "tank_boss_attack"@ != "big_boss_run"@,
        "tank_boss_attack"@ != "big_boss_attack"@,
        "tank_boss_attack"@ != "big_boss_die"@,
        "tank_boss_attack"@ != "sorcerer_boss_idle"@,
        "tank_boss_attack"@ != "sorcerer_boss_run"@,
        "tank_boss_attack"@ != "sorcerer_boss_attack"@,
        "tank_boss_attack"@ != "sorcerer_boss_die"@,
        "tank_boss_attack"@ != "fast_boss_idle"@,
        "tank_boss_attack"@ != "fast_boss_run"@,
        "tank_boss_attack"@ != "fast_boss_attack"@,
        "tank_boss_attack"@ != "fast_boss_die"@,
        "tank_boss_attack"@ != "tank_boss_idle"@,
        "tank_boss_attack"@ != "tank_boss_run"@,
        "tank_boss_die"@ != "player_idle"@,
        "tank_boss_die"@ != "player_run"@,
        "tank_boss_die"@ != "player_dash"@,
        "tank_boss_die"@ != "player_attack"@,
        "tank_boss_die"@ != "player_die"@,
        "tank_boss_die"@ != "enemy_idle"@,
        "tank_boss_die"@ != "enemy_run"@,
        "tank_boss_die"@ != "enemy_attack"@,
        "tank_boss_die"@ != "enemy_died"@,
        "tank_boss_die"@ != "big_boss_idle"@,
        "tank_boss_die"@ != "big_boss_run"@,
        "tank_boss_die"@ != "big_boss_attack"@,
        "tank_boss_die"@ != "big_boss_die"@,
        "tank_boss_die"@ != "sorcerer_boss_idle"@,
        "tank_boss_die"@ != "sorcerer_boss_run"@,
        "tank_boss_die"@ != "sorcerer_boss_attack"@,
        "tank_boss_die"@ != "sorcerer_boss_die"@,
        "tank_boss_die"@ != "fast_boss_idle"@,
        "tank_boss_die"@ != "fast_boss_run"@,
        "tank_boss_die"@ != "fast_boss_attack"@,
        "tank_boss_die"@ != "fast_boss_die"@,
        "tank_boss_die"@ != "tank_boss_idle"@,
        "tank_boss_die"@ != "tank_boss_run"@,
        "tank_boss_die"@ != "tank_boss_attack"@,
        "coin"@ != "player_idle"@,
        "coin"@ != "player_run"@,
        "coin"@ != "player_dash"@,
        "coin"@ != "player_attack"@,
        "coin"@ != "player_die"@,
        "coin"@ != "enemy_idle"@,
        "coin"@ != "enemy_run"@,
        "coin"@ != "enemy_attack"@,
        "coin"@ != "enemy_died"@,
        "coin"@ != "big_boss_idle"@,
        "coin"@ != "big_boss_run"@,
        "coin"@ != "big_boss_attack"@,
        "coin"@ != "big_boss_die"@,
        "coin"@ != "sorcerer_boss_idle"@,
        "coin"@ != "sorcerer_boss_run"@,
        "coin"@ != "sorcerer_boss_attack"@,
        "coin"@ != "sorcerer_boss_die"@,
        "coin"@ != "fast_boss_idle"@,
        "coin"@ != "fast_boss_run"@,
        "coin"@ != "fast_boss_attack"@,
        "coin"@ != "fast_boss_die"@,
        "coin"@ != "tank_boss_idle"@,
        "coin"@ != "tank_boss_run"@,
        "coin"@ != "tank_boss_attack"@,
        "coin"@ != "tank_boss_die"@,
        "projectile"@ != "player_idle"@,
        "projectile"@ != "player_run"@,
        "projectile"@ != "player_dash"@,
        "projectile"@ != "player_attack"@,
        "projectile"@ != "player_die"@,
        "projectile"@ != "enemy_idle"@,
        "projectile"@ != "enemy_run"@,
        "projectile"@ != "enemy_attack"@,
        "projectile"@ != "enemy_died"@,
        "projectile"@ != "big_boss_idle"@,
        "projectile"@ != "big_boss_run"@,
        "projectile"@ != "big_boss_attack"@,
        "projectile"@ != "big_boss_die"@,
        "projectile"@ != "sorcerer_boss_idle"@,
        "projectile"@ != "sorcerer_boss_run"@,
        "projectile"@ != "sorcerer_boss_attack"@,
        "projectile"@ != "sorcerer_boss_die"@,
        "projectile"@ != "fast_boss_idle"@,
        "projectile"@ != "fast_boss_run"@,
        "projectile"@ != "fast_boss_attack"@,
        "projectile"@ != "fast_boss_die"@,
        "projectile"@ != "tank_boss_idle"@,
        "projectile"@ != "tank_boss_run"@,
        "projectile"@ != "tank_boss_attack"@,
        "projectile"@ != "tank_boss_die"@,
        "projectile"@ != "coin"@,
{
    reveal_strlit("player_idle");
    reveal_strlit("player_run");
    reveal_strlit("player_dash");
    reveal_strlit("player_attack");
    reveal_strlit("player_die");
    reveal_strlit("enemy_idle");
    reveal_strlit("enemy_run");
    reveal_strlit("enemy_attack");
    reveal_strlit("enemy_died");
    reveal_strlit("big_boss_idle");
    reveal_strlit("big_boss_run");
    reveal_strlit("big_boss_attack");
    reveal_strlit("big_boss_die");
    reveal_strlit("sorcerer_boss_idle");
    reveal_strlit("sorcerer_boss_run");
    reveal_strlit("sorcerer_boss_attack");
    reveal_strlit("sorcerer_boss_die");
    reveal_strlit("fast_boss_idle");
    reveal_strlit("fast_boss_run");
    reveal_strlit("fast_boss_attack");
    reveal_strlit("fast_boss_die");
    reveal_strlit("tank_boss_idle");
    reveal_strlit("tank_boss_run");
    reveal_strlit("tank_boss_attack");
    reveal_strlit("tank_boss_die");
    reveal_strlit("coin");
    reveal_strlit("projectile");
    assert("player_run"@.len() != "player_idle"@.len());
    assert("player_dash"@[7] != "player_idle"@[7]);
    assert("player_dash"@.len() != "player_run"@.len());
    assert("player_attack"@.len() != "player_idle"@.len());
    assert("player_attack"@.len() != "player_run"@.len());
    assert("player_attack"@.len() != "player_dash"@.len());
    assert("player_die"@.len() != "player_idle"@.len());
    assert("player_die"@[7] != "player_run"@[7]);
    assert("player_die"@.len() != "player_dash"@.len());
    assert("player_die"@.len() != "player_attack"@.len());
    assert("enemy_idle"@.len() != "player_idle"@.len());
    assert("enemy_idle"@[0] != "player_run"@[0]);
    assert("enemy_idle"@.len() != "player_dash"@.len());
    assert("enemy_idle"@.len() != "player_attack"@.len());
    assert("enemy_idle"@[0] != "player_die"@[0]);
    assert("enemy_run"@.len() != "player_idle"@.len());
    assert("enemy_run"@.len() != "player_run"@.len());
    assert("enemy_run"@.len() != "player_dash"@.len());
    assert("enemy_run"@.len() != "player_attack"@.len());
    assert("enemy_run"@.len() != "player_die"@.len());
    assert("enemy_run"@.len() != "enemy_idle"@.len());
    assert("enemy_attack"@.len() != "player_idle"@.len());
    assert("enemy_attack"@.len() != "player_run"@.len());
    assert("enemy_attack"@.len() != "player_dash"@.len());
    assert("enemy_attack"@.len() != "player_attack"@.len());
    assert("enemy_attack"@.len() != "player_die"@.len());
    assert("enemy_attack"@.len() != "enemy_idle"@.len());
    assert("enemy_attack"@.len() != "enemy_run"@.len());
    assert("enemy_died"@.len() != "player_idle"@.len());
    assert("enemy_died"@[0] != "player_run"@[0]);
    assert("enemy_died"@.len() != "player_dash"@.len());
    assert("enemy_died"@.len() != "player_attack"@.len());
    assert("enemy_died"@[0] != "player_die"@[0]);
    assert("enemy_died"@[6] != "enemy_idle"@[6]);
    assert("enemy_died"@.len() != "enemy_run"@.len());
    assert("enemy_died"@.len() != "enemy_attack"@.len());
    assert("big_boss_idle"@.len() != "player_idle"@.len());
    assert("big_boss_idle"@.len() != "player_run"@.len());
    assert("big_boss_idle"@.len() != "player_dash"@.len());
    assert("big_boss_idle"@[0] != "player_attack"@[0]);
    assert("big_boss_idle"@.len() != "player_die"@.len());
    assert("big_boss_idle"@.len() != "enemy_idle"@.len());
    assert("big_boss_idle"@.len() != "enemy_run"@.len());
    assert("big_boss_idle"@.len() != "enemy_attack"@.len());
    assert("big_boss_idle"@.len() != "enemy_died"@.len());
    assert("big_boss_run"@.len() != "player_idle"@.len());
    assert("big_boss_run"@.len() != "player_run"@.len());
    assert("big_boss_run"@.len() != "player_dash"@.len());
    assert("big_boss_run"@.len() != "player_attack"@.len());
    assert("big_boss_run"@.len() != "player_die"@.len());
    assert("big_boss_run"@.len() != "enemy_idle"@.len());
    assert("big_boss_run"@.len() != "enemy_run"@.len());
    assert("big_boss_run"@[0] != "enemy_attack"@[0]);
    assert("big_boss_run"@.len() != "enemy_died"@.len());
    assert("big_boss_run"@.len() != "big_boss_idle"@.len());
    assert("big_boss_attack"@.len() != "player_idle"@.len());
    assert("big_boss_attack"@.len() != "player_run"@.len());
    assert("big_boss_attack"@.len() != "player_dash"@.len());
    assert("big_boss_attack"@.len() != "player_attack"@.len());
    assert("big_boss_attack"@.len() != "player_die"@.len());
    assert("big_boss_attack"@.len() != "enemy_idle"@.len());
    assert("big_boss_attack"@.len() != "enemy_run"@.len());
    assert("big_boss_attack"@.len() != "enemy_attack"@.len());
    assert("big_boss_attack"@.len() != "enemy_died"@.len());
    assert("big_boss_attack"@.len() != "big_boss_idle"@.len());
    assert("big_boss_attack"@.len() != "big_boss_run"@.len());
    assert("big_boss_die"@.len() != "player_idle"@.len());
    assert("big_boss_die"@.len() != "player_run"@.len());
    assert("big_boss_die"@.len() != "player_dash"@.len());
    assert("big_boss_die"@.len() != "player_attack"@.len());
    assert("big_boss_die"@.len() != "player_die"@.len());
    assert("big_boss_die"@.len() != "enemy_idle"@.len());
    assert("big_boss_die"@.len() != "enemy_run"@.len());
    assert("big_boss_die"@[0] != "enemy_attack"@[0]);
    assert("big_boss_die"@.len() != "enemy_died"@.len());
    assert("big_boss_die"@.len() != "big_boss_idle"@.len());
    assert("big_boss_die"@[9] != "big_boss_run"@[9]);
    assert("big_boss_die"@.len() != "big_boss_attack"@.len());
    assert("sorcerer_boss_idle"@.len() != "player_idle"@.len());
    assert("sorcerer_boss_idle"@.len() != "player_run"@.len());
    assert("sorcerer_boss_idle"@.len() != "player_dash"@.len());
    assert("sorcerer_boss_idle"@.len() != "player_attack"@.len());
    assert("sorcerer_boss_idle"@.len() != "player_die"@.len());
    assert("sorcerer_boss_idle"@.len() != "enemy_idle"@.len());
    assert("sorcerer_boss_idle"@.len() != "enemy_run"@.len());
    assert("sorcerer_boss_idle"@.len() != "enemy_attack"@.len());
    assert("sorcerer_boss_idle"@.len() != "enemy_died"@.len());
    assert("sorcerer_boss_idle"@.len() != "big_boss_idle"@.len());
    assert("sorcerer_boss_idle"@.len() != "big_boss_run"@.len());
    assert("sorcerer_boss_idle"@.len() != "big_boss_attack"@.len());
    assert("sorcerer_boss_idle"@.len() != "big_boss_die"@.len());
    assert("sorcerer_boss_run"@.len() != "player_idle"@.len());
    assert("sorcerer_boss_run"@.len() != "player_run"@.len());
    assert("sorcerer_boss_run"@.len() != "player_dash"@.len());
    assert("sorcerer_boss_run"@.len() != "player_attack"@.len());
    assert("sorcerer_boss_run"@.len() != "player_die"@.len());
    assert("sorcerer_boss_run"@.len() != "enemy_idle"@.len());
    assert("sorcerer_boss_run"@.len() != "enemy_run"@.len());
    assert("sorcerer_boss_run"@.len() != "enemy_attack"@.len());
    assert("sorcerer_boss_run"@.len() != "enemy_died"@.len());
    assert("sorcerer_boss_run"@.len() != "big_boss_idle"@.len());
    assert("sorcerer_boss_run"@.len() != "big_boss_run"@.len());
    assert("sorcerer_boss_run"@.len() != "big_boss_attack"@.len());
    assert("sorcerer_boss_run"@.len() != "big_boss_die"@.len());
    assert("sorcerer_boss_run"@.len() != "sorcerer_boss_idle"@.len());
    assert("sorcerer_boss_attack"@.len() != "player_idle"@.len());
    assert("sorcerer_boss_attack"@.len() != "player_run"@.len());
    assert("sorcerer_boss_attack"@.len() != "player_dash"@.len());
    assert("sorcerer_boss_attack"@.len() != "player_attack"@.len());
    assert("sorcerer_boss_attack"@.len() != "player_die"@.len());
    assert("sorcerer_boss_attack"@.len() != "enemy_idle"@.len());
    assert("sorcerer_boss_attack"@.len() != "enemy_run"@.len());
    assert("sorcerer_boss_attack"@.len() != "enemy_attack"@.len());
    assert("sorcerer_boss_attack"@.len() != "enemy_died"@.len());
    assert("sorcerer_boss_attack"@.len() != "big_boss_idle"@.len());
    assert("sorcerer_boss_attack"@.len() != "big_boss_run"@.len());
    assert("sorcerer_boss_attack"@.len() != "big_boss_attack"@.len());
    assert("sorcerer_boss_attack"@.len() != "big_boss_die"@.len());
    assert("sorcerer_boss_attack"@.len() != "sorcerer_boss_idle"@.len());
    assert("sorcerer_boss_attack"@.len() != "sorcerer_boss_run"@.len());
    assert("sorcerer_boss_die"@.len() != "player_idle"@.len());
    assert("sorcerer_boss_die"@.len() != "player_run"@.len());
    assert("sorcerer_boss_die"@.len() != "player_dash"@.len());
    assert("sorcerer_boss_die"@.len() != "player_attack"@.len());
    assert("sorcerer_boss_die"@.len() != "player_die"@.len());
    assert("sorcerer_boss_die"@.len() != "enemy_idle"@.len());
    assert("sorcerer_boss_die"@.len() != "enemy_run"@.len());
    assert("sorcerer_boss_die"@.len() != "enemy_attack"@.len());
    assert("sorcerer_boss_die"@.len() != "enemy_died"@.len());
    assert("sorcerer_boss_die"@.len() != "big_boss_idle"@.len());
    assert("sorcerer_boss_die"@.len() != "big_boss_run"@.len());
    assert("sorcerer_boss_die"@.len() != "big_boss_attack"@.len());
    assert("sorcerer_boss_die"@.len() != "big_boss_die"@.len());
    assert("sorcerer_boss_die"@.len() != "sorcerer_boss_idle"@.len());
    assert("sorcerer_boss_die"@[14] != "sorcerer_boss_run"@[14]);
    assert("sorcerer_boss_die"@.len() != "sorcerer_boss_attack"@.len());
    assert("fast_boss_idle"@.len() != "player_idle"@.len());
    assert("fast_boss_idle"@.len() != "player_run"@.len());
    assert("fast_boss_idle"@.len() != "player_dash"@.len());
    assert("fast_boss_idle"@.len() != "player_attack"@.len());
    assert("fast_boss_idle"@.len() != "player_die"@.len());
    assert("fast_boss_idle"@.len() != "enemy_idle"@.len());
    assert("fast_boss_idle"@.len() != "enemy_run"@.len());
    assert("fast_boss_idle"@.len() != "enemy_attack"@.len());
    assert("fast_boss_idle"@.len() != "enemy_died"@.len());
    assert("fast_boss_idle"@.len() != "big_boss_idle"@.len());
    assert("fast_boss_idle"@.len() != "big_boss_run"@.len());
    assert("fast_boss_idle"@.len() != "big_boss_attack"@.len());
    assert("fast_boss_idle"@.len() != "big_boss_die"@.len());
    assert("fast_boss_idle"@.len() != "sorcerer_boss_idle"@.len());
    assert("fast_boss_idle"@.len() != "sorcerer_boss_run"@.len());
    assert("fast_boss_idle"@.len() != "sorcerer_boss_attack"@.len());
    assert("fast_boss_idle"@.len() != "sorcerer_boss_die"@.len());
    assert("fast_boss_run"@.len() != "player_idle"@.len());
    assert("fast_boss_run"@.len() != "player_run"@.len());
    assert("fast_boss_run"@.len() != "player_dash"@.len());
    assert("fast_boss_run"@[0] != "player_attack"@[0]);
    assert("fast_boss_run"@.len() != "player_die"@.len());
    assert("fast_boss_run"@.len() != "enemy_idle"@.len());
    assert("fast_boss_run"@.len() != "enemy_run"@.len());
    assert("fast_boss_run"@.len() != "enemy_attack"@.len());
    assert("fast_boss_run"@.len() != "enemy_died"@.len());
    assert("fast_boss_run"@[0] != "big_boss_idle"@[0]);
    assert("fast_boss_run"@.len() != "big_boss_run"@.len());
    assert("fast_boss_run"@.len() != "big_boss_attack"@.len());
    assert("fast_boss_run"@.len() != "big_boss_die"@.len());
    assert("fast_boss_run"@.len() != "sorcerer_boss_idle"@.len());
    assert("fast_boss_run"@.len() != "sorcerer_boss_run"@.len());
    assert("fast_boss_run"@.len() != "sorcerer_boss_attack"@.len());
    assert("fast_boss_run"@.len() != "sorcerer_boss_die"@.len());
    assert("fast_boss_run"@.len() != "fast_boss_idle"@.len());
    assert("fast_boss_attack"@.len() != "player_idle"@.len());
    assert("fast_boss_attack"@.len() != "player_run"@.len());
    assert("fast_boss_attack"@.len() != "player_dash"@.len());
    assert("fast_boss_attack"@.len() != "player_attack"@.len());
    assert("fast_boss_attack"@.len() != "player_die"@.len());
    assert("fast_boss_attack"@.len() != "enemy_idle"@.len());
    assert("fast_boss_attack"@.len() != "enemy_run"@.len());
    assert("fast_boss_attack"@.len() != "enemy_attack"@.len());
    assert("fast_boss_attack"@.len() != "enemy_died"@.len());
    assert("fast_boss_attack"@.len() != "big_boss_idle"@.len());
    assert("fast_boss_attack"@.len() != "big_boss_run"@.len());
    assert("fast_boss_attack"@.len() != "big_boss_attack"@.len());
    assert("fast_boss_attack"@.len() != "big_boss_die"@.len());
    assert("fast_boss_attack"@.len() != "sorcerer_boss_idle"@.len());
    assert("fast_boss_attack"@.len() != "sorcerer_boss_run"@.len());
    assert("fast_boss_attack"@.len() != "sorcerer_boss_attack"@.len());
    assert("fast_boss_attack"@.len() != "sorcerer_boss_die"@.len());
    assert("fast_boss_attack"@.len() != "fast_boss_idle"@.len());
    assert("fast_boss_attack"@.len() != "fast_boss_run"@.len());
    assert("fast_boss_die"@.len() != "player_idle"@.len());
    assert("fast_boss_die"@.len() != "player_run"@.len());
    assert("fast_boss_die"@.len() != "player_dash"@.len());
    assert("fast_boss_die"@[0] != "player_attack"@[0]);
    assert("fast_boss_die"@.len() != "player_die"@.len());
    assert("fast_boss_die"@.len() != "enemy_idle"@.len());
    assert("fast_boss_die"@.len() != "enemy_run"@.len());
    assert("fast_boss_die"@.len() != "enemy_attack"@.len());
    assert("fast_boss_die"@.len() != "enemy_died"@.len());
    assert("fast_boss_die"@[0] != "big_boss_idle"@[0]);
    assert("fast_boss_die"@.len() != "big_boss_run"@.len());
    assert("fast_boss_die"@.len() != "big_boss_attack"@.len());
    assert("fast_boss_die"@.len() != "big_boss_die"@.len());
    assert("fast_boss_die"@.len() != "sorcerer_boss_idle"@.len());
    assert("fast_boss_die"@.len() != "sorcerer_boss_run"@.len());
    assert("fast_boss_die"@.len() != "sorcerer_boss_attack"@.len());
    assert("fast_boss_die"@.len() != "sorcerer_boss_die"@.len());
    assert("fast_boss_die"@.len() != "fast_boss_idle"@.len());
    assert("fast_boss_die"@[10] != "fast_boss_run"@[10]);
    assert("fast_boss_die"@.len() != "fast_boss_attack"@.len());
    assert("tank_boss_idle"@.len() != "player_idle"@.len());
    assert("tank_boss_idle"@.len() != "player_run"@.len());
    assert("tank_boss_idle"@.len() != "player_dash"@.len());
    assert("tank_boss_idle"@.len() != "player_attack"@.len());
    assert("tank_boss_idle"@.len() != "player_die"@.len());
    assert("tank_boss_idle"@.len() != "enemy_idle"@.len());
    assert("tank_boss_idle"@.len() != "enemy_run"@.len());
    assert("tank_boss_idle"@.len() != "enemy_attack"@.len());
    assert("tank_boss_idle"@.len() != "enemy_died"@.len());
    assert("tank_boss_idle"@.len() != "big_boss_idle"@.len());
    assert("tank_boss_idle"@.len() != "big_boss_run"@.len());
    assert("tank_boss_idle"@.len() != "big_boss_attack"@.len());
    assert("tank_boss_idle"@.len() != "big_boss_die"@.len());
    assert("tank_boss_idle"@.len() != "sorcerer_boss_idle"@.len());
    assert("tank_boss_idle"@.len() != "sorcerer_boss_run"@.len());
    assert("tank_boss_idle"@.len() != "sorcerer_boss_attack"@.len());
    assert("tank_boss_idle"@.len() != "sorcerer_boss_die"@.len());
    assert("tank_boss_idle"@[0] != "fast_boss_idle"@[0]);
    assert("tank_boss_idle"@.len() != "fast_boss_run"@.len());
    assert("tank_boss_idle"@.len() != "fast_boss_attack"@.len());
    assert("tank_boss_idle"@.len() != "fast_boss_die"@.len());
    assert("tank_boss_run"@.len() != "player_idle"@.len());
    assert("tank_boss_run"@.len() != "player_run"@.len());
    assert("tank_boss_run"@.len() != "player_dash"@.len());
    assert("tank_boss_run"@[0] != "player_attack"@[0]);
    assert("tank_boss_run"@.len() != "player_die"@.len());
    assert("tank_boss_run"@.len() != "enemy_idle"@.len());
    assert("tank_boss_run"@.len() != "enemy_run"@.len());
    assert("tank_boss_run"@.len() != "enemy_attack"@.len());
    assert("tank_boss_run"@.len() != "enemy_died"@.len());
    assert("tank_boss_run"@[0] != "big_boss_idle"@[0]);
    assert("tank_boss_run"@.len() != "big_boss_run"@.len());
    assert("tank_boss_run"@.len() != "big_boss_attack"@.len());
    assert("tank_boss_run"@.len() != "big_boss_die"@.len());
    assert("tank_boss_run"@.len() != "sorcerer_boss_idle"@.len());
    assert("tank_boss_run"@.len() != "sorcerer_boss_run"@.len());
    assert("tank_boss_run"@.len() != "sorcerer_boss_attack"@.len());
    assert("tank_boss_run"@.len() != "sorcerer_boss_die"@.len());
    assert("tank_boss_run"@.len() != "fast_boss_idle"@.len());
    assert("tank_boss_run"@[0] != "fast_boss_run"@[0]);
    assert("tank_boss_run"@.len() != "fast_boss_attack"@.len());
    assert("tank_boss_run"@[0] != "fast_boss_die"@[0]);
    assert("tank_boss_run"@.len() != "tank_boss_idle"@.len());
    assert("tank_boss_attack"@.len() != "player_idle"@.len());
    assert("tank_boss_attack"@.len() != "player_run"@.len());
    assert("tank_boss_attack"@.len() != "player_dash"@.len());
    assert("tank_boss_attack"@.len() != "player_attack"@.len());
    assert("tank_boss_attack"@.len() != "player_die"@.len());
    assert("tank_boss_attack"@.len() != "enemy_idle"@.len());
    assert("tank_boss_attack"@.len() != "enemy_run"@.len());
    assert("tank_boss_attack"@.len() != "enemy_attack"@.len());
    assert("tank_boss_attack"@.len() != "enemy_died"@.len());
    assert("tank_boss_attack"@.len() != "big_boss_idle"@.len());
    assert("tank_boss_attack"@.len() != "big_boss_run"@.len());
    assert("tank_boss_attack"@.len() != "big_boss_attack"@.len());
    assert("tank_boss_attack"@.len() != "big_boss_die"@.len());
    assert("tank_boss_attack"@.len() != "sorcerer_boss_idle"@.len());
    assert("tank_boss_attack"@.len() != "sorcerer_boss_run"@.len());
    assert("tank_boss_attack"@.len() != "sorcerer_boss_attack"@.len());
    assert("tank_boss_attack"@.len() != "sorcerer_boss_die"@.len());
    assert("tank_boss_attack"@.len() != "fast_boss_idle"@.len());
    assert("tank_boss_attack"@.len() != "fast_boss_run"@.len());
    assert("tank_boss_attack"@[0] != "fast_boss_attack"@[0]);
    assert("tank_boss_attack"@.len() != "fast_boss_die"@.len());
    assert("tank_boss_attack"@.len() != "tank_boss_idle"@.len());
    assert("tank_boss_attack"@.len() != "tank_boss_run"@.len());
    assert("tank_boss_die"@.len() != "player_idle"@.len());
    assert("tank_boss_die"@.len() != "player_run"@.len());
    assert("tank_boss_die"@.len() != "player_dash"@.len());
    assert("tank_boss_die"@[0] != "player_attack"@[0]);
    assert("tank_boss_die"@.len() != "player_die"@.len());
    assert("tank_boss_die"@.len() != "enemy_idle"@.len());
    assert("tank_boss_die"@.len() != "enemy_run"@.len());
    assert("tank_boss_die"@.len() != "enemy_attack"@.len());
    assert("tank_boss_die"@.len() != "enemy_died"@.len());
    assert("tank_boss_die"@[0] != "big_boss_idle"@[0]);
    assert("tank_boss_die"@.len() != "big_boss_run"@.len());
    assert("tank_boss_die"@.len() != "big_boss_attack"@.len());
    assert("tank_boss_die"@.len() != "big_boss_die"@.len());
    assert("tank_boss_die"@.len() != "sorcerer_boss_idle"@.len());
    assert("tank_boss_die"@.len() != "sorcerer_boss_run"@.len());
    assert("tank_boss_die"@.len() != "sorcerer_boss_attack"@.len());
    assert("tank_boss_die"@.len() != "sorcerer_boss_die"@.len());
    assert("tank_boss_die"@.len() != "fast_boss_idle"@.len());
    assert("tank_boss_die"@[0] != "fast_boss_run"@[0]);
    assert("tank_boss_die"@.len() != "fast_boss_attack"@.len());
    assert("tank_boss_die"@[0] != "fast_boss_die"@[0]);
    assert("tank_boss_die"@.len() != "tank_boss_idle"@.len());
    assert("tank_boss_die"@[10] != "tank_boss_run"@[10]);
    assert("tank_boss_die"@.len() != "tank_boss_attack"@.len());
    assert("coin"@.len() != "player_idle"@.len());
    assert("coin"@.len() != "player_run"@.len());
    assert("coin"@.len() != "player_dash"@.len());
    assert("coin"@.len() != "player_attack"@.len());
    assert("coin"@.len() != "player_die"@.len());
    assert("coin"@.len() != "enemy_idle"@.len());
    assert("coin"@.len() != "enemy_run"@.len());
    assert("coin"@.len() != "enemy_attack"@.len());
    assert("coin"@.len() != "enemy_died"@.len());
    assert("coin"@.len() != "big_boss_idle"@.len());
    assert("coin"@.len() != "big_boss_run"@.len());
    assert("coin"@.len() != "big_boss_attack"@.len());
    assert("coin"@.len() != "big_boss_die"@.len());
    assert("coin"@.len() != "sorcerer_boss_idle"@.len());
    assert("coin"@.len() != "sorcerer_boss_run"@.len());
    assert("coin"@.len() != "sorcerer_boss_attack"@.len());
    assert("coin"@.len() != "sorcerer_boss_die"@.len());
    assert("coin"@.len() != "fast_boss_idle"@.len());
    assert("coin"@.len() != "fast_boss_run"@.len());
    assert("coin"@.len() != "fast_boss_attack"@.len());
    assert("coin"@.len() != "fast_boss_die"@.len());
    assert("coin"@.len() != "tank_boss_idle"@.len());
    assert("coin"@.len() != "tank_boss_run"@.len());
    assert("coin"@.len() != "tank_boss_attack"@.len());
    assert("coin"@.len() != "tank_boss_die"@.len());
    assert("projectile"@.len() != "player_idle"@.len());
    assert("projectile"@[1] != "player_run"@[1]);
    assert("projectile"@.len() != "player_dash"@.len());
    assert("projectile"@.len() != "player_attack"@.len());
    assert("projectile"@[1] != "player_die"@[1]);
    assert("projectile"@[0] != "enemy_idle"@[0]);
    assert("projectile"@.len() != "enemy_run"@.len());
    assert("projectile"@.len() != "enemy_attack"@.len());
    assert("projectile"@[0] != "enemy_died"@[0]);
    assert("projectile"@.len() != "big_boss_idle"@.len());
    assert("projectile"@.len() != "big_boss_run"@.len());
    assert("projectile"@.len() != "big_boss_attack"@.len());
    assert("projectile"@.len() != "big_boss_die"@.len());
    assert("projectile"@.len() != "sorcerer_boss_idle"@.len());
    assert("projectile"@.len() != "sorcerer_boss_run"@.len());
    assert("projectile"@.len() != "sorcerer_boss_attack"@.len());
    assert("projectile"@.len() != "sorcerer_boss_die"@.len());
    assert("projectile"@.len() != "fast_boss_idle"@.len());
    assert("projectile"@.len() != "fast_boss_run"@.len());
    assert("projectile"@.len() != "fast_boss_attack"@.len());
    assert("projectile"@.len() != "fast_boss_die"@.len());
    assert("projectile"@.len() != "tank_boss_idle"@.len());
    assert("projectile"@.len() != "tank_boss_run"@.len());
    assert("projectile"@.len() != "tank_boss_attack"@.len());
    assert("projectile"@.len() != "tank_boss_die"@.len());
    assert("projectile"@.len() != "coin"@.len());
}

/// Each configuration name stands for the animation it names: the player's
/// idle, run, dash, attack and death, the enemy's idle, run, attack and death
/// ("enemy_died"), each state of each boss, the coin and the projectile. The
/// id names are the same, without the coin and the projectile.
pub proof fn law_name_table()
    ensures
        parse_key("player_idle"@) == Some(AnimKey::Player(PlayerState::Idle)),
        parse_key("player_run"@) == Some(AnimKey::Player(PlayerState::Run)),
        parse_key("player_dash"@) == Some(AnimKey::Player(PlayerState::Dash)),
        parse_key("player_attack"@) == Some(AnimKey::Player(PlayerState::Attack)),
        parse_key("player_die"@) == Some(AnimKey::Player(PlayerState::Die)),
        parse_key("enemy_idle"@) == Some(AnimKey::Enemy(EnemyState::Idle)),
        parse_key("enemy_run"@) == Some(AnimKey::Enemy(EnemyState::Run)),
        parse_key("enemy_attack"@) == Some(AnimKey::Enemy(EnemyState::Attack)),
        parse_key("enemy_died"@) == Some(AnimKey::Enemy(EnemyState::Die)),
        parse_key("big_boss_idle"@) == Some(AnimKey::Boss(BossKind::Big, BossState::Idle)),
        parse_key("big_boss_run"@) == Some(AnimKey::Boss(BossKind::Big, BossState::Run)),
        parse_key("big_boss_attack"@) == Some(AnimKey::Boss(BossKind::Big, BossState::Attack)),
        parse_key("big_boss_die"@) == Some(AnimKey::Boss(BossKind::Big, BossState::Die)),
        parse_key("sorcerer_boss_idle"@) == Some(AnimKey::Boss(BossKind::Sorcerer, BossState::Idle)),
        parse_key("sorcerer_boss_run"@) == Some(AnimKey::Boss(BossKind::Sorcerer, BossState::Run)),
        parse_key("sorcerer_boss_attack"@) == Some(AnimKey::Boss(BossKind::Sorcerer, BossState::Attack)),
        parse_key("sorcerer_boss_die"@) == Some(AnimKey::Boss(BossKind::Sorcerer, BossState::Die)),
        parse_key("fast_boss_idle"@) == Some(AnimKey::Boss(BossKind::Fast, BossState::Idle)),
        parse_key("fast_boss_run"@) == Some(AnimKey::Boss(BossKind::Fast, BossState::Run)),
        parse_key("fast_boss_attack"@) == Some(AnimKey::Boss(BossKind::Fast, BossState::Attack)),
        parse_key("fast_boss_die"@) == Some(AnimKey::Boss(BossKind::Fast, BossState::Die)),
        parse_key("tank_boss_idle"@) == Some(AnimKey::Boss(BossKind::Tank, BossState::Idle)),
        parse_key("tank_boss_run"@) == Some(AnimKey::Boss(BossKind::Tank, BossState::Run)),
        parse_key("tank_boss_attack"@) == Some(AnimKey::Boss(BossKind::Tank, BossState::Attack)),
        parse_key("tank_boss_die"@) == Some(AnimKey::Boss(BossKind::Tank, BossState::Die)),
        parse_key("coin"@) == Some(AnimKey::Coin),
        parse_key("projectile"@) == Some(AnimKey::Projectile),
        parse_id("player_idle"@) == Some(AnimKey::Player(PlayerState::Idle)),
        parse_id("player_run"@) == Some(AnimKey::Player(PlayerState::Run)),
        parse_id("player_dash"@) == Some(AnimKey::Player(PlayerState::Dash)),
        parse_id("player_attack"@) == Some(AnimKey::Player(PlayerState::Attack)),
        parse_id("player_die"@) == Some(AnimKey::Player(PlayerState::Die)),
        parse_id("enemy_idle"@) == Some(AnimKey::Enemy(EnemyState::Idle)),
        parse_id("enemy_run"@) == Some(AnimKey::Enemy(EnemyState::Run)),
        parse_id("enemy_attack"@) == Some(AnimKey::Enemy(EnemyState::Attack)),
        parse_id("enemy_died"@) == Some(AnimKey::Enemy(EnemyState::Die)),
        parse_id("big_boss_idle"@) == Some(AnimKey::Boss(BossKind::Big, BossState::Idle)),
        parse_id("big_boss_run"@) == Some(AnimKey::Boss(BossKind::Big, BossState::Run)),
        parse_id("big_boss_attack"@) == Some(AnimKey::Boss(BossKind::Big, BossState::Attack)),
        parse_id("big_boss_die"@) == Some(AnimKey::Boss(BossKind::Big, BossState::Die)),
        parse_id("sorcerer_boss_idle"@) == Some(AnimKey::Boss(BossKind::Sorcerer, BossState::Idle)),
        parse_id("sorcerer_boss_run"@) == Some(AnimKey::Boss(BossKind::Sorcerer, BossState::Run)),
        parse_id("sorcerer_boss_attack"@) == Some(AnimKey::Boss(BossKind::Sorcerer, BossState::Attack)),
        parse_id("sorcerer_boss_die"@) == Some(AnimKey::Boss(BossKind::Sorcerer, BossState::Die)),
        parse_id("fast_boss_idle"@) == Some(AnimKey::Boss(BossKind::Fast, BossState::Idle)),
        parse_id("fast_boss_run"@) == Some(AnimKey::Boss(BossKind::Fast, BossState::Run)),
        parse_id("fast_boss_attack"@) == Some(AnimKey::Boss(BossKind::Fast, BossState::Attack)),
        parse_id("fast_boss_die"@) == Some(AnimKey::Boss(BossKind::Fast, BossState::Die)),
        parse_id("tank_boss_idle"@) == Some(AnimKey::Boss(BossKind::Tank, BossState::Idle)),
        parse_id("tank_boss_run"@) == Some(AnimKey::Boss(BossKind::Tank, BossState::Run)),
        parse_id("tank_boss_attack"@) == Some(AnimKey::Boss(BossKind::Tank, BossState::Attack)),
        parse_id("tank_boss_die"@) == Some(AnimKey::Boss(BossKind::Tank, BossState::Die)),
        parse_id("coin"@) is None,
        parse_id("projectile"@) is None,
{
    lemma_names_differ();
}

/// Every animation has its own name: parsing the name of an animation gives it
/// back, and for the characters the name `id_to_key` writes parses to it too.
pub proof fn law_name_round_trip(k: AnimKey)
    ensures
        parse_key(key_name(k)) == Some(k),
        !(k is Coin || k is Projectile) ==> parse_id(key_name(k)) == Some(k),
        k is Coin || k is Projectile ==> parse_id(key_name(k)) is None,
{
    lemma_names_differ();
}

/// Parsing is one to one: a name that parses names the animation it parses to.
pub proof fn law_parse_names(s: Seq<char>)
    ensures
        parse_key(s) is Some ==> key_name(parse_key(s)->0) == s,
        parse_id(s) is Some ==> key_name(parse_id(s)->0) == s && parse_key(s) == parse_id(s),
{
}

} // verus!
