use client::anim_key::{
    id_to_key, key_to_id, resolve_anim, str_eq, AnimKey, BossKind, BossState, EnemyState, EntityKind,
    PlayerState,
};
use client::animation::{AnimData, AnimEntity, AnimEntityManager, AnimId, AnimationManager, TextureId};
use client::tile_map::{tile_kind_from_name, AtlasError, Bounds, TextureAtlasInfo, TileKind};

fn data(frames: &[u64], frame_time: u64, looping: bool) -> AnimData {
    AnimData { frames: frames.iter().map(|f| TextureId(*f)).collect(), frame_time, looping }
}

// Animation keys

#[test]
fn config_names_give_their_keys() {
    assert_eq!(AnimKey::try_from("player_idle"), Ok(AnimKey::Player(PlayerState::Idle)));
    assert_eq!(AnimKey::try_from("enemy_died"), Ok(AnimKey::Enemy(EnemyState::Die)));
    assert_eq!(
        AnimKey::try_from("sorcerer_boss_attack"),
        Ok(AnimKey::Boss(BossKind::Sorcerer, BossState::Attack))
    );
    assert_eq!(AnimKey::try_from("coin"), Ok(AnimKey::Coin));
    assert_eq!(AnimKey::try_from("projectile"), Ok(AnimKey::Projectile));
}

#[test]
fn unknown_config_name_is_refused() {
    assert_eq!(AnimKey::try_from("enemy_die"), Err("Clé d'animation non reconnue"));
    assert_eq!(AnimKey::try_from(""), Err("Clé d'animation non reconnue"));
    assert_eq!(AnimKey::try_from("Player_idle"), Err("Clé d'animation non reconnue"));
}

#[test]
fn key_names_round_trip() {
    let keys = [
        AnimKey::Player(PlayerState::Dash),
        AnimKey::Enemy(EnemyState::Attack),
        AnimKey::Boss(BossKind::Tank, BossState::Die),
        AnimKey::Boss(BossKind::Big, BossState::Run),
        AnimKey::Boss(BossKind::Fast, BossState::Idle),
    ];
    for k in keys {
        assert_eq!(key_to_id(id_to_key(&k)), Ok(k));
    }
    assert_eq!(id_to_key(&AnimKey::Enemy(EnemyState::Die)), "enemy_died");
}

#[test]
fn coin_and_projectile_have_no_id_name() {
    assert_eq!(id_to_key(&AnimKey::Coin), "");
    assert_eq!(id_to_key(&AnimKey::Projectile), "");
    assert_eq!(key_to_id("coin"), Err("Clé anim non reconnu"));
    assert_eq!(key_to_id("nothing"), Err("Clé anim non reconnu"));
}

#[test]
fn entity_animation_follows_movement() {
    assert_eq!(resolve_anim(EntityKind::Player, true), AnimKey::Player(PlayerState::Run));
    assert_eq!(resolve_anim(EntityKind::Player, false), AnimKey::Player(PlayerState::Idle));
    assert_eq!(resolve_anim(EntityKind::Enemy, true), AnimKey::Enemy(EnemyState::Run));
    assert_eq!(resolve_anim(EntityKind::Boss(BossKind::Fast), true), AnimKey::Boss(BossKind::Fast, BossState::Idle));
    assert_eq!(resolve_anim(EntityKind::Coin, true), AnimKey::Coin);
}

#[test]
fn string_equality() {
    assert!(str_eq("abc", "abc"));
    assert!(!str_eq("abc", "abd"));
    assert!(!str_eq("abc", "ab"));
    assert!(str_eq("é", "é"));
}

// Animation of one entity

#[test]
fn looping_animation_wraps_to_first_frame() {
    let d = data(&[10, 11, 12], 100_000, true);
    let mut e = AnimEntity::new(AnimId(0));
    e.tick(100_000, &d);
    assert_eq!(e.current_frame, 1);
    assert_eq!(e.timer, 0);
    e.tick(40_000, &d);
    assert_eq!(e.current_frame, 1);
    assert_eq!(e.timer, 40_000);
    e.tick(60_000, &d);
    e.tick(100_000, &d);
    assert_eq!(e.current_frame, 0);
    assert_eq!(e.current_texture_id(&d), Some(TextureId(10)));
}

#[test]
fn one_shot_animation_stays_on_last_frame() {
    let d = data(&[1, 2], 50_000, false);
    let mut e = AnimEntity::new(AnimId(3));
    e.tick(50_000, &d);
    e.tick(50_000, &d);
    e.tick(50_000, &d);
    assert_eq!(e.current_frame, 1);
    assert_eq!(e.current_texture_id(&d), Some(TextureId(2)));
}

#[test]
fn setting_another_animation_restarts() {
    let d = data(&[1, 2, 3], 10, true);
    let mut e = AnimEntity::new(AnimId(1));
    e.tick(10, &d);
    e.set(AnimId(1));
    assert_eq!(e.current_frame, 1);
    e.set(AnimId(2));
    assert_eq!(e, AnimEntity { current_id: AnimId(2), current_frame: 0, timer: 0 });
    assert_eq!(e.current_texture_id(&data(&[], 10, true)), None);
}

#[test]
fn entity_manager_creates_once_and_ticks() {
    let mut anims = AnimationManager::new();
    let walk = anims.register(data(&[1, 2], 100, true));
    let mut m = AnimEntityManager::new();
    m.get_or_create(5, walk).timer = 0;
    m.get_or_create(5, AnimId(99));
    assert_eq!(m.get(5).unwrap().current_id, walk);
    m.get_or_create(6, AnimId(99));
    m.tick_all(100, &anims);
    assert_eq!(m.get(5).unwrap().current_frame, 1);
    assert_eq!(m.get(6).unwrap().current_frame, 0);
    assert!(m.get(7).is_none());
    m.retain(|id: u64| id != 5);
    assert!(m.get(5).is_none());
    assert!(m.get(6).is_some());
}

// Registered animations

#[test]
fn registered_animation_is_found_by_handle() {
    let mut anims = AnimationManager::new();
    let a = anims.register(data(&[1], 5, false));
    let b = anims.register(data(&[2, 3], 7, true));
    assert_eq!(a, AnimId(0));
    assert_eq!(b, AnimId(1));
    assert_eq!(anims.get(b).unwrap().frames, vec![TextureId(2), TextureId(3)]);
    assert!(anims.get(AnimId(2)).is_none());
    anims.get_mut(a).unwrap().frame_time = 9;
    assert_eq!(anims.get(a).unwrap().frame_time, 9);
    assert!(anims.get_mut(AnimId(5)).is_none());
}

#[test]
fn loaded_animation_is_found_by_name_and_key() {
    let mut anims = AnimationManager::new();
    let id = anims.add_loaded("player_run".to_string(), vec![TextureId(4)], 80_000, true).unwrap();
    assert_eq!(anims.get_by_name("player_run"), Some(id));
    assert_eq!(anims.get_by_key(AnimKey::Player(PlayerState::Run)), Some(id));
    assert_eq!(anims.get(id).unwrap().frame_time, 80_000);
    let other = anims.add_loaded("custom_glow".to_string(), vec![TextureId(5)], 10, false).unwrap();
    assert_eq!(anims.get_by_name("custom_glow"), Some(other));
    assert_eq!(anims.get_by_key(AnimKey::Coin), None);
    assert_eq!(anims.get_by_name("player_idle"), None);
}

#[test]
fn animation_without_frames_is_skipped() {
    let mut anims = AnimationManager::new();
    assert_eq!(anims.add_loaded("coin".to_string(), vec![], 10, true), None);
    assert_eq!(anims.get_by_name("coin"), None);
    assert_eq!(anims.get_by_key(AnimKey::Coin), None);
    assert!(anims.get(AnimId(0)).is_none());
}

#[test]
fn reloading_a_name_points_to_the_new_animation() {
    let mut anims = AnimationManager::new();
    let first = anims.add_loaded("coin".to_string(), vec![TextureId(1)], 10, true).unwrap();
    let second = anims.add_loaded("coin".to_string(), vec![TextureId(2)], 10, true).unwrap();
    assert_ne!(first, second);
    assert_eq!(anims.get_by_name("coin"), Some(second));
    assert_eq!(anims.get_by_key(AnimKey::Coin), Some(second));
    assert!(anims.get(first).is_some());
}

// Texture atlas

#[test]
fn atlas_gives_recorded_sprites() {
    let mut atlas = TextureAtlasInfo::new();
    assert_eq!(atlas.try_get(TileKind::Grass), None);
    let b = Bounds { x: 16, y: 32, w: 16, h: 16 };
    atlas.insert(TileKind::Grass, b);
    atlas.insert(TileKind::Tree, Bounds { x: 0, y: 0, w: 32, h: 48 });
    assert_eq!(*atlas.get(TileKind::Grass), b);
    assert_eq!(atlas.try_get(TileKind::Tree), Some(Bounds { x: 0, y: 0, w: 32, h: 48 }));
    assert_eq!(atlas.try_get(TileKind::Flower), None);
    atlas.insert(TileKind::Grass, Bounds { x: 1, y: 1, w: 1, h: 1 });
    assert_eq!(*atlas.get(TileKind::Grass), Bounds { x: 1, y: 1, w: 1, h: 1 });
}

#[test]
fn tile_names_follow_the_atlas_description() {
    assert_eq!(tile_kind_from_name("mur_plat_angle_bas_gauche"), Some(TileKind::MurPlatAngleBasGauche));
    assert_eq!(tile_kind_from_name("mur_simple2"), Some(TileKind::MurSimple2));
    assert_eq!(tile_kind_from_name("wall_bush"), Some(TileKind::WallBush));
    assert_eq!(tile_kind_from_name("grass"), Some(TileKind::Grass));
    assert_eq!(tile_kind_from_name("Grass"), None);
    assert_eq!(tile_kind_from_name("mur_simple_2"), None);
}

#[test]
fn atlas_from_slices_keeps_last_of_each_kind() {
    let slices = vec![
        ("tree".to_string(), Bounds { x: 0, y: 0, w: 32, h: 32 }),
        ("grass".to_string(), Bounds { x: 32, y: 0, w: 16, h: 16 }),
        ("tree".to_string(), Bounds { x: 64, y: 0, w: 32, h: 48 }),
    ];
    let atlas = TextureAtlasInfo::from_slices(&slices).unwrap();
    assert_eq!(*atlas.get(TileKind::Tree), Bounds { x: 64, y: 0, w: 32, h: 48 });
    assert_eq!(*atlas.get(TileKind::Grass), Bounds { x: 32, y: 0, w: 16, h: 16 });
    assert_eq!(atlas.try_get(TileKind::Flower), None);
    let bad = vec![
        ("tree".to_string(), Bounds { x: 0, y: 0, w: 1, h: 1 }),
        ("lava".to_string(), Bounds { x: 0, y: 0, w: 1, h: 1 }),
        ("nope".to_string(), Bounds { x: 0, y: 0, w: 1, h: 1 }),
    ];
    assert!(matches!(TextureAtlasInfo::from_slices(&bad), Err(AtlasError::UnknownTile { index: 1 })));
    assert!(TextureAtlasInfo::from_slices(&vec![]).unwrap().try_get(TileKind::Tree).is_none());
}

#[test]
fn frames_can_advance_on_ordinary_entities() {
    let mut m = AnimEntityManager::new();
    assert!(m.frames_can_advance());
    m.get_or_create(1, AnimId(0));
    assert!(m.frames_can_advance());
    m.get_or_create(1, AnimId(0)).current_frame = usize::MAX;
    assert!(!m.frames_can_advance());
}
