use client::pool::Pool;
use client::trail::{SwordTrail, TRAIL_POINTS};
use client::vfx::VfxManager;

/// What a slash or a dash ghost looks like in these tests.
#[derive(Clone, Copy, Default, Debug, PartialEq)]
struct Look {
    x: f32,
    y: f32,
    angle_deg: f32,
    inner_r: f32,
    outer_r: f32,
    half_arc: f32,
    color: u32,
}

const WHITE: u32 = 0xffff_ffff;
const BLUE: u32 = 0x0079_f1ff;
const RED: u32 = 0xe629_37ff;

fn slash(x: f32, y: f32, angle_deg: f32, inner_r: f32, outer_r: f32, half_arc: f32) -> Look {
    Look { x, y, angle_deg, inner_r, outer_r, half_arc, color: WHITE }
}

fn ghost(x: f32, y: f32, color: u32) -> Look {
    Look { x, y, color, ..Look::default() }
}

type Vfx = VfxManager<Look, (f32, f32), u32>;

/// Seconds to microseconds.
fn us(seconds: f64) -> u64 {
    (seconds * 1_000_000.0).round() as u64
}

// Pool

#[test]
fn pool_spawn_active() {
    #[derive(Clone, Copy, Default)]
    struct Dummy(f32);

    let mut pool: Pool<Dummy, 4> = Pool::new();
    pool.spawn(Dummy(1.0));
    pool.spawn(Dummy(2.0));

    assert_eq!(pool.iter_active().len(), 2);
}

#[test]
fn pool_full_silently_drops() {
    #[derive(Clone, Copy, Default)]
    struct Dummy;

    let mut pool: Pool<Dummy, 2> = Pool::new();
    pool.spawn(Dummy);
    pool.spawn(Dummy);
    pool.spawn(Dummy);

    assert_eq!(pool.iter_active().len(), 2);
}

#[test]
fn pool_release_if() {
    #[derive(Clone, Copy, Default)]
    struct Timed(f32);

    let mut pool: Pool<Timed, 4> = Pool::new();
    pool.spawn(Timed(0.5));
    pool.spawn(Timed(-0.1));
    pool.spawn(Timed(1.0));

    pool.release_if(|t: &Timed| t.0 <= 0.0);

    assert_eq!(pool.iter_active().len(), 2);
}

#[test]
fn pool_slot_reuse_after_release() {
    #[derive(Clone, Copy, Default)]
    struct Dummy;

    let mut pool: Pool<Dummy, 2> = Pool::new();
    pool.spawn(Dummy);
    pool.spawn(Dummy);
    pool.release_if(|_: &Dummy| true);

    pool.spawn(Dummy);

    assert_eq!(pool.iter_active().len(), 1);
}

#[test]
fn pool_spawn_takes_first_free_slot() {
    let mut pool: Pool<u32, 3> = Pool::new();
    pool.spawn(1);
    pool.spawn(2);
    pool.spawn(3);
    pool.release_if(|t: &u32| *t == 2);
    pool.spawn(9);
    assert_eq!(pool.slot(1), (true, 9));
    assert_eq!(pool.iter_active(), vec![1, 9, 3]);
}

#[test]
fn pool_iter_active_mut_changes_active_only() {
    let mut pool: Pool<u32, 3> = Pool::new();
    pool.spawn(5);
    pool.spawn(7);
    pool.iter_active_mut(|t: u32| t.wrapping_mul(2));
    assert_eq!(pool.iter_active(), vec![10, 14]);
    assert_eq!(pool.slot(2), (false, 0));
    assert_eq!(pool.len(), 3);
}

// Flash

#[test]
fn flash_is_active_after_spawn() {
    let mut vfx: Vfx = VfxManager::new();
    vfx.spawn_flash(42, us(0.1));
    assert!(vfx.is_flashing(42));
}

#[test]
fn flash_inactive_for_other_entity() {
    let mut vfx: Vfx = VfxManager::new();
    vfx.spawn_flash(42, us(0.1));
    assert!(!vfx.is_flashing(99));
}

#[test]
fn flash_expires_after_update() {
    let mut vfx: Vfx = VfxManager::new();
    vfx.spawn_flash(1, us(0.05));
    vfx.update(us(0.1));
    assert!(!vfx.is_flashing(1));
}

#[test]
fn flash_reset_on_same_entity() {
    let mut vfx: Vfx = VfxManager::new();
    vfx.spawn_flash(7, us(0.05));
    vfx.update(us(0.03));
    vfx.spawn_flash(7, us(0.1));
    vfx.update(us(0.07));
    assert!(vfx.is_flashing(7));
}

#[test]
fn flash_on_same_entity_is_not_duplicated() {
    let mut vfx: Vfx = VfxManager::new();
    vfx.spawn_flash(7, 50_000);
    vfx.spawn_flash(7, 100_000);
    let flashes = vfx.active_flashes();
    assert_eq!(flashes.len(), 1);
    assert_eq!(flashes[0].entity_id, 7);
    assert_eq!(flashes[0].timer, 100_000);
}

#[test]
fn flash_ends_exactly_at_its_duration() {
    let mut vfx: Vfx = VfxManager::new();
    vfx.spawn_flash(3, 40_000);
    vfx.update(39_999);
    assert!(vfx.is_flashing(3));
    vfx.update(1);
    assert!(!vfx.is_flashing(3));
}

// Slash

#[test]
fn slash_active_after_spawn() {
    let mut vfx: Vfx = VfxManager::new();
    vfx.spawn_slash(slash(0.0, 0.0, 90.0, 10.0, 30.0, 45.0), us(0.15));
    assert_eq!(vfx.active_slashes().len(), 1);
}

#[test]
fn slash_expires_after_update() {
    let mut vfx: Vfx = VfxManager::new();
    vfx.spawn_slash(slash(0.0, 0.0, 0.0, 5.0, 20.0, 30.0), us(0.1));
    vfx.update(us(0.2));
    assert_eq!(vfx.active_slashes().len(), 0);
}

#[test]
fn slash_still_active_mid_lifetime() {
    let mut vfx: Vfx = VfxManager::new();
    vfx.spawn_slash(slash(0.0, 0.0, 0.0, 5.0, 20.0, 30.0), us(0.3));
    vfx.update(us(0.1));
    assert_eq!(vfx.active_slashes().len(), 1);
}

#[test]
fn slash_lifetime_counts_down() {
    let mut vfx: Vfx = VfxManager::new();
    let look = slash(1.0, 2.0, 0.0, 5.0, 20.0, 30.0);
    vfx.spawn_slash(look, 300_000);
    vfx.update(100_000);
    let s = vfx.active_slashes();
    assert_eq!(s[0].lifetime, 200_000);
    assert_eq!(s[0].lt_max, 300_000);
    assert_eq!(s[0].look, look);
}

// Sword trail

#[test]
fn trail_push_count() {
    let mut trail: SwordTrail<(f32, f32), u32> = SwordTrail::new(WHITE);
    trail.push((0.0, 0.0));
    trail.push((1.0, 0.0));
    trail.push((2.0, 0.0));
    assert_eq!(trail.count(), 3);
}

#[test]
fn trail_count_caps_at_max() {
    let mut trail: SwordTrail<(f32, f32), u32> = SwordTrail::new(WHITE);
    for i in 0..(TRAIL_POINTS + 5) {
        trail.push((i as f32, 0.0));
    }
    assert_eq!(trail.count(), TRAIL_POINTS);
}

#[test]
fn trail_ring_overwrites_oldest() {
    let mut trail: SwordTrail<(f32, f32), u32> = SwordTrail::new(WHITE);
    for i in 0..TRAIL_POINTS {
        trail.push((i as f32, 0.0));
    }
    trail.push((999.0, 0.0));

    let first = trail.iter_with_alpha(us(1.0))[0].0;
    assert_eq!(first.0, 999.0);
}

#[test]
fn trail_alpha_decreases_with_age() {
    let mut trail: SwordTrail<(f32, f32), u32> = SwordTrail::new(WHITE);
    trail.push((0.0, 0.0));
    trail.push((1.0, 0.0));
    trail.update(us(0.05));

    let alphas: Vec<u64> = trail.iter_with_alpha(us(0.12)).iter().map(|(_, a)| *a).collect();
    assert!(alphas[0] >= alphas[1]);
}

#[test]
fn trail_alpha_is_remaining_share_of_duration() {
    let mut trail: SwordTrail<(f32, f32), u32> = SwordTrail::new(WHITE);
    trail.push((0.0, 0.0));
    trail.update(30_000);
    trail.push((1.0, 0.0));
    trail.update(20_000);
    let points = trail.iter_with_alpha(100_000);
    assert_eq!(points.len(), 2);
    assert_eq!(points[0], ((1.0, 0.0), 80_000));
    assert_eq!(points[1], ((0.0, 0.0), 50_000));
    let old = trail.iter_with_alpha(40_000);
    assert_eq!(old[1].1, 0);
}

#[test]
fn trail_keeps_its_color() {
    let trail: SwordTrail<(f32, f32), u32> = SwordTrail::new(RED);
    assert_eq!(*trail.color(), RED);
    assert_eq!(trail.count(), 0);
}

#[test]
fn trail_via_vfx_manager_created_on_first_push() {
    let mut vfx: Vfx = VfxManager::new();
    assert_eq!(vfx.trail_count(), 0);
    vfx.push_trail_point(42, (0.0, 0.0), WHITE);
    assert_eq!(vfx.trail_count(), 1);
}

#[test]
fn trail_via_vfx_manager_one_per_entity() {
    let mut vfx: Vfx = VfxManager::new();
    vfx.push_trail_point(42, (0.0, 0.0), WHITE);
    vfx.push_trail_point(7, (5.0, 0.0), RED);
    vfx.push_trail_point(42, (1.0, 0.0), BLUE);
    assert_eq!(vfx.trail_count(), 2);
    let (id, trail) = vfx.trail_at(0);
    assert_eq!(id, 42);
    assert_eq!(trail.count(), 2);
    assert_eq!(*trail.color(), WHITE);
    let (id, trail) = vfx.trail_at(1);
    assert_eq!(id, 7);
    assert_eq!(trail.count(), 1);
}

// Dash ghost

#[test]
fn dash_ghost_active_after_spawn() {
    let mut vfx: Vfx = VfxManager::new();
    vfx.spawn_dash_ghost(ghost(10.0, 20.0, BLUE), us(0.2));
    assert_eq!(vfx.active_dash_ghosts().len(), 1);
}

#[test]
fn dash_ghost_expires_after_update() {
    let mut vfx: Vfx = VfxManager::new();
    vfx.spawn_dash_ghost(ghost(0.0, 0.0, BLUE), us(0.1));
    vfx.update(us(0.2));
    assert_eq!(vfx.active_dash_ghosts().len(), 0);
}

// Update

#[test]
fn update_clears_expired_across_all_pools() {
    let mut vfx: Vfx = VfxManager::new();
    vfx.spawn_flash(1, us(0.05));
    vfx.spawn_slash(slash(0.0, 0.0, 0.0, 5.0, 15.0, 30.0), us(0.05));
    vfx.spawn_dash_ghost(ghost(0.0, 0.0, RED), us(0.05));

    vfx.update(us(0.1));

    assert!(!vfx.is_flashing(1));
    assert_eq!(vfx.active_slashes().len(), 0);
    assert_eq!(vfx.active_dash_ghosts().len(), 0);
}

#[test]
fn update_ages_trails() {
    let mut vfx: Vfx = VfxManager::new();
    vfx.push_trail_point(1, (0.0, 0.0), WHITE);
    vfx.update(25_000);
    let (_, trail) = vfx.trail_at(0);
    assert_eq!(trail.iter_with_alpha(100_000)[0].1, 75_000);
}
