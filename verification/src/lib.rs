use vstd::prelude::*;

pub mod pool;
pub mod trail;
pub mod vfx;
pub mod resources;
pub mod debug_data;
pub mod game_phase;
pub mod debug_state;
pub mod shop_state;
pub mod ui_state;
pub mod event;
pub mod lobby;
pub mod main_menu;
pub mod input;
pub mod in_game;
pub mod tile_map;
pub mod assoc;
pub mod anim_key;
pub mod animation;
pub mod shop_ui;
pub mod frame;
pub mod shaders;
pub mod input_state;

verus! {

/// A duration or a point in time, in microseconds.
pub type Micros = u64;

} // verus!
