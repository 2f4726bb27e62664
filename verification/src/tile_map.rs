//! The sprites of the map's texture atlas.
use vstd::prelude::*;
use crate::anim_key::str_eq;

verus! {

/// Kind of a map tile.
#[derive(Debug, Clone, Copy, PartialEq, Eq, Structural)]
pub enum TileKind {
    MurPlatAngleBasGauche,
    MurPlatAngleBasDroit,
    MurPlatAngleDroit,
    MurPlatAngleGauche,
    MurPlat,
    MurPlatDroit,
    MurPlatGauche,
    MurAngleBasDroit,
    MurAngleBasGauche,
    MurAngleHautDroit,
    MurAngleHautGauche,
    MurSimple,
    MurSimple2,
    Tree,
    WallBush,
    MoyenCailloux,
    GrosCailloux,
    Flower,
    Tile,
    Grass,
}

/// Number of tile kinds.
pub const TILE_KINDS: usize = 20;

/// Position of each tile kind in the declaration order.
pub open spec fn tile_index(k: TileKind) -> int {
    match k {
        TileKind::MurPlatAngleBasGauche => 0,
        TileKind::MurPlatAngleBasDroit => 1,
        TileKind::MurPlatAngleDroit => 2,
        TileKind::MurPlatAngleGauche => 3,
        TileKind::MurPlat => 4,
        TileKind::MurPlatDroit => 5,
        TileKind::MurPlatGauche => 6,
        TileKind::MurAngleBasDroit => 7,
        TileKind::MurAngleBasGauche => 8,
        TileKind::MurAngleHautDroit => 9,
        TileKind::MurAngleHautGauche => 10,
        TileKind::MurSimple => 11,
        TileKind::MurSimple2 => 12,
        TileKind::Tree => 13,
        TileKind::WallBush => 14,
        TileKind::MoyenCailloux => 15,
        TileKind::GrosCailloux => 16,
        TileKind::Flower => 17,
        TileKind::Tile => 18,
        TileKind::Grass => 19,
    }
}

fn index_of(k: TileKind) -> (i: usize)
    ensures
        i == tile_index(k),
        i < TILE_KINDS,
{
    match k {
        TileKind::MurPlatAngleBasGauche => 0,
        TileKind::MurPlatAngleBasDroit => 1,
        TileKind::MurPlatAngleDroit => 2,
        TileKind::MurPlatAngleGauche => 3,
        TileKind::MurPlat => 4,
        TileKind::MurPlatDroit => 5,
        TileKind::MurPlatGauche => 6,
        TileKind::MurAngleBasDroit => 7,
        TileKind::MurAngleBasGauche => 8,
        TileKind::MurAngleHautDroit => 9,
        TileKind::MurAngleHautGauche => 10,
        TileKind::MurSimple => 11,
        TileKind::MurSimple2 => 12,
        TileKind::Tree => 13,
        TileKind::WallBush => 14,
        TileKind::MoyenCailloux => 15,
        TileKind::GrosCailloux => 16,
        TileKind::Flower => 17,
        TileKind::Tile => 18,
        TileKind::Grass => 19,
    }
}

/// The name of each tile kind in the atlas description.
pub open spec fn tile_name(k: TileKind) -> Seq<char> {
    match k {
        TileKind::MurPlatAngleBasGauche => "mur_plat_angle_bas_gauche"@,
        TileKind::MurPlatAngleBasDroit => "mur_plat_angle_bas_droit"@,
        TileKind::MurPlatAngleDroit => "mur_plat_angle_droit"@,
        TileKind::MurPlatAngleGauche => "mur_plat_angle_gauche"@,
        TileKind::MurPlat => "mur_plat"@,
        TileKind::MurPlatDroit => "mur_plat_droit"@,
        TileKind::MurPlatGauche => "mur_plat_gauche"@,
        TileKind::MurAngleBasDroit => "mur_angle_bas_droit"@,
        TileKind::MurAngleBasGauche => "mur_angle_bas_gauche"@,
        TileKind::MurAngleHautDroit => "mur_angle_haut_droit"@,
        TileKind::MurAngleHautGauche => "mur_angle_haut_gauche"@,
        TileKind::MurSimple => "mur_simple"@,
        TileKind::MurSimple2 => "mur_simple2"@,
        TileKind::Tree => "tree"@,
        TileKind::WallBush => "wall_bush"@,
        TileKind::MoyenCailloux => "moyen_cailloux"@,
        TileKind::GrosCailloux => "gros_cailloux"@,
        TileKind::Flower => "flower"@,
        TileKind::Tile => "tile"@,
        TileKind::Grass => "grass"@,
    }
}

/// The tile kind a name of the atlas description stands for, if any.
pub open spec fn parse_tile(s: Seq<char>) -> Option<TileKind> {
    if s == "mur_plat_angle_bas_gauche"@ {
        Some(TileKind::MurPlatAngleBasGauche)
    } else if s == "mur_plat_angle_bas_droit"@ {
        Some(TileKind::MurPlatAngleBasDroit)
    } else if s == "mur_plat_angle_droit"@ {
        Some(TileKind::MurPlatAngleDroit)
    } else if s == "mur_plat_angle_gauche"@ {
        Some(TileKind::MurPlatAngleGauche)
    } else if s == "mur_plat"@ {
        Some(TileKind::MurPlat)
    } else if s == "mur_plat_droit"@ {
        Some(TileKind::MurPlatDroit)
    } else if s == "mur_plat_gauche"@ {
        Some(TileKind::MurPlatGauche)
    } else if s == "mur_angle_bas_droit"@ {
        Some(TileKind::MurAngleBasDroit)
    } else if s == "mur_angle_bas_gauche"@ {
        Some(TileKind::MurAngleBasGauche)
    } else if s == "mur_angle_haut_droit"@ {
        Some(TileKind::MurAngleHautDroit)
    } else if s == "mur_angle_haut_gauche"@ {
        Some(TileKind::MurAngleHautGauche)
    } else if s == "mur_simple"@ {
        Some(TileKind::MurSimple)
    } else if s == "mur_simple2"@ {
        Some(TileKind::MurSimple2)
    } else if s == "tree"@ {
        Some(TileKind::Tree)
    } else if s == "wall_bush"@ {
        Some(TileKind::WallBush)
    } else if s == "moyen_cailloux"@ {
        Some(TileKind::MoyenCailloux)
    } else if s == "gros_cailloux"@ {
        Some(TileKind::GrosCailloux)
    } else if s == "flower"@ {
        Some(TileKind::Flower)
    } else if s == "tile"@ {
        Some(TileKind::Tile)
    } else if s == "grass"@ {
        Some(TileKind::Grass)
    } else {
        None
    }
}

/// The tile kind named `name` in the atlas description, if any.
pub fn tile_kind_from_name(name: &str) -> (k: Option<TileKind>)
    ensures
        k == parse_tile(name@),
{
    if str_eq(name, "mur_plat_angle_bas_gauche") {
        return Some(TileKind::MurPlatAngleBasGauche);
    }
    if str_eq(name, "mur_plat_angle_bas_droit") {
        return Some(TileKind::MurPlatAngleBasDroit);
    }
    if str_eq(name, "mur_plat_angle_droit") {
        return Some(TileKind::MurPlatAngleDroit);
    }
    if str_eq(name, "mur_plat_angle_gauche") {
        return Some(TileKind::MurPlatAngleGauche);
    }
    if str_eq(name, "mur_plat") {
        return Some(TileKind::MurPlat);
    }
    if str_eq(name, "mur_plat_droit") {
        return Some(TileKind::MurPlatDroit);
    }
    if str_eq(name, "mur_plat_gauche") {
        return Some(TileKind::MurPlatGauche);
    }
    if str_eq(name, "mur_angle_bas_droit") {
        return Some(TileKind::MurAngleBasDroit);
    }
    if str_eq(name, "mur_angle_bas_gauche") {
        return Some(TileKind::MurAngleBasGauche);
    }
    if str_eq(name, "mur_angle_haut_droit") {
        return Some(TileKind::MurAngleHautDroit);
    }
    if str_eq(name, "mur_angle_haut_gauche") {
        return Some(TileKind::MurAngleHautGauche);
    }
    if str_eq(name, "mur_simple") {
        return Some(TileKind::MurSimple);
    }
    if str_eq(name, "mur_simple2") {
        return Some(TileKind::MurSimple2);
    }
    if str_eq(name, "tree") {
        return Some(TileKind::Tree);
    }
    if str_eq(name, "wall_bush") {
        return Some(TileKind::WallBush);
    }
    if str_eq(name, "moyen_cailloux") {
        return Some(TileKind::MoyenCailloux);
    }
    if str_eq(name, "gros_cailloux") {
        return Some(TileKind::GrosCailloux);
    }
    if str_eq(name, "flower") {
        return Some(TileKind::Flower);
    }
    if str_eq(name, "tile") {
        return Some(TileKind::Tile);
    }
    if str_eq(name, "grass") {
        return Some(TileKind::Grass);
    }
    None
}

proof fn lemma_tile_names_differ()
    ensures
        "mur_plat_angle_bas_droit"@ != "mur_plat_angle_bas_gauche"@,
        "mur_plat_angle_droit"@ != "mur_plat_angle_bas_gauche"@,
        "mur_plat_angle_droit"@ != "mur_plat_angle_bas_droit"@,
        "mur_plat_angle_gauche"@ != "mur_plat_angle_bas_gauche"@,
        "mur_plat_angle_gauche"@ != "mur_plat_angle_bas_droit"@,
        "mur_plat_angle_gauche"@ != "mur_plat_angle_droit"@,
        "mur_plat"@ != "mur_plat_angle_bas_gauche"@,
        "mur_plat"@ != "mur_plat_angle_bas_droit"@,
        "mur_plat"@ != "mur_plat_angle_droit"@,
        "mur_plat"@ != "mur_plat_angle_gauche"@,
        "mur_plat_droit"@ != "mur_plat_angle_bas_gauche"@,
        "mur_plat_droit"@ != "mur_plat_angle_bas_droit"@,
        "mur_plat_droit"@ != "mur_plat_angle_droit"@,
        "mur_plat_droit"@ != "mur_plat_angle_gauche"@,
        "mur_plat_droit"@ != "mur_plat"@,
        "mur_plat_gauche"@ != "mur_plat_angle_bas_gauche"@,
        "mur_plat_gauche"@ != "mur_plat_angle_bas_droit"@,
        "mur_plat_gauche"@ != "mur_plat_angle_droit"@,
        "mur_plat_gauche"@ != "mur_plat_angle_gauche"@,
        "mur_plat_gauche"@ != "mur_plat"@,
        "mur_plat_gauche"@ != "mur_plat_droit"@,
        "mur_angle_bas_droit"@ != "mur_plat_angle_bas_gauche"@,
        "mur_angle_bas_droit"@ != "mur_plat_angle_bas_droit"@,
        "mur_angle_bas_droit"@ != "mur_plat_angle_droit"@,
        "mur_angle_bas_droit"@ != "mur_plat_angle_gauche"@,
        "mur_angle_bas_droit"@ != "mur_plat"@,
        "mur_angle_bas_droit"@ != "mur_plat_droit"@,
        "mur_angle_bas_droit"@ != "mur_plat_gauche"@,
        "mur_angle_bas_gauche"@ != "mur_plat_angle_bas_gauche"@,
        "mur_angle_bas_gauche"@ != "mur_plat_angle_bas_droit"@,
        "mur_angle_bas_gauche"@ != "mur_plat_angle_droit"@,
        "mur_angle_bas_gauche"@ != "mur_plat_angle_gauche"@,
        "mur_angle_bas_gauche"@ != "mur_plat"@,
        "mur_angle_bas_gauche"@ != "mur_plat_droit"@,
        "mur_angle_bas_gauche"@ != "mur_plat_gauche"@,
        "mur_angle_bas_gauche"@ != "mur_angle_bas_droit"@,
        "mur_angle_haut_droit"@ != "mur_plat_angle_bas_gauche"@,
        "mur_angle_haut_droit"@ != "mur_plat_angle_bas_droit"@,
        "mur_angle_haut_droit"@ != "mur_plat_angle_droit"@,
        "mur_angle_haut_droit"@ != "mur_plat_angle_gauche"@,
        "mur_angle_haut_droit"@ != "mur_plat"@,
        "mur_angle_haut_droit"@ != "mur_plat_droit"@,
        "mur_angle_haut_droit"@ != "mur_plat_gauche"@,
        "mur_angle_haut_droit"@ != "mur_angle_bas_droit"@,
        "mur_angle_haut_droit"@ != "mur_angle_bas_gauche"@,
        "mur_angle_haut_gauche"@ != "mur_plat_angle_bas_gauche"@,
        "mur_angle_haut_gauche"@ != "mur_plat_angle_bas_droit"@,
        "mur_angle_haut_gauche"@ != "mur_plat_angle_droit"@,
        "mur_angle_haut_gauche"@ != "mur_plat_angle_gauche"@,
        "mur_angle_haut_gauche"@ != "mur_plat"@,
        "mur_angle_haut_gauche"@ != "mur_plat_droit"@,
        "mur_angle_haut_gauche"@ != "mur_plat_gauche"@,
        "mur_angle_haut_gauche"@ != "mur_angle_bas_droit"@,
        "mur_angle_haut_gauche"@ != "mur_angle_bas_gauche"@,
        "mur_angle_haut_gauche"@ != "mur_angle_haut_droit"@,
        "mur_simple"@ != "mur_plat_angle_bas_gauche"@,
        "mur_simple"@ != "mur_plat_angle_bas_droit"@,
        "mur_simple"@ != "mur_plat_angle_droit"@,
        "mur_simple"@ != "mur_plat_angle_gauche"@,
        "mur_simple"@ != "mur_plat"@,
        "mur_simple"@ != "mur_plat_droit"@,
        "mur_simple"@ != "mur_plat_gauche"@,
        "mur_simple"@ != "mur_angle_bas_droit"@,
        "mur_simple"@ != "mur_angle_bas_gauche"@,
        "mur_simple"@ != "mur_angle_haut_droit"@,
        "mur_simple"@ != "mur_angle_haut_gauche"@,
        "mur_simple2"@ != "mur_plat_angle_bas_gauche"@,
        "mur_simple2"@ != "mur_plat_angle_bas_droit"@,
        "mur_simple2"@ != "mur_plat_angle_droit"@,
        "mur_simple2"@ != "mur_plat_angle_gauche"@,
        "mur_simple2"@ != "mur_plat"@,
        "mur_simple2"@ != "mur_plat_droit"@,
        "mur_simple2"@ != "mur_plat_gauche"@,
        "mur_simple2"@ != "mur_angle_bas_droit"@,
        "mur_simple2"@ != "mur_angle_bas_gauche"@,
        "mur_simple2"@ != "mur_angle_haut_droit"@,
        "mur_simple2"@ != "mur_angle_haut_gauche"@,
        "mur_simple2"@ != "mur_simple"@,
        "tree"@ != "mur_plat_angle_bas_gauche"@,
        "tree"@ != "mur_plat_angle_bas_droit"@,
        "tree"@ != "mur_plat_angle_droit"@,
        "tree"@ != "mur_plat_angle_gauche"@,
        "tree"@ != "mur_plat"@,
        "tree"@ != "mur_plat_droit"@,
        "tree"@ != "mur_plat_gauche"@,
        "tree"@ != "mur_angle_bas_droit"@,
        "tree"@ != "mur_angle_bas_gauche"@,
        "tree"@ != "mur_angle_haut_droit"@,
        "tree"@ != "mur_angle_haut_gauche"@,
        "tree"@ != "mur_simple"@,
        "tree"@ != "mur_simple2"@,
        "wall_bush"@ != "mur_plat_angle_bas_gauche"@,
        "wall_bush"@ != "mur_plat_angle_bas_droit"@,
        "wall_bush"@ != "mur_plat_angle_droit"@,
        "wall_bush"@ != "mur_plat_angle_gauche"@,
        "wall_bush"@ != "mur_plat"@,
        "wall_bush"@ != "mur_plat_droit"@,
        "wall_bush"@ != "mur_plat_gauche"@,
        "wall_bush"@ != "mur_angle_bas_droit"@,
        "wall_bush"@ != "mur_angle_bas_gauche"@,
        "wall_bush"@ != "mur_angle_haut_droit"@,
        "wall_bush"@ != "mur_angle_haut_gauche"@,
        "wall_bush"@ != "mur_simple"@,
        "wall_bush"@ != "mur_simple2"@,
        "wall_bush"@ != "tree"@,
        "moyen_cailloux"@ != "mur_plat_angle_bas_gauche"@,
        "moyen_cailloux"@ != "mur_plat_angle_bas_droit"@,
        "moyen_cailloux"@ != "mur_plat_angle_droit"@,
        "moyen_cailloux"@ != "mur_plat_angle_gauche"@,
        "moyen_cailloux"@ != "mur_plat"@,
        "moyen_cailloux"@ != "mur_plat_droit"@,
        "moyen_cailloux"@ != "mur_plat_gauche"@,
        "moyen_cailloux"@ != "mur_angle_bas_droit"@,
        "moyen_cailloux"@ != "mur_angle_bas_gauche"@,
        "moyen_cailloux"@ != "mur_angle_haut_droit"@,
        "moyen_cailloux"@ != "mur_angle_haut_gauche"@,
        "moyen_cailloux"@ != "mur_simple"@,
        "moyen_cailloux"@ != "mur_simple2"@,
        "moyen_cailloux"@ != "tree"@,
        "moyen_cailloux"@ != "wall_bush"@,
        "gros_cailloux"@ != "mur_plat_angle_bas_gauche"@,
        "gros_cailloux"@ != "mur_plat_angle_bas_droit"@,
        "gros_cailloux"@ != "mur_plat_angle_droit"@,
        "gros_cailloux"@ != "mur_plat_angle_gauche"@,
        "gros_cailloux"@ != "mur_plat"@,
        "gros_cailloux"@ != "mur_plat_droit"@,
        "gros_cailloux"@ != "mur_plat_gauche"@,
        "gros_cailloux"@ != "mur_angle_bas_droit"@,
        "gros_cailloux"@ != "mur_angle_bas_gauche"@,
        "gros_cailloux"@ != "mur_angle_haut_droit"@,
        "gros_cailloux"@ != "mur_angle_haut_gauche"@,
        "gros_cailloux"@ != "mur_simple"@,
        "gros_cailloux"@ != "mur_simple2"@,
        "gros_cailloux"@ != "tree"@,
        "gros_cailloux"@ != "wall_bush"@,
        "gros_cailloux"@ != "moyen_cailloux"@,
        "flower"@ != "mur_plat_angle_bas_gauche"@,
        "flower"@ != "mur_plat_angle_bas_droit"@,
        "flower"@ != "mur_plat_angle_droit"@,
        "flower"@ != "mur_plat_angle_gauche"@,
        "flower"@ != "mur_plat"@,
        "flower"@ != "mur_plat_droit"@,
        "flower"@ != "mur_plat_gauche"@,
        "flower"@ != "mur_angle_bas_droit"@,
        "flower"@ != "mur_angle_bas_gauche"@,
        "flower"@ != "mur_angle_haut_droit"@,
        "flower"@ != "mur_angle_haut_gauche"@,
        "flower"@ != "mur_simple"@,
        "flower"@ != "mur_simple2"@,
        "flower"@ != "tree"@,
        "flower"@ != "wall_bush"@,
        "flower"@ != "moyen_cailloux"@,
        "flower"@ != "gros_cailloux"@,
        "tile"@ != "mur_plat_angle_bas_gauche"@,
        "tile"@ != "mur_plat_angle_bas_droit"@,
        "tile"@ != "mur_plat_angle_droit"@,
        "tile"@ != "mur_plat_angle_gauche"@,
        "tile"@ != "mur_plat"@,
        "tile"@ != "mur_plat_droit"@,
        "tile"@ != "mur_plat_gauche"@,
        "tile"@ != "mur_angle_bas_droit"@,
        "tile"@ != "mur_angle_bas_gauche"@,
        "tile"@ != "mur_angle_haut_droit"@,
        "tile"@ != "mur_angle_haut_gauche"@,
        "tile"@ != "mur_simple"@,
        "tile"@ != "mur_simple2"@,
        "tile"@ != "tree"@,
        "tile"@ != "wall_bush"@,
        "tile"@ != "moyen_cailloux"@,
        "tile"@ != "gros_cailloux"@,
        "tile"@ != "flower"@,
        "grass"@ != "mur_plat_angle_bas_gauche"@,
        "grass"@ != "mur_plat_angle_bas_droit"@,
        "grass"@ != "mur_plat_angle_droit"@,
        "grass"@ != "mur_plat_angle_gauche"@,
        "grass"@ != "mur_plat"@,
        "grass"@ != "mur_plat_droit"@,
        "grass"@ != "mur_plat_gauche"@,
        "grass"@ != "mur_angle_bas_droit"@,
        "grass"@ != "mur_angle_bas_gauche"@,
        "grass"@ != "mur_angle_haut_droit"@,
        "grass"@ != "mur_angle_haut_gauche"@,
        "grass"@ != "mur_simple"@,
        "grass"@ != "mur_simple2"@,
        "grass"@ != "tree"@,
        "grass"@ != "wall_bush"@,
        "grass"@ != "moyen_cailloux"@,
        "grass"@ != "gros_cailloux"@,
        "grass"@ != "flower"@,
        "grass"@ != "tile"@,
{
    reveal_strlit("mur_plat_angle_bas_gauche");
    reveal_strlit("mur_plat_angle_bas_droit");
    reveal_strlit("mur_plat_angle_droit");
    reveal_strlit("mur_plat_angle_gauche");
    reveal_strlit("mur_plat");
    reveal_strlit("mur_plat_droit");
    reveal_strlit("mur_plat_gauche");
    reveal_strlit("mur_angle_bas_droit");
    reveal_strlit("mur_angle_bas_gauche");
    reveal_strlit("mur_angle_haut_droit");
    reveal_strlit("mur_angle_haut_gauche");
    reveal_strlit("mur_simple");
    reveal_strlit("mur_simple2");
    reveal_strlit("tree");
    reveal_strlit("wall_bush");
    reveal_strlit("moyen_cailloux");
    reveal_strlit("gros_cailloux");
    reveal_strlit("flower");
    reveal_strlit("tile");
    reveal_strlit("grass");
    assert("mur_plat_angle_bas_droit"@.len() != "mur_plat_angle_bas_gauche"@.len());
    assert("mur_plat_angle_droit"@.len() != "mur_plat_angle_bas_gauche"@.len());
    assert("mur_plat_angle_droit"@.len() != "mur_plat_angle_bas_droit"@.len());
    assert("mur_plat_angle_gauche"@.len() != "mur_plat_angle_bas_gauche"@.len());
    assert("mur_plat_angle_gauche"@.len() != "mur_plat_angle_bas_droit"@.len());
    assert("mur_plat_angle_gauche"@.len() != "mur_plat_angle_droit"@.len());
    assert("mur_plat"@.len() != "mur_plat_angle_bas_gauche"@.len());
    assert("mur_plat"@.len() != "mur_plat_angle_bas_droit"@.len());
    assert("mur_plat"@.len() != "mur_plat_angle_droit"@.len());
    assert("mur_plat"@.len() != "mur_plat_angle_gauche"@.len());
    assert("mur_plat_droit"@.len() != "mur_plat_angle_bas_gauche"@.len());
    assert("mur_plat_droit"@.len() != "mur_plat_angle_bas_droit"@.len());
    assert("mur_plat_droit"@.len() != "mur_plat_angle_droit"@.len());
    assert("mur_plat_droit"@.len() != "mur_plat_angle_gauche"@.len());
    assert("mur_plat_droit"@.len() != "mur_plat"@.len());
    assert("mur_plat_gauche"@.len() != "mur_plat_angle_bas_gauche"@.len());
    assert("mur_plat_gauche"@.len() != "mur_plat_angle_bas_droit"@.len());
    assert("mur_plat_gauche"@.len() != "mur_plat_angle_droit"@.len());
    assert("mur_plat_gauche"@.len() != "mur_plat_angle_gauche"@.len());
    assert("mur_plat_gauche"@.len() != "mur_plat"@.len());
    assert("mur_plat_gauche"@.len() != "mur_plat_droit"@.len());
    assert("mur_angle_bas_droit"@.len() != "mur_plat_angle_bas_gauche"@.len());
    assert("mur_angle_bas_droit"@.len() != "mur_plat_angle_bas_droit"@.len());
    assert("mur_angle_bas_droit"@.len() != "mur_plat_angle_droit"@.len());
    assert("mur_angle_bas_droit"@.len() != "mur_plat_angle_gauche"@.len());
    assert("mur_angle_bas_droit"@.len() != "mur_plat"@.len());
    assert("mur_angle_bas_droit"@.len() != "mur_plat_droit"@.len());
    assert("mur_angle_bas_droit"@.len() != "mur_plat_gauche"@.len());
    assert("mur_angle_bas_gauche"@.len() != "mur_plat_angle_bas_gauche"@.len());
    assert("mur_angle_bas_gauche"@.len() != "mur_plat_angle_bas_droit"@.len());
    assert("mur_angle_bas_gauche"@[4] != "mur_plat_angle_droit"@[4]);
    assert("mur_angle_bas_gauche"@.len() != "mur_plat_angle_gauche"@.len());
    assert("mur_angle_bas_gauche"@.len() != "mur_plat"@.len());
    assert("mur_angle_bas_gauche"@.len() != "mur_plat_droit"@.len());
    assert("mur_angle_bas_gauche"@.len() != "mur_plat_gauche"@.len());
    assert("mur_angle_bas_gauche"@.len() != "mur_angle_bas_droit"@.len());
    assert("mur_angle_haut_droit"@.len() != "mur_plat_angle_bas_gauche"@.len());
    assert("mur_angle_haut_droit"@.len() != "mur_plat_angle_bas_droit"@.len());
    assert("mur_angle_haut_droit"@[4] != "mur_plat_angle_droit"@[4]);
    assert("mur_angle_haut_droit"@.len() != "mur_plat_angle_gauche"@.len());
    assert("mur_angle_haut_droit"@.len() != "mur_plat"@.len());
    assert("mur_angle_haut_droit"@.len() != "mur_plat_droit"@.len());
    assert("mur_angle_haut_droit"@.len() != "mur_plat_gauche"@.len());
    assert("mur_angle_haut_droit"@.len() != "mur_angle_bas_droit"@.len());
    assert("mur_angle_haut_droit"@[10] != "mur_angle_bas_gauche"@[10]);
    assert("mur_angle_haut_gauche"@.len() != "mur_plat_angle_bas_gauche"@.len());
    assert("mur_angle_haut_gauche"@.len() != "mur_plat_angle_bas_droit"@.len());
    assert("mur_angle_haut_gauche"@.len() != "mur_plat_angle_droit"@.len());
    assert("mur_angle_haut_gauche"@[4] != "mur_plat_angle_gauche"@[4]);
    assert("mur_angle_haut_gauche"@.len() != "mur_plat"@.len());
    assert("mur_angle_haut_gauche"@.len() != "mur_plat_droit"@.len());
    assert("mur_angle_haut_gauche"@.len() != "mur_plat_gauche"@.len());
    assert("mur_angle_haut_gauche"@.len() != "mur_angle_bas_droit"@.len());
    assert("mur_angle_haut_gauche"@.len() != "mur_angle_bas_gauche"@.len());
    assert("mur_angle_haut_gauche"@.len() != "mur_angle_haut_droit"@.len());
    assert("mur_simple"@.len() != "mur_plat_angle_bas_gauche"@.len());
    assert("mur_simple"@.len() != "mur_plat_angle_bas_droit"@.len());
    assert("mur_simple"@.len() != "mur_plat_angle_droit"@.len());
    assert("mur_simple"@.len() != "mur_plat_angle_gauche"@.len());
    assert("mur_simple"@.len() != "mur_plat"@.len());
    assert("mur_simple"@.len() != "mur_plat_droit"@.len());
    assert("mur_simple"@.len() != "mur_plat_gauche"@.len());
    assert("mur_simple"@.len() != "mur_angle_bas_droit"@.len());
    assert("mur_simple"@.len() != "mur_angle_bas_gauche"@.len());
    assert("mur_simple"@.len() != "mur_angle_haut_droit"@.len());
    assert("mur_simple"@.len() != "mur_angle_haut_gauche"@.len());
    assert("mur_simple2"@.len() != "mur_plat_angle_bas_gauche"@.len());
    assert("mur_simple2"@.len() != "mur_plat_angle_bas_droit"@.len());
    assert("mur_simple2"@.len() != "mur_plat_angle_droit"@.len());
    assert("mur_simple2"@.len() != "mur_plat_angle_gauche"@.len());
    assert("mur_simple2"@.len() != "mur_plat"@.len());
    assert("mur_simple2"@.len() != "mur_plat_droit"@.len());
    assert("mur_simple2"@.len() != "mur_plat_gauche"@.len());
    assert("mur_simple2"@.len() != "mur_angle_bas_droit"@.len());
    assert("mur_simple2"@.len() != "mur_angle_bas_gauche"@.len());
    assert("mur_simple2"@.len() != "mur_angle_haut_droit"@.len());
    assert("mur_simple2"@.len() != "mur_angle_haut_gauche"@.len());
    assert("mur_simple2"@.len() != "mur_simple"@.len());
    assert("tree"@.len() != "mur_plat_angle_bas_gauche"@.len());
    assert("tree"@.len() != "mur_plat_angle_bas_droit"@.len());
    assert("tree"@.len() != "mur_plat_angle_droit"@.len());
    assert("tree"@.len() != "mur_plat_angle_gauche"@.len());
    assert("tree"@.len() != "mur_plat"@.len());
    assert("tree"@.len() != "mur_plat_droit"@.len());
    assert("tree"@.len() != "mur_plat_gauche"@.len());
    assert("tree"@.len() != "mur_angle_bas_droit"@.len());
    assert("tree"@.len() != "mur_angle_bas_gauche"@.len());
    assert("tree"@.len() != "mur_angle_haut_droit"@.len());
    assert("tree"@.len() != "mur_angle_haut_gauche"@.len());
    assert("tree"@.len() != "mur_simple"@.len());
    assert("tree"@.len() != "mur_simple2"@.len());
    assert("wall_bush"@.len() != "mur_plat_angle_bas_gauche"@.len());
    assert("wall_bush"@.len() != "mur_plat_angle_bas_droit"@.len());
    assert("wall_bush"@.len() != "mur_plat_angle_droit"@.len());
    assert("wall_bush"@.len() != "mur_plat_angle_gauche"@.len());
    assert("wall_bush"@.len() != "mur_plat"@.len());
    assert("wall_bush"@.len() != "mur_plat_droit"@.len());
    assert("wall_bush"@.len() != "mur_plat_gauche"@.len());
    assert("wall_bush"@.len() != "mur_angle_bas_droit"@.len());
    assert("wall_bush"@.len() != "mur_angle_bas_gauche"@.len());
    assert("wall_bush"@.len() != "mur_angle_haut_droit"@.len());
    assert("wall_bush"@.len() != "mur_angle_haut_gauche"@.len());
    assert("wall_bush"@.len() != "mur_simple"@.len());
    assert("wall_bush"@.len() != "mur_simple2"@.len());
    assert("wall_bush"@.len() != "tree"@.len());
    assert("moyen_cailloux"@.len() != "mur_plat_angle_bas_gauche"@.len());
    assert("moyen_cailloux"@.len() != "mur_plat_angle_bas_droit"@.len());
    assert("moyen_cailloux"@.len() != "mur_plat_angle_droit"@.len());
    assert("moyen_cailloux"@.len() != "mur_plat_angle_gauche"@.len());
    assert("moyen_cailloux"@.len() != "mur_plat"@.len());
    assert("moyen_cailloux"@[1] != "mur_plat_droit"@[1]);
    assert("moyen_cailloux"@.len() != "mur_plat_gauche"@.len());
    assert("moyen_cailloux"@.len() != "mur_angle_bas_droit"@.len());
    assert("moyen_cailloux"@.len() != "mur_angle_bas_gauche"@.len());
    assert("moyen_cailloux"@.len() != "mur_angle_haut_droit"@.len());
    assert("moyen_cailloux"@.len() != "mur_angle_haut_gauche"@.len());
    assert("moyen_cailloux"@.len() != "mur_simple"@.len());
    assert("moyen_cailloux"@.len() != "mur_simple2"@.len());
    assert("moyen_cailloux"@.len() != "tree"@.len());
    assert("moyen_cailloux"@.len() != "wall_bush"@.len());
    assert("gros_cailloux"@.len() != "mur_plat_angle_bas_gauche"@.len());
    assert("gros_cailloux"@.len() != "mur_plat_angle_bas_droit"@.len());
    assert("gros_cailloux"@.len() != "mur_plat_angle_droit"@.len());
    assert("gros_cailloux"@.len() != "mur_plat_angle_gauche"@.len());
    assert("gros_cailloux"@.len() != "mur_plat"@.len());
    assert("gros_cailloux"@.len() != "mur_plat_droit"@.len());
    assert("gros_cailloux"@.len() != "mur_plat_gauche"@.len());
    assert("gros_cailloux"@.len() != "mur_angle_bas_droit"@.len());
    assert("gros_cailloux"@.len() != "mur_angle_bas_gauche"@.len());
    assert("gros_cailloux"@.len() != "mur_angle_haut_droit"@.len());
    assert("gros_cailloux"@.len() != "mur_angle_haut_gauche"@.len());
    assert("gros_cailloux"@.len() != "mur_simple"@.len());
    assert("gros_cailloux"@.len() != "mur_simple2"@.len());
    assert("gros_cailloux"@.len() != "tree"@.len());
    assert("gros_cailloux"@.len() != "wall_bush"@.len());
    assert("gros_cailloux"@.len() != "moyen_cailloux"@.len());
    assert("flower"@.len() != "mur_plat_angle_bas_gauche"@.len());
    assert("flower"@.len() != "mur_plat_angle_bas_droit"@.len());
    assert("flower"@.len() != "mur_plat_angle_droit"@.len());
    assert("flower"@.len() != "mur_plat_angle_gauche"@.len());
    assert("flower"@.len() != "mur_plat"@.len());
    assert("flower"@.len() != "mur_plat_droit"@.len());
    assert("flower"@.len() != "mur_plat_gauche"@.len());
    assert("flower"@.len() != "mur_angle_bas_droit"@.len());
    assert("flower"@.len() != "mur_angle_bas_gauche"@.len());
    assert("flower"@.len() != "mur_angle_haut_droit"@.len());
    assert("flower"@.len() != "mur_angle_haut_gauche"@.len());
    assert("flower"@.len() != "mur_simple"@.len());
    assert("flower"@.len() != "mur_simple2"@.len());
    assert("flower"@.len() != "tree"@.len());
    assert("flower"@.len() != "wall_bush"@.len());
    assert("flower"@.len() != "moyen_cailloux"@.len());
    assert("flower"@.len() != "gros_cailloux"@.len());
    assert("tile"@.len() != "mur_plat_angle_bas_gauche"@.len());
    assert("tile"@.len() != "mur_plat_angle_bas_droit"@.len());
    assert("tile"@.len() != "mur_plat_angle_droit"@.len());
    assert("tile"@.len() != "mur_plat_angle_gauche"@.len());
    assert("tile"@.len() != "mur_plat"@.len());
    assert("tile"@.len() != "mur_plat_droit"@.len());
    assert("tile"@.len() != "mur_plat_gauche"@.len());
    assert("tile"@.len() != "mur_angle_bas_droit"@.len());
    assert("tile"@.len() != "mur_angle_bas_gauche"@.len());
    assert("tile"@.len() != "mur_angle_haut_droit"@.len());
    assert("tile"@.len() != "mur_angle_haut_gauche"@.len());
    assert("tile"@.len() != "mur_simple"@.len());
    assert("tile"@.len() != "mur_simple2"@.len());
    assert("tile"@[1] != "tree"@[1]);
    assert("tile"@.len() != "wall_bush"@.len());
    assert("tile"@.len() != "moyen_cailloux"@.len());
    assert("tile"@.len() != "gros_cailloux"@.len());
    assert("tile"@.len() != "flower"@.len());
    assert("grass"@.len() != "mur_plat_angle_bas_gauche"@.len());
    assert("grass"@.len() != "mur_plat_angle_bas_droit"@.len());
    assert("grass"@.len() != "mur_plat_angle_droit"@.len());
    assert("grass"@.len() != "mur_plat_angle_gauche"@.len());
    assert("grass"@.len() != "mur_plat"@.len());
    assert("grass"@.len() != "mur_plat_droit"@.len());
    assert("grass"@.len() != "mur_plat_gauche"@.len());
    assert("grass"@.len() != "mur_angle_bas_droit"@.len());
    assert("grass"@.len() != "mur_angle_bas_gauche"@.len());
    assert("grass"@.len() != "mur_angle_haut_droit"@.len());
    assert("grass"@.len() != "mur_angle_haut_gauche"@.len());
    assert("grass"@.len() != "mur_simple"@.len());
    assert("grass"@.len() != "mur_simple2"@.len());
    assert("grass"@.len() != "tree"@.len());
    assert("grass"@.len() != "wall_bush"@.len());
    assert("grass"@.len() != "moyen_cailloux"@.len());
    assert("grass"@.len() != "gros_cailloux"@.len());
    assert("grass"@.len() != "flower"@.len());
    assert("grass"@.len() != "tile"@.len());
}

/// Every tile kind has its own name: parsing the name of a kind gives it
/// back, and a name that parses names the kind it parses to.
pub proof fn law_tile_name_round_trip(k: TileKind, s: Seq<char>)
    ensures
        parse_tile(tile_name(k)) == Some(k),
        parse_tile(s) is Some ==> tile_name(parse_tile(s)->0) == s,
{
    lemma_tile_names_differ();
}

/// Where a sprite lies in the atlas, in pixels.
#[derive(Debug, Clone, Copy, PartialEq, Eq, Structural)]
pub struct Bounds {
    pub x: u32,
    pub y: u32,
    pub w: u32,
    pub h: u32,
}

/// The sprite of each tile kind in the atlas.
pub struct TextureAtlasInfo {
    sprites: Vec<Option<Bounds>>,
}

impl View for TextureAtlasInfo {
    type V = Map<TileKind, Bounds>;

    closed spec fn view(&self) -> Map<TileKind, Bounds> {
        Map::new(
            |k: TileKind| self.sprites@[tile_index(k)] is Some,
            |k: TileKind| self.sprites@[tile_index(k)]->0,
        )
    }
}

impl TextureAtlasInfo {
    /// Internal consistency: one entry per tile kind.
    pub closed spec fn wf(&self) -> bool {
        self.sprites@.len() == TILE_KINDS
    }

    /// No sprite yet.
    pub fn new() -> (a: Self)
        ensures
            a.wf(),
            a@ == Map::<TileKind, Bounds>::empty(),
    {
        let mut sprites: Vec<Option<Bounds>> = Vec::new();
        let mut i: usize = 0;
        while i < TILE_KINDS
            invariant
                i <= TILE_KINDS,
                sprites@.len() == i,
                forall|j: int| 0 <= j < i ==> #[trigger] sprites@[j] is None,
            decreases TILE_KINDS - i,
        {
            sprites.push(None);
            i = i + 1;
        }
        let a = TextureAtlasInfo { sprites };
        proof {
            assert(a@ =~= Map::<TileKind, Bounds>::empty());
        }
        a
    }

    /// Records the sprite of `kind`, replacing an earlier one.
    pub fn insert(&mut self, kind: TileKind, bounds: Bounds)
        requires
            old(self).wf(),
        ensures
            final(self).wf(),
            final(self)@ == old(self)@.insert(kind, bounds),
    {
        let i = index_of(kind);
        self.sprites.set(i, Some(bounds));
        proof {
            assert forall|k: TileKind| k != kind implies tile_index(k) != tile_index(kind) by {}
            assert(self@ =~= old(self)@.insert(kind, bounds));
        }
    }

    /// The sprite of `kind`, which must have been recorded.
    pub fn get(&self, kind: TileKind) -> (b: &Bounds)
        requires
            self.wf(),
            self@.contains_key(kind),
        ensures
            *b == self@[kind],
    {
        let i = index_of(kind);
        match &self.sprites[i] {
            Some(b) => b,
            None => vstd::pervasive::unreached(),
        }
    }

    /// The sprite of `kind`, if it was recorded.
    pub fn try_get(&self, kind: TileKind) -> (b: Option<Bounds>)
        requires
            self.wf(),
        ensures
            b == if self@.contains_key(kind) {
                Some(self@[kind])
            } else {
                None::<Bounds>
            },
    {
        let i = index_of(kind);
        self.sprites[i]
    }
}

/// Why an atlas description was refused.
#[derive(Debug, Clone, Copy, PartialEq, Eq, Structural)]
pub enum AtlasError {
    /// The name of slice `index` is no tile kind.
    UnknownTile { index: usize },
}

/// The slices of an atlas description with their names as text.
pub open spec fn slice_entries(slices: Seq<(String, Bounds)>) -> Seq<(Seq<char>, Bounds)> {
    slices.map_values(|p: (String, Bounds)| (p.0@, p.1))
}

/// The sprites that `slices` describe, in order, a later slice of a kind
/// replacing an earlier one.
pub open spec fn atlas_of(slices: Seq<(Seq<char>, Bounds)>) -> Map<TileKind, Bounds>
    decreases slices.len(),
{
    if slices.len() == 0 {
        Map::empty()
    } else {
        atlas_of(slices.drop_last()).insert(parse_tile(slices.last().0)->0, slices.last().1)
    }
}

impl TextureAtlasInfo {
    /// The atlas that `slices` describe, each a tile name and where its
    /// sprite lies; refused at the first slice whose name is no tile kind.
    pub fn from_slices(slices: &Vec<(String, Bounds)>) -> (r: Result<TextureAtlasInfo, AtlasError>)
        ensures
            match r {
                Ok(a) => {
                    &&& a.wf()
                    &&& a@ == atlas_of(slice_entries(slices@))
                    &&& forall|i: int| 0 <= i < slices@.len() ==> parse_tile((#[trigger] slices@[i]).0@) is Some
                },
                Err(AtlasError::UnknownTile { index }) => {
                    &&& index < slices@.len()
                    &&& parse_tile(slices@[index as int].0@) is None
                    &&& forall|i: int| 0 <= i < index ==> parse_tile((#[trigger] slices@[i]).0@) is Some
                },
            },
    {
        let mut atlas = TextureAtlasInfo::new();
        let ghost e = slice_entries(slices@);
        let n = slices.len();
        let mut i: usize = 0;
        while i < n
            invariant
                n == slices@.len(),
                e == slice_entries(slices@),
                i <= n,
                atlas.wf(),
                atlas@ == atlas_of(e.take(i as int)),
                forall|j: int| 0 <= j < i ==> parse_tile((#[trigger] slices@[j]).0@) is Some,
            decreases n - i,
        {
            match tile_kind_from_name(slices[i].0.as_str()) {
                Some(kind) => {
                    proof {
                        assert(e.take(i + 1).drop_last() =~= e.take(i as int));
                        assert(e.take(i + 1).last() == e[i as int]);
                    }
                    atlas.insert(kind, slices[i].1);
                },
                None => {
                    return Err(AtlasError::UnknownTile { index: i });
                },
            }
            i = i + 1;
        }
        proof {
            assert(e.take(n as int) =~= e);
        }
        Ok(atlas)
    }
}

} // verus!
