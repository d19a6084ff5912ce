//! The immutable tile catalog: one background layer, a set of section
//! layers chosen procedurally per horizontal slot, a per-tile collision
//! class table, and the collectible spawn points authored for each
//! section. All four tables are produced once by the build-time map
//! extraction and are read-only afterwards; the constructor here is the
//! startup-time fatal check that the tables are consistent.

use vstd::prelude::*;

use crate::num::abs_v;

verus! {

/// Tiles per row of every layer grid; also the width of one section in
/// tiles, so a horizontal section slot is `tile_x / 64`.
pub const WIDTH: i32 = 64;

/// Rows of every layer grid. Collision queries outside `[0, HEIGHT)` see
/// no geometry.
pub const HEIGHT: i32 = 32;

/// The reserved "empty / out of range" tile id.
pub const EMPTY_TILE: u16 = 32;

/// Collision class of a solid tile in the class table.
pub const SOLID: u8 = 1;

/// Largest magnitude accepted for an authored clock spawn coordinate.
pub const SPAWN_COORD_LIMIT: i32 = 0x8000;

/// The immutable tile tables.
pub struct Catalog {
    /// Background layer, row-major, `WIDTH * HEIGHT` tile ids.
    pub background: Vec<u16>,
    /// Section layers, each row-major `WIDTH * HEIGHT` tile ids.
    pub sections: Vec<Vec<u16>>,
    /// Collision class per tile id: `SOLID` marks a solid tile.
    pub tile_types: Vec<u8>,
    /// Authored clock spawn points per section, in pixels.
    pub clock_positions: Vec<Vec<(i32, i32)>>,
}

impl Catalog {
    /// The consistency invariant: grids have the exact catalog size,
    /// there are at least two sections (slot zero is the fixed safe
    /// section, the rest are drawn from the others), every section tile
    /// id has a collision class, and spawn coordinates are small enough
    /// for pixel arithmetic.
    pub open spec fn wf(self) -> bool {
        &&& self.background@.len() == 2048
        &&& self.sections@.len() >= 2
        &&& self.clock_positions@.len() == self.sections@.len()
        &&& forall|i: int|
            0 <= i < self.sections@.len() ==> (#[trigger] self.sections@[i])@.len() == 2048
        &&& forall|i: int, j: int|
            0 <= i < self.sections@.len() && 0 <= j < 2048 ==> (#[trigger] self.sections@[i]@[j])
                < self.tile_types@.len()
        &&& forall|i: int, j: int|
            0 <= i < self.clock_positions@.len() && 0 <= j < self.clock_positions@[i]@.len()
                ==> abs_v((#[trigger] self.clock_positions@[i]@[j]).0 as int) <= SPAWN_COORD_LIMIT
                && abs_v(self.clock_positions@[i]@[j].1 as int) <= SPAWN_COORD_LIMIT
    }

    /// Builds a catalog after checking the consistency invariant; this is
    /// the startup-time fatal check, so an inconsistent set of tables is
    /// rejected rather than defended against at every per-tick query.
    pub fn new(
        background: Vec<u16>,
        sections: Vec<Vec<u16>>,
        tile_types: Vec<u8>,
        clock_positions: Vec<Vec<(i32, i32)>>,
    ) -> (r: Option<Catalog>)
        ensures
            match r {
                Some(c) => c == (Catalog { background, sections, tile_types, clock_positions })
                    && c.wf(),
                None => !(Catalog { background, sections, tile_types, clock_positions }).wf(),
            },
    {
        let cand = Catalog { background, sections, tile_types, clock_positions };
        if Catalog::check(&cand) {
            Some(cand)
        } else {
            None
        }
    }

    /// Decides the consistency invariant.
    pub fn check(c: &Catalog) -> (r: bool)
        ensures
            r == c.wf(),
    {
        if c.background.len() != 2048 {
            return false;
        }
        if c.sections.len() < 2 {
            return false;
        }
        if c.clock_positions.len() != c.sections.len() {
            return false;
        }
        let mut i: usize = 0;
        while i < c.sections.len()
            invariant
                i <= c.sections@.len(),
                forall|k: int| 0 <= k < i ==> (#[trigger] c.sections@[k])@.len() == 2048,
                forall|k: int, j: int|
                    0 <= k < i && 0 <= j < 2048 ==> (#[trigger] c.sections@[k]@[j])
                        < c.tile_types@.len(),
            decreases c.sections@.len() - i,
        {
            let section = &c.sections[i];
            if section.len() != 2048 {
                return false;
            }
            let mut j: usize = 0;
            while j < section.len()
                invariant
                    j <= section@.len(),
                    section == &c.sections[i as int],
                    i < c.sections@.len(),
                    section@.len() == 2048,
                    forall|m: int|
                        0 <= m < j ==> (#[trigger] c.sections@[i as int]@[m])
                            < c.tile_types@.len(),
                decreases section@.len() - j,
            {
                if (section[j] as usize) >= c.tile_types.len() {
                    return false;
                }
                j += 1;
            }
            i += 1;
        }
        let mut i: usize = 0;
        while i < c.clock_positions.len()
            invariant
                i <= c.clock_positions@.len(),
                c.clock_positions@.len() == c.sections@.len(),
                forall|k: int, j: int|
                    0 <= k < i && 0 <= j < c.clock_positions@[k]@.len() ==> abs_v(
                        (#[trigger] c.clock_positions@[k]@[j]).0 as int,
                    ) <= SPAWN_COORD_LIMIT && abs_v(c.clock_positions@[k]@[j].1 as int)
                        <= SPAWN_COORD_LIMIT,
            decreases c.clock_positions@.len() - i,
        {
            let spawns = &c.clock_positions[i];
            let mut j: usize = 0;
            while j < spawns.len()
                invariant
                    j <= spawns@.len(),
                    spawns == &c.clock_positions[i as int],
                    i < c.clock_positions@.len(),
                    forall|m: int|
                        0 <= m < j ==> abs_v((#[trigger] c.clock_positions@[i as int]@[m]).0 as int)
                            <= SPAWN_COORD_LIMIT && abs_v(
                            c.clock_positions@[i as int]@[m].1 as int,
                        ) <= SPAWN_COORD_LIMIT,
                decreases spawns@.len() - j,
            {
                let (px, py) = spawns[j];
                if px > SPAWN_COORD_LIMIT || px < -SPAWN_COORD_LIMIT || py > SPAWN_COORD_LIMIT
                    || py < -SPAWN_COORD_LIMIT {
                    return false;
                }
                j += 1;
            }
            i += 1;
        }
        true
    }

    /// How many section layers the catalog holds.
    pub fn section_count(&self) -> (r: usize)
        ensures
            r == self.sections@.len(),
    {
        self.sections.len()
    }

    /// The tile id of section `s` at tile column `tx` (wrapped to the
    /// section grid) and row `ty`.
    pub fn tile_at(&self, s: usize, tx: i32, ty: i32) -> (r: u16)
        requires
            self.wf(),
            s < self.sections@.len(),
            tx >= 0,
            0 <= ty < HEIGHT,
        ensures
            r == section_tile_v(*self, s as int, tx as int, ty as int),
            (r as int) < self.tile_types@.len(),
    {
        let col: u32 = (tx as u32) % 64;
        let idx: usize = ((ty as u32) * 64 + col) as usize;
        self.sections[s][idx]
    }

    /// The collision class of a tile id.
    pub fn tile_class(&self, tile: u16) -> (r: u8)
        requires
            (tile as int) < self.tile_types@.len(),
        ensures
            r == self.tile_types@[tile as int],
    {
        self.tile_types[tile as usize]
    }

    /// The background tile id shown at tile cell `(x, y)`: the authored
    /// background grid inside the catalog rows, the empty tile below
    /// them. This is the static half of the rendering-window query; the
    /// background does not scroll.
    pub fn background_tile_at(&self, x: i32, y: i32) -> (r: u16)
        requires
            self.wf(),
            x >= 0,
            0 <= y <= 0x10_0000,
        ensures
            r == background_tile_v(*self, x as int, y as int),
    {
        if y >= HEIGHT {
            return EMPTY_TILE;
        }
        let col: u32 = (x as u32) % 64;
        let idx: usize = ((y as u32) * 64 + col) as usize;
        self.background[idx]
    }
}

/// The tile id of section `s` at tile column `tx` and row `ty` (the
/// column wraps to the 64-tile section grid).
pub open spec fn section_tile_v(c: Catalog, s: int, tx: int, ty: int) -> u16 {
    c.sections@[s]@[64 * ty + tx % 64]
}

/// The background tile id at tile cell `(x, y)`.
pub open spec fn background_tile_v(c: Catalog, x: int, y: int) -> u16 {
    if y < HEIGHT {
        c.background@[64 * y + x % 64]
    } else {
        EMPTY_TILE
    }
}

/// A tile id of section `s` classifies as solid at `(tx, ty)`.
pub open spec fn is_solid_v(c: Catalog, s: int, tx: int, ty: int) -> bool {
    c.tile_types@[section_tile_v(c, s, tx, ty) as int] == SOLID
}

} // verus!
