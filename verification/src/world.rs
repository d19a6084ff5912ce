//! The scrolling world: the scroll offset, the deterministic section
//! index sequence, and the collision query against the tile catalog.

use vstd::prelude::*;

use crate::geom::{bounded, Rect, Vec2};
use crate::num::{abs_v, fits_i32, fx_product, is_sqrt, sqrt_v, Num};
use crate::tilemap::{is_solid_v, section_tile_v, Catalog, EMPTY_TILE, HEIGHT, SOLID};

verus! {

/// The fixed seed every play session starts the section sequence from.
pub const SEED: usize = 0;

/// Largest scroll offset (in raw 1/256ths) a tick may start from; the
/// session would have to run for weeks to reach it.
pub const SCROLL_TICK_LIMIT: i32 = 0x3f0_0000;

/// One step of the linear-congruential recurrence behind the section
/// sequence.
pub open spec fn lcg_next(s: int) -> int {
    (s * 1103515245 + 12345) % 0x8000_0000
}

/// The recurrence iterated `k` times from `s`.
pub open spec fn lcg_iter(s: int, k: nat) -> int
    decreases k,
{
    if k == 0 {
        s
    } else {
        lcg_next(lcg_iter(s, (k - 1) as nat))
    }
}

/// The section id shown at horizontal slot `slot`, for base seed `seed`
/// and a catalog of `n` sections: slot 0 is always the safe section 0;
/// every later slot draws a non-zero id from the recurrence.
pub open spec fn section_at(seed: int, slot: int, n: int) -> int {
    if slot <= 0 {
        0
    } else {
        1 + ((lcg_iter(seed, slot as nat) % 3) % (n - 1))
    }
}

/// The deterministic pseudo-random choice of a section layer per
/// horizontal section slot. A pure function of the seed: rebuilding the
/// generator with the same seed reproduces the same sequence.
pub struct SectionIndexGenerator {
    pub seed: usize,
    pub section_count: usize,
}

impl SectionIndexGenerator {
    /// The seed stays below the recurrence modulus and there are at
    /// least two sections to draw from.
    pub open spec fn wf(self) -> bool {
        self.seed < 0x8000_0000 && self.section_count >= 2
    }

    /// A generator over `section_count` sections, starting from `seed`.
    pub fn new(seed: usize, section_count: usize) -> (r: SectionIndexGenerator)
        requires
            seed < 0x8000_0000,
            section_count >= 2,
        ensures
            r.seed == seed,
            r.section_count == section_count,
            r.wf(),
    {
        SectionIndexGenerator { seed, section_count }
    }

    /// The section id at slot `index`: never 0 for a positive slot,
    /// always inside the catalog, and a pure function of seed and slot.
    pub fn get_at(&self, index: usize) -> (r: usize)
        requires
            self.wf(),
        ensures
            r == section_at(self.seed as int, index as int, self.section_count as int),
            r < self.section_count,
            index > 0 ==> 1 <= r,
            index == 0 ==> r == 0,
    {
        if index == 0 {
            return 0;
        }
        let mut seed: usize = self.seed;
        let mut i: usize = 0;
        while i < index
            invariant
                i <= index,
                seed == lcg_iter(self.seed as int, i as nat),
                seed < 0x8000_0000,
            decreases index - i,
        {
            let next: usize = (((seed as u64) * 1103515245 + 12345) % 0x8000_0000) as usize;
            proof {
                assert(lcg_iter(self.seed as int, (i + 1) as nat) == lcg_next(
                    lcg_iter(self.seed as int, i as nat),
                ));
                assert(next == lcg_next(seed as int));
            }
            seed = next;
            i += 1;
        }
        1 + (seed % 3) % (self.section_count - 1)
    }
}

/// The world-space rectangle of the 8-by-8 tile cell `(tx, ty)`.
pub open spec fn tile_rect(tx: int, ty: int) -> Rect {
    Rect {
        position: Vec2 { x: Num { raw: (2048 * tx) as i32 }, y: Num { raw: (2048 * ty) as i32 } },
        size: Vec2 { x: Num { raw: 2048 }, y: Num { raw: 2048 } },
    }
}

/// What the collision query answers: `None` while no session is active,
/// for a point left of the world origin after scroll compensation, or
/// for a row outside the catalog; otherwise the cell rectangle of the
/// containing tile exactly when that tile classifies solid.
pub open spec fn collides_v(w: World, v: Vec2) -> Option<Rect> {
    match w.section_generator {
        None => None,
        Some(g) => {
            let ax = v.x.raw + w.scroll.raw;
            let ty = v.y.raw as int / 2048;
            if ax < 0 || ty < 0 || ty >= HEIGHT {
                None
            } else {
                let tx = ax / 2048;
                let s = section_at(g.seed as int, tx / 64, g.section_count as int);
                if is_solid_v(w.catalog, s, tx, ty) {
                    Some(tile_rect(tx, ty))
                } else {
                    None
                }
            }
        },
    }
}

/// The raw scroll speed for a given raw scroll offset:
/// `0.25 + sqrt(scroll) / 100` in fixed point.
pub open spec fn scroll_velocity_v(scroll_raw: int) -> int {
    64 + (sqrt_v(scroll_raw * 256) * 256) / 25600
}

/// The scrolling world. The scroll offset only grows while a session
/// plays; the section generator exists exactly while a session is
/// active, and is recreated from the fixed seed each time one starts.
pub struct World {
    pub catalog: Catalog,
    pub section_generator: Option<SectionIndexGenerator>,
    pub scroll: Num,
}

impl World {
    /// Catalog consistent, scroll non-negative, and any active generator
    /// drawing from exactly the catalog's sections.
    pub open spec fn wf(self) -> bool {
        &&& self.catalog.wf()
        &&& self.scroll.raw >= 0
        &&& match self.section_generator {
            Some(g) => g.wf() && g.section_count == self.catalog.sections@.len(),
            None => true,
        }
    }

    /// A world over the given catalog, before any session: no procedural
    /// sections, scroll at the origin.
    pub fn new(catalog: Catalog) -> (r: World)
        requires
            catalog.wf(),
        ensures
            r.catalog == catalog,
            r.section_generator is None,
            r.scroll.raw == 0,
            r.wf(),
    {
        World { catalog, section_generator: None, scroll: Num::zero() }
    }

    /// Starts a play session: the scroll returns to the origin and the
    /// section sequence is rebuilt from the fixed seed, so every session
    /// sees the same world.
    pub fn start(&mut self)
        requires
            old(self).wf(),
        ensures
            final(self).catalog == old(self).catalog,
            final(self).scroll.raw == 0,
            final(self).section_generator == Some(
                SectionIndexGenerator {
                    seed: SEED,
                    section_count: old(self).catalog.sections@.len() as usize,
                },
            ),
            final(self).wf(),
    {
        let count = self.catalog.section_count();
        self.section_generator = Some(SectionIndexGenerator::new(SEED, count));
        self.scroll = Num::zero();
    }

    /// Ends the session: drops the procedural section state.
    pub fn stop(&mut self)
        ensures
            final(self).catalog == old(self).catalog,
            final(self).scroll == old(self).scroll,
            final(self).section_generator is None,
            old(self).wf() ==> final(self).wf(),
    {
        self.section_generator = None;
    }

    /// The per-tick scroll speed: a quarter pixel plus a slow square-root
    /// ramp, the deliberate difficulty curve of the session.
    pub fn scroll_velocity(&self) -> (r: Num)
        requires
            self.scroll.raw >= 0,
        ensures
            r.raw == scroll_velocity_v(self.scroll.raw as int),
            64 <= r.raw <= 16384,
    {
        let root = self.scroll.sqrt();
        proof {
            assert(root.raw < 0x10_0000) by (nonlinear_arith)
                requires
                    is_sqrt(self.scroll.raw as int * 256, root.raw as int),
                    self.scroll.raw <= 0x7fff_ffff,
            ;
            vstd::arithmetic::div_mod::lemma_div_is_ordered(
                root.raw as int * 256,
                0x10_0000int * 256,
                25600,
            );
            vstd::arithmetic::div_mod::lemma_div_pos_is_pos(root.raw as int * 256, 25600);
        }
        let ramp = root.div_num(Num::from_raw(25600));
        Num::from_raw(64).plus(ramp)
    }

    /// Advances the scroll by one tick.
    pub fn update(&mut self)
        requires
            old(self).wf(),
            old(self).scroll.raw <= SCROLL_TICK_LIMIT,
        ensures
            final(self).catalog == old(self).catalog,
            final(self).section_generator == old(self).section_generator,
            final(self).scroll.raw == old(self).scroll.raw + scroll_velocity_v(
                old(self).scroll.raw as int,
            ),
            64 <= scroll_velocity_v(old(self).scroll.raw as int) <= 16384,
            final(self).wf(),
    {
        let dv = self.scroll_velocity();
        self.scroll = self.scroll.plus(dv);
    }

    /// The collision query: maps a world-space point, compensated for the
    /// current scroll, to its 8-by-8 tile cell and answers the cell
    /// rectangle when that tile is solid. Points left of the origin or
    /// outside the catalog rows never collide, whatever the scroll.
    pub fn collides(&self, v: Vec2) -> (r: Option<Rect>)
        requires
            self.wf(),
            bounded(v, 0x400_0000),
            self.scroll.raw <= 0x400_0000,
        ensures
            r == collides_v(*self, v),
            v.x.raw + self.scroll.raw < 0 ==> r is None,
            v.y.raw < 0 || v.y.raw >= HEIGHT * 2048 ==> r is None,
            match r {
                Some(cell) => {
                    &&& cell.size.x.raw == 2048 && cell.size.y.raw == 2048
                    &&& cell.position.x.raw <= v.x.raw + self.scroll.raw < cell.position.x.raw
                        + 2048
                    &&& cell.position.y.raw <= v.y.raw < cell.position.y.raw + 2048
                },
                None => true,
            },
    {
        let generator = match &self.section_generator {
            Some(g) => g,
            None => {
                return None;
            },
        };
        let factor = Num::from_raw(32);
        let adjusted = v.plus(Vec2::new(self.scroll, Num::zero()));
        let x = adjusted.x.times(factor).floor();
        let y = adjusted.y.times(factor).floor();
        proof {
            lemma_cell_coordinate(adjusted.x.raw as int);
            lemma_cell_coordinate(adjusted.y.raw as int);
        }
        if y < 0 || y >= HEIGHT || adjusted.x.raw < 0 {
            return None;
        }
        let slot = ((x as u32) / 64) as usize;
        let section = generator.get_at(slot);
        let tile = self.catalog.tile_at(section, x, y);
        if self.catalog.tile_class(tile) == SOLID {
            proof {
                vstd::arithmetic::div_mod::lemma_fundamental_div_mod(
                    adjusted.x.raw as int,
                    2048,
                );
                vstd::arithmetic::div_mod::lemma_fundamental_div_mod(
                    adjusted.y.raw as int,
                    2048,
                );
            }
            Some(Rect::new(Vec2::of_units(x * 8, y * 8), Vec2::of_units(8, 8)))
        } else {
            None
        }
    }

    /// The section-layer tile id shown at tile cell `(x, y)` for the
    /// active session: the dynamic half of the rendering-window query.
    /// `x` counts tile columns from the world origin, so the slot is
    /// `x / 64`.
    pub fn render_section_tile(&self, x: i32, y: i32) -> (r: u16)
        requires
            self.wf(),
            self.section_generator is Some,
            x >= 0,
            0 <= y <= 0x10_0000,
        ensures
            r == section_render_v(
                self.catalog,
                self.section_generator->Some_0,
                x as int,
                y as int,
            ),
    {
        let generator = match &self.section_generator {
            Some(g) => g,
            None => {
                return EMPTY_TILE;
            },
        };
        if y >= HEIGHT {
            return EMPTY_TILE;
        }
        let slot = ((x as u32) / 64) as usize;
        let section = generator.get_at(slot);
        self.catalog.tile_at(section, x, y)
    }
}

/// The section-layer tile id at tile cell `(x, y)`: rows below the
/// catalog show the empty tile; rows inside it show the tile of the
/// section chosen for the slot `x / 64`.
pub open spec fn section_render_v(c: Catalog, g: SectionIndexGenerator, x: int, y: int) -> u16 {
    if y < HEIGHT {
        section_tile_v(c, section_at(g.seed as int, x / 64, g.section_count as int), x, y)
    } else {
        EMPTY_TILE
    }
}

/// The two-stage flooring a fixed-point position goes through on its way
/// to a tile coordinate — multiply by 1/8, floor, and read the integer —
/// equals a single floor division of the raw value by 2048 for points
/// right of the origin; points left of it land strictly below zero
/// either way.
proof fn lemma_cell_coordinate(a: int)
    requires
        abs_v(a) <= 0x4000_0000,
    ensures
        a >= 0 ==> fx_product(a, 32) / 256 == a / 2048 && a / 2048 >= 0,
        a < 0 ==> fx_product(a, 32) / 256 < 0 && a / 2048 < 0,
{
    assert(fx_product(a, 32) == (a * 32) / 256);
    if a >= 0 {
        vstd::arithmetic::div_mod::lemma_div_denominator(a * 32, 256, 256);
        assert((a * 32) / 65536 == a / 2048) by {
            vstd::arithmetic::div_mod::lemma_div_multiples_vanish_quotient(32, a, 2048);
            assert(32 * a == a * 32) by (nonlinear_arith);
            assert(32 * 2048 == 65536);
        }
        vstd::arithmetic::div_mod::lemma_div_pos_is_pos(a, 2048);
    } else {
        assert(a * 32 < 0) by (nonlinear_arith)
            requires
                a < 0,
        ;
        lemma_neg_div_neg(a * 32, 256);
        lemma_neg_div_neg((a * 32) / 256, 256);
        lemma_neg_div_neg(a, 2048);
    }
}

/// Floor division of a negative value by a positive one stays negative.
proof fn lemma_neg_div_neg(n: int, d: int)
    requires
        n < 0,
        d > 0,
    ensures
        n / d < 0,
{
    let q = n / d;
    let s = n % d;
    vstd::arithmetic::div_mod::lemma_fundamental_div_mod(n, d);
    assert(0 <= s < d);
    assert(d * q == n - s);
    assert(q < 0) by (nonlinear_arith)
        requires
            d > 0,
            d * q == n - s,
            n < 0,
            s >= 0,
    ;
}

} // verus!
