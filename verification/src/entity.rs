//! Moving objects and the swept, axis-separated collision resolution
//! they share, plus the player controller and the collectible clock
//! built on top.

use vstd::prelude::*;

use crate::geom::{bounded, touches_v, Rect, Vec2};
use crate::gfx::{
    clock_disappear, clock_disappear_v, clock_rotate, clock_rotate_v, player_idle, player_idle_v,
    player_jump_fall, player_jump_fall_v, player_jump_mid, player_jump_mid_v, player_jump_up,
    player_jump_up_v, player_run, player_run_v, SpriteTag,
};
use crate::input::Input;
use crate::num::{abs_v, fx_product, sgn_v, tdiv, Num};
use crate::timer::Timer;
use crate::world::{collides_v, scroll_velocity_v, World};

verus! {

/// Largest position magnitude (raw 1/256ths) a tick may start from:
/// 65536 pixels from the origin, far beyond anything a session reaches.
pub const POS_LIMIT: i32 = 0x100_0000;

/// How far beyond `POS_LIMIT` one tick can carry a position: one axis
/// move of at most 8 pixels each way plus the scroll compensation.
pub const POS_STEP: i32 = 0x9000;

/// Largest velocity magnitude (raw 1/256ths) an entity may carry:
/// 8 pixels per tick, twice the terminal fall speed.
pub const VEL_LIMIT: i32 = 2048;

/// Which way the sprite faces.
#[derive(Clone, Copy, Debug, PartialEq, Eq, Structural)]
pub enum Direction {
    Left,
    Right,
}

/// The shared state of every moving object: fixed-point position and
/// velocity, the collider rectangle relative to the position, the
/// current animation and its frame clock, facing, and whether the
/// renderer shows the sprite at all.
#[derive(Clone, Copy)]
pub struct Entity {
    pub position: Vec2,
    pub velocity: Vec2,
    pub visible: bool,
    pub frame: usize,
    pub frame_counter: usize,
    pub animation: SpriteTag,
    pub animation_speed: usize,
    pub direction: Direction,
    pub collision_mask: Rect,
}

/// A spec-level fixed-point number from its raw count.
pub open spec fn nraw(x: int) -> Num {
    Num { raw: x as i32 }
}

/// A spec-level vector from raw component counts.
pub open spec fn v2(x: int, y: int) -> Vec2 {
    Vec2 { x: nraw(x), y: nraw(y) }
}

/// The Manhattan magnitude of a vector, as a mathematical integer.
pub open spec fn manhattan_v(v: Vec2) -> int {
    abs_v(v.x.raw as int) + abs_v(v.y.raw as int)
}

/// `d` points along exactly one axis with unit magnitude.
pub open spec fn axis_unit(d: Vec2) -> bool {
    (d.x.raw == 0 && abs_v(d.y.raw as int) == 256) || (d.y.raw == 0 && abs_v(d.x.raw as int)
        == 256)
}

/// The entity's collider in world space: the mask rectangle centered on
/// the position.
pub open spec fn collider_v(e: Entity) -> Rect {
    Rect {
        position: v2(
            e.position.x.raw + e.collision_mask.position.x.raw - e.collision_mask.size.x.raw / 2,
            e.position.y.raw + e.collision_mask.position.y.raw - e.collision_mask.size.y.raw / 2,
        ),
        size: e.collision_mask.size,
    }
}

/// The midpoint of the collider's leading edge along `d`.
pub open spec fn lead_point_v(e: Entity, d: Vec2) -> Vec2 {
    let c = collider_v(e);
    v2(
        c.position.x.raw + c.size.x.raw / 2 + tdiv(
            fx_product(c.size.x.raw as int, d.x.raw as int),
            2,
        ),
        c.position.y.raw + c.size.y.raw / 2 + tdiv(
            fx_product(c.size.y.raw as int, d.y.raw as int),
            2,
        ),
    )
}

/// The two probe points: the leading-edge midpoint pushed out to either
/// side of the cross axis, nudged a sixteenth of a pixel back inward so
/// that exact corner contact does not register.
pub open spec fn probe_points_v(e: Entity, d: Vec2) -> (Vec2, Vec2) {
    let c = collider_v(e);
    let lead = lead_point_v(e, d);
    let cross_x = tdiv(fx_product(c.size.x.raw as int, d.y.raw as int), 2);
    let cross_y = tdiv(fx_product(c.size.y.raw as int, d.x.raw as int), 2);
    let small_x = tdiv(fx_product(d.y.raw as int, 1024), 64);
    let small_y = tdiv(fx_product(d.x.raw as int, 1024), 64);
    (
        v2(lead.x.raw + cross_x - small_x, lead.y.raw + cross_y - small_y),
        v2(lead.x.raw - cross_x + small_x, lead.y.raw - cross_y + small_y),
    )
}

/// The clipped movement that lands the leading edge exactly on the near
/// edge of the solid cell `cell`, restricted to the movement axis. The
/// collision query answers cells in level coordinates (horizontally
/// compensated for the scroll), while the entity and its probes live in
/// entity coordinates, so the cell's horizontal position is translated
/// back by `scroll` before the physical tile face is measured.
pub open spec fn clip_of(lead: Vec2, cell: Rect, scroll: int, d: Vec2) -> Vec2 {
    let center_x = cell.position.x.raw - scroll + cell.size.x.raw / 2;
    let center_y = cell.position.y.raw + cell.size.y.raw / 2;
    let edge_x = center_x - tdiv(fx_product(cell.size.x.raw as int, d.x.raw as int), 2);
    let edge_y = center_y - tdiv(fx_product(cell.size.y.raw as int, d.y.raw as int), 2);
    v2(
        fx_product(edge_x - lead.x.raw, abs_v(d.x.raw as int)),
        fx_product(edge_y - lead.y.raw, abs_v(d.y.raw as int)),
    )
}

/// The axis-separated sweep for one axis: both probe points are pushed
/// through the full requested movement; of the probes that land in a
/// solid cell, the most restrictive clipped movement (smallest Manhattan
/// magnitude, the requested movement included) wins.
#[verifier::opaque]
pub open spec fn cid_v(w: World, e: Entity, d: Vec2, dist: Num) -> (Vec2, bool) {
    let lead = lead_point_v(e, d);
    let probes = probe_points_v(e, d);
    let md = v2(
        fx_product(d.x.raw as int, dist.raw as int),
        fx_product(d.y.raw as int, dist.raw as int),
    );
    let q1 = v2(probes.0.x.raw + md.x.raw, probes.0.y.raw + md.y.raw);
    let q2 = v2(probes.1.x.raw + md.x.raw, probes.1.y.raw + md.y.raw);
    let r1 = collides_v(w, q1);
    let r2 = collides_v(w, q2);
    let f1 = match r1 {
        Some(cell) => {
            let clip = clip_of(lead, cell, w.scroll.raw as int, d);
            if manhattan_v(md) > manhattan_v(clip) {
                clip
            } else {
                md
            }
        },
        None => md,
    };
    let f2 = match r2 {
        Some(cell) => {
            let clip = clip_of(lead, cell, w.scroll.raw as int, d);
            if manhattan_v(f1) > manhattan_v(clip) {
                clip
            } else {
                f1
            }
        },
        None => f1,
    };
    (f2, r1 is Some || r2 is Some)
}

impl Entity {
    /// Structural well-formedness: bounded velocity, a small positive
    /// collider mask, and a sane animation clock.
    pub open spec fn wf(self) -> bool {
        &&& bounded(self.velocity, VEL_LIMIT as int)
        &&& 0 < self.collision_mask.size.x.raw <= 0x4000
        &&& 0 < self.collision_mask.size.y.raw <= 0x4000
        &&& abs_v(self.collision_mask.position.x.raw as int) <= 0x4000
        &&& abs_v(self.collision_mask.position.y.raw as int) <= 0x4000
        &&& 1 <= self.animation_speed <= 0x1000
        &&& self.frame_counter < self.animation_speed
        &&& self.animation.frame_count >= 1
    }

    /// A hidden entity at the origin with the given collider mask and
    /// animation.
    pub fn new(collision_mask: Rect, animation: SpriteTag, animation_speed: usize) -> (r: Entity)
        requires
            0 < collision_mask.size.x.raw <= 0x4000,
            0 < collision_mask.size.y.raw <= 0x4000,
            abs_v(collision_mask.position.x.raw as int) <= 0x4000,
            abs_v(collision_mask.position.y.raw as int) <= 0x4000,
            1 <= animation_speed <= 0x1000,
            animation.frame_count >= 1,
        ensures
            r == (Entity {
                position: v2(0, 0),
                velocity: v2(0, 0),
                visible: false,
                frame: 0,
                frame_counter: 0,
                animation,
                animation_speed,
                direction: Direction::Right,
                collision_mask,
            }),
            r.wf(),
    {
        Entity {
            position: Vec2::zero(),
            velocity: Vec2::zero(),
            visible: false,
            frame: 0,
            frame_counter: 0,
            animation,
            animation_speed,
            direction: Direction::Right,
            collision_mask,
        }
    }

    /// The collider in world space.
    pub fn collider(&self) -> (r: Rect)
        requires
            self.wf(),
            bounded(self.position, 0x1000_0000),
        ensures
            r == collider_v(*self),
    {
        let half = self.collision_mask.size.div_int(2);
        let pos = self.position.plus(self.collision_mask.position).minus(half);
        Rect::new(pos, self.collision_mask.size)
    }

    /// One axis of the swept collision resolution; see `cid_v` for the
    /// shape of the answer. The returned movement never exceeds the
    /// requested distance in Manhattan magnitude and never leaves the
    /// movement axis.
    #[verifier::rlimit(100)]
    pub fn collision_in_direction(&self, world: &World, direction: Vec2, distance: Num) -> (r: (
        Vec2,
        bool,
    ))
        requires
            self.wf(),
            bounded(self.position, POS_LIMIT + 0x1_0000),
            axis_unit(direction),
            0 <= distance.raw <= VEL_LIMIT,
            world.wf(),
            world.scroll.raw <= 0x400_0000,
        ensures
            r.0 == cid_v(*world, *self, direction, distance).0,
            r.1 == cid_v(*world, *self, direction, distance).1,
            manhattan_v(r.0) <= distance.raw,
            direction.x.raw == 0 ==> r.0.x.raw == 0,
            direction.y.raw == 0 ==> r.0.y.raw == 0,
    {
        let c = self.collider();
        proof {
            reveal(cid_v);
            crate::num::lemma_fx_unit(c.size.x.raw as int);
            crate::num::lemma_fx_unit(c.size.y.raw as int);
            crate::num::lemma_fx_unit(1024);
            crate::num::lemma_fx_unit(distance.raw as int);
        }
        let half = c.size.div_int(2);
        let lead = c.position.plus(half).plus(c.size.hadamard(direction).div_int(2));
        let dt = direction.swapped();
        let small = dt.scale(Num::new(4)).div_int(64);
        let cross = c.size.hadamard(dt).div_int(2);
        let p1 = lead.plus(cross).minus(small);
        let p2 = lead.minus(cross).plus(small);
        let md = direction.scale(distance);
        let mut final_d = md;
        let mut hit = false;
        match world.collides(p1.plus(md)) {
            Some(cell) => {
                let clip = clip_from(lead, cell, world.scroll, direction);
                if final_d.manhattan().raw > clip.manhattan().raw {
                    final_d = clip;
                }
                hit = true;
            },
            None => {},
        }
        match world.collides(p2.plus(md)) {
            Some(cell) => {
                let clip = clip_from(lead, cell, world.scroll, direction);
                if final_d.manhattan().raw > clip.manhattan().raw {
                    final_d = clip;
                }
                hit = true;
            },
            None => {},
        }
        (final_d, hit)
    }
}

/// The vertical axis of the per-tick movement: resolve the sweep along
/// the sign of the vertical velocity, move by the resolved delta, and
/// zero the vertical velocity when something was hit.
pub open spec fn vertical_pass_v(w: World, e: Entity) -> Entity {
    let s = sgn_v(e.velocity.y.raw as int);
    if s == 0 {
        e
    } else {
        let r = cid_v(w, e, v2(0, 256 * s), nraw(abs_v(e.velocity.y.raw as int)));
        Entity {
            position: v2(e.position.x.raw + r.0.x.raw, e.position.y.raw + r.0.y.raw),
            velocity: if r.1 {
                Vec2 { x: e.velocity.x, y: Num { raw: 0 } }
            } else {
                e.velocity
            },
            ..e
        }
    }
}

/// The horizontal axis of the per-tick movement, after the vertical one.
pub open spec fn horizontal_pass_v(w: World, e: Entity) -> Entity {
    let s = sgn_v(e.velocity.x.raw as int);
    if s == 0 {
        e
    } else {
        let r = cid_v(w, e, v2(256 * s, 0), nraw(abs_v(e.velocity.x.raw as int)));
        Entity {
            position: v2(e.position.x.raw + r.0.x.raw, e.position.y.raw + r.0.y.raw),
            velocity: if r.1 {
                Vec2 { x: Num { raw: 0 }, y: e.velocity.y }
            } else {
                e.velocity
            },
            ..e
        }
    }
}

/// The scroll compensation that ends every movement tick: the world
/// slides left under the entity by the current scroll speed.
pub open spec fn scroll_pass_v(w: World, e: Entity) -> Entity {
    Entity {
        position: v2(
            e.position.x.raw - scroll_velocity_v(w.scroll.raw as int),
            e.position.y.raw as int,
        ),
        ..e
    }
}

/// The whole per-tick movement: vertical sweep, then horizontal sweep,
/// then scroll compensation.
pub open spec fn update_position_v(w: World, e: Entity) -> Entity {
    scroll_pass_v(w, horizontal_pass_v(w, vertical_pass_v(w, e)))
}

/// The per-tick animation clock: the frame counter counts ticks up to
/// the animation speed, then resets and advances the frame.
pub open spec fn anim_step_v(e: Entity) -> Entity {
    if e.frame_counter + 1 >= e.animation_speed {
        Entity { frame_counter: 0, frame: (e.frame + 1) as usize, ..e }
    } else {
        Entity { frame_counter: (e.frame_counter + 1) as usize, ..e }
    }
}

impl Entity {
    /// Moves the entity for one tick: each nonzero-velocity axis is swept
    /// and resolved against the world (vertical first), a resolved
    /// collision zeroes that axis's velocity, and the scroll compensation
    /// is applied last. Returns the applied position delta.
    pub fn update_position(&mut self, world: &World) -> (delta: Vec2)
        requires
            old(self).wf(),
            bounded(old(self).position, POS_LIMIT as int),
            world.wf(),
            world.scroll.raw <= 0x400_0000,
        ensures
            *final(self) == update_position_v(*world, *old(self)),
            final(self).wf(),
            bounded(final(self).position, POS_LIMIT + POS_STEP as int),
            delta.x.raw == final(self).position.x.raw - old(self).position.x.raw,
            delta.y.raw == final(self).position.y.raw - old(self).position.y.raw,
    {
        let initial = self.position;
        let ys = self.velocity.y.sgn();
        if ys != 0 {
            let moved = self.collision_in_direction(
                world,
                Vec2::new(Num::zero(), Num::new(ys)),
                self.velocity.y.abs(),
            );
            self.position = self.position.plus(moved.0);
            if moved.1 {
                self.velocity = Vec2::new(self.velocity.x, Num::zero());
            }
        }
        let xs = self.velocity.x.sgn();
        if xs != 0 {
            let moved = self.collision_in_direction(
                world,
                Vec2::new(Num::new(xs), Num::zero()),
                self.velocity.x.abs(),
            );
            self.position = self.position.plus(moved.0);
            if moved.1 {
                self.velocity = Vec2::new(Num::zero(), self.velocity.y);
            }
        }
        let compensation = world.scroll_velocity();
        self.position = Vec2::new(self.position.x.minus(compensation), self.position.y);
        self.position.minus(initial)
    }

    /// One full entity tick: movement, then the animation clock.
    pub fn update(&mut self, world: &World)
        requires
            old(self).wf(),
            bounded(old(self).position, POS_LIMIT as int),
            old(self).frame < 0x1000_0000,
            world.wf(),
            world.scroll.raw <= 0x400_0000,
        ensures
            *final(self) == anim_step_v(update_position_v(*world, *old(self))),
            final(self).wf(),
            bounded(final(self).position, POS_LIMIT + POS_STEP as int),
            final(self).frame <= old(self).frame + 1,
    {
        self.update_position(world);
        self.frame_counter += 1;
        if self.frame_counter >= self.animation_speed {
            self.frame_counter = 0;
            self.frame += 1;
        }
    }

    /// Switches to another animation and restarts its frame clock.
    pub fn set_animation(&mut self, animation: SpriteTag)
        requires
            animation.frame_count >= 1,
        ensures
            *final(self) == (Entity { animation, frame: 0, frame_counter: 0, ..*old(self) }),
            old(self).wf() ==> final(self).wf(),
    {
        self.animation = animation;
        self.frame = 0;
        self.frame_counter = 0;
    }

    /// The whole-pixel position the renderer draws the sprite at.
    pub fn pixel_position(&self) -> (r: (i32, i32))
        requires
            bounded(self.position, 0x4000_0000),
        ensures
            r.0 == self.position.x.raw as int / 256,
            r.1 == self.position.y.raw as int / 256,
    {
        (self.position.x.floor(), self.position.y.floor())
    }

    /// Whether the renderer mirrors the sprite horizontally.
    pub fn hflip(&self) -> (r: bool)
        ensures
            r == (self.direction == Direction::Left),
    {
        matches!(self.direction, Direction::Left)
    }

    /// The frame of the current animation cycle to show.
    pub fn sprite_frame(&self) -> (r: usize)
        requires
            self.animation.frame_count >= 1,
        ensures
            r == self.frame % self.animation.frame_count,
    {
        self.frame % self.animation.frame_count
    }
}

/// The clipped movement for one solid cell; see `clip_of`.
fn clip_from(lead: Vec2, cell: Rect, scroll: Num, direction: Vec2) -> (r: Vec2)
    requires
        bounded(lead, 0x800_0000),
        bounded(cell.position, 0x1000_0000),
        0 <= scroll.raw <= 0x400_0000,
        cell.size.x.raw == 2048,
        cell.size.y.raw == 2048,
        axis_unit(direction),
    ensures
        r == clip_of(lead, cell, scroll.raw as int, direction),
        direction.x.raw == 0 ==> r.x.raw == 0,
        direction.y.raw == 0 ==> r.y.raw == 0,
{
    proof {
        crate::num::lemma_fx_unit(2048);
    }
    let local = Vec2::new(cell.position.x.minus(scroll), cell.position.y);
    let center = local.plus(cell.size.div_int(2));
    let edge = center.minus(cell.size.hadamard(direction).div_int(2));
    let diff = edge.minus(lead);
    proof {
        crate::num::lemma_fx_unit(diff.x.raw as int);
        crate::num::lemma_fx_unit(diff.y.raw as int);
    }
    diff.hadamard(Vec2::new(direction.x.abs(), direction.y.abs()))
}


/// The player's discrete animation choice.
#[derive(Clone, Copy, Debug, PartialEq, Eq, Structural)]
pub enum Animation {
    Idle,
    Run,
    JumpUp,
    JumpMid,
    JumpFall,
}

/// Whether the player stands on solid ground this tick.
#[derive(Clone, Copy, Debug, PartialEq, Eq, Structural)]
pub enum GroundState {
    Grounded,
    Airborne,
}

/// The player: an entity plus the ground/air state machine and the
/// animation state machine layered on it.
#[derive(Clone, Copy)]
pub struct Player {
    pub animation: Animation,
    pub ground_state: GroundState,
    pub entity: Entity,
}

/// The held directions' contribution to the horizontal velocity: an
/// eighth of a pixel per tick each way; simultaneous presses cancel.
pub open spec fn h_input_v(vx: int, i: Input) -> int {
    let a = if i.left {
        vx - 32
    } else {
        vx
    };
    if i.right {
        a + 32
    } else {
        a
    }
}

/// The run-speed clamp: horizontal velocity never exceeds two pixels
/// per tick either way.
pub open spec fn clamp_run_v(v: int) -> int {
    if v > 512 {
        512
    } else if v < -512 {
        -512
    } else {
        v
    }
}

/// The friction law: nine tenths of the velocity remains each tick,
/// and a magnitude below a sixteenth of a pixel snaps to exactly zero
/// so the player never creeps forever.
pub open spec fn friction_v(v: int) -> int {
    let damped = fx_product(v, 230);
    if abs_v(damped) < 16 {
        0
    } else {
        damped
    }
}

/// The ground probe: whether a sweep of one pixel straight down from
/// the current collider hits something solid.
pub open spec fn probe_ground_v(w: World, e: Entity) -> bool {
    cid_v(w, e, v2(0, 256), nraw(256)).1
}

/// One tick of the movement controller: the ground probe runs first,
/// so the whole tick sees this tick's ground state; held directions
/// accelerate, the run clamp and friction apply, a jump press while
/// grounded sets the vertical impulse, gravity pulls while airborne up
/// to the terminal fall speed, and a fall below the world snaps the
/// player back to the origin.
pub open spec fn movement_v(w: World, p: Player, i: Input) -> Player {
    let grounded = probe_ground_v(w, p.entity);
    let vx1 = h_input_v(p.entity.velocity.x.raw as int, i);
    let vy1 = if i.jump_just_pressed && grounded {
        -1024
    } else {
        p.entity.velocity.y.raw as int
    };
    let vx2 = friction_v(clamp_run_v(vx1));
    let vy2 = if !grounded {
        vy1 + 64
    } else {
        vy1
    };
    let vy3 = if vy2 > 1024 {
        1024
    } else {
        vy2
    };
    let e2 = Entity { velocity: v2(vx2, vy3), ..p.entity };
    let e3 = if e2.position.y.raw > 40960 {
        Entity { position: v2(0, 0), velocity: v2(0, 0), ..e2 }
    } else {
        e2
    };
    Player {
        ground_state: if grounded {
            GroundState::Grounded
        } else {
            GroundState::Airborne
        },
        entity: e3,
        ..p
    }
}

/// The animation the controller picks after physics: the jump phases
/// by vertical velocity while airborne, else running when moving
/// faster than a tenth of a pixel, else idle. Facing follows the sign
/// of the horizontal velocity and keeps its last value at zero. A
/// change of animation restarts the sprite's frame clock.
pub open spec fn select_animation_v(p: Player) -> Player {
    let vx = p.entity.velocity.x.raw as int;
    let vy = p.entity.velocity.y.raw as int;
    let a = if p.ground_state == GroundState::Airborne {
        if vy < 512 {
            Animation::JumpUp
        } else if vy > 512 {
            Animation::JumpFall
        } else {
            Animation::JumpMid
        }
    } else if abs_v(vx) > 25 {
        Animation::Run
    } else {
        Animation::Idle
    };
    let dir = if vx > 0 {
        Direction::Right
    } else if vx < 0 {
        Direction::Left
    } else {
        p.entity.direction
    };
    let e1 = Entity { direction: dir, ..p.entity };
    if a != p.animation {
        let tag = match a {
            Animation::Idle => player_idle_v(),
            Animation::Run => player_run_v(),
            Animation::JumpUp => player_jump_up_v(),
            Animation::JumpMid => player_jump_mid_v(),
            Animation::JumpFall => player_jump_fall_v(),
        };
        let speed: usize = if a == Animation::Run {
            5
        } else {
            8
        };
        Player {
            animation: a,
            entity: Entity {
                animation: tag,
                frame: 0,
                frame_counter: 0,
                animation_speed: speed,
                ..e1
            },
            ..p
        }
    } else {
        Player { entity: e1, ..p }
    }
}

/// Everything one player tick does before the pickup sweep: movement,
/// animation selection, and the entity tick.
pub open spec fn player_pre_pickup_v(w: World, p: Player, i: Input) -> Player {
    let p2 = select_animation_v(movement_v(w, p, i));
    Player { entity: anim_step_v(update_position_v(w, p2.entity)), ..p2 }
}

/// The left edge of the world stops the player.
pub open spec fn clamp_left_v(p: Player) -> Player {
    if p.entity.position.x.raw < 0 {
        Player {
            entity: Entity { position: v2(0, p.entity.position.y.raw as int), ..p.entity },
            ..p
        }
    } else {
        p
    }
}

/// The player a fresh game starts with: idle, treated as airborne
/// until the first ground probe, hidden, with the authored collider
/// mask.
pub open spec fn player_init_v() -> Player {
    Player {
        animation: Animation::Idle,
        ground_state: GroundState::Airborne,
        entity: Entity {
            position: v2(0, 0),
            velocity: v2(0, 0),
            visible: false,
            frame: 0,
            frame_counter: 0,
            animation: player_idle_v(),
            animation_speed: 8,
            direction: Direction::Right,
            collision_mask: Rect { position: v2(2048, 2304), size: v2(2560, 3584) },
        },
    }
}

impl Player {
    /// The player's structural invariant.
    pub open spec fn wf(self) -> bool {
        self.entity.wf()
    }

    /// A fresh player: idle, treated as airborne until the first ground
    /// probe, with the authored collider mask, hidden until a session
    /// shows it.
    pub fn new() -> (r: Player)
        ensures
            r == player_init_v(),
            r.wf(),
    {
        Player {
            animation: Animation::Idle,
            ground_state: GroundState::Airborne,
            entity: Entity::new(
                Rect::new(Vec2::of_units(8, 9), Vec2::of_units(10, 14)),
                player_idle(),
                8,
            ),
        }
    }

    /// One tick of the movement controller; see `movement_v`. The
    /// ground probe reads only the position and the collider mask, so
    /// probing before the velocity changes costs nothing and lets the
    /// jump test see this tick's ground state.
    #[verifier::rlimit(100)]
    fn movement(&mut self, world: &World, input: &Input)
        requires
            old(self).wf(),
            bounded(old(self).entity.position, POS_LIMIT as int),
            world.wf(),
            world.scroll.raw <= 0x400_0000,
        ensures
            *final(self) == movement_v(*world, *old(self), *input),
            final(self).wf(),
            bounded(final(self).entity.position, POS_LIMIT as int),
    {
        let probe = self.entity.collision_in_direction(
            world,
            Vec2::new(Num::zero(), Num::new(1)),
            Num::new(1),
        );
        if probe.1 {
            self.ground_state = GroundState::Grounded;
        } else {
            self.ground_state = GroundState::Airborne;
        }
        if input.left {
            self.entity.velocity.x = self.entity.velocity.x.minus(Num::from_raw(32));
        }
        if input.right {
            self.entity.velocity.x = self.entity.velocity.x.plus(Num::from_raw(32));
        }
        if input.jump_just_pressed && self.ground_state == GroundState::Grounded {
            self.entity.velocity.y = Num::from_raw(-1024);
        }
        if self.entity.velocity.x.raw > 512 {
            self.entity.velocity.x = Num::from_raw(512);
        }
        if self.entity.velocity.x.raw < -512 {
            self.entity.velocity.x = Num::from_raw(-512);
        }
        self.entity.velocity.x = self.entity.velocity.x.times(Num::from_raw(230));
        if self.entity.velocity.x.abs().raw < 16 {
            self.entity.velocity.x = Num::zero();
        }
        if self.ground_state == GroundState::Airborne {
            self.entity.velocity.y = self.entity.velocity.y.plus(Num::from_raw(64));
        }
        if self.entity.velocity.y.raw > 1024 {
            self.entity.velocity.y = Num::from_raw(1024);
        }
        if self.entity.position.y.raw > 40960 {
            self.entity.position = Vec2::zero();
            self.entity.velocity = Vec2::zero();
        }
    }

    /// Picks the animation and facing for this tick; see
    /// `select_animation_v`.
    pub fn update_animation(&mut self)
        requires
            old(self).wf(),
        ensures
            *final(self) == select_animation_v(*old(self)),
            final(self).wf(),
            final(self).entity.position == old(self).entity.position,
    {
        let old_animation = self.animation;
        if self.ground_state == GroundState::Airborne {
            if self.entity.velocity.y.raw < 512 {
                self.animation = Animation::JumpUp;
            } else if self.entity.velocity.y.raw > 512 {
                self.animation = Animation::JumpFall;
            } else {
                self.animation = Animation::JumpMid;
            }
        } else if self.entity.velocity.x.abs().raw > 25 {
            self.animation = Animation::Run;
        } else {
            self.animation = Animation::Idle;
        }
        if self.entity.velocity.x.raw > 0 {
            self.entity.direction = Direction::Right;
        } else if self.entity.velocity.x.raw < 0 {
            self.entity.direction = Direction::Left;
        }
        if old_animation != self.animation {
            match self.animation {
                Animation::Idle => {
                    self.entity.set_animation(player_idle());
                    self.entity.animation_speed = 8;
                },
                Animation::Run => {
                    self.entity.set_animation(player_run());
                    self.entity.animation_speed = 5;
                },
                Animation::JumpUp => {
                    self.entity.set_animation(player_jump_up());
                    self.entity.animation_speed = 8;
                },
                Animation::JumpMid => {
                    self.entity.set_animation(player_jump_mid());
                    self.entity.animation_speed = 8;
                },
                Animation::JumpFall => {
                    self.entity.set_animation(player_jump_fall());
                    self.entity.animation_speed = 8;
                },
            }
        }
    }
}


/// The collectible clock's lifecycle states, in the order it walks
/// them; `Destroy` is terminal and asks the owner to drop the clock
/// from the live collection.
#[derive(Clone, Copy, Debug, PartialEq, Eq, Structural)]
pub enum ClockState {
    Incoming,
    Active,
    Disappearing,
    Destroy,
}

/// A collectible clock: its fixed world-space spawn position, the
/// sprite entity that drifts with the scroll, its lifecycle state, and
/// the time it grants on pickup.
#[derive(Clone, Copy)]
pub struct Clock {
    pub position: Vec2,
    pub entity: Entity,
    pub state: ClockState,
    pub time: usize,
}

/// The next lifecycle state for a clock whose spawn point sits at
/// screen-space `sx` (raw 1/256ths): gone for good once it scrolls 16
/// pixels past the left edge; parked back to `Incoming` while beyond
/// the 240-pixel right edge; revealed as `Active` the moment an
/// incoming clock's spawn point scrolls into view.
pub open spec fn lifecycle_v(state: ClockState, sx: int) -> ClockState {
    let s1 = if sx < -4096 {
        ClockState::Destroy
    } else {
        state
    };
    if sx > 61440 && s1 != ClockState::Incoming {
        ClockState::Incoming
    } else if sx < 61440 && s1 == ClockState::Incoming {
        ClockState::Active
    } else {
        s1
    }
}

/// Whether the sprite is shown after the lifecycle step: hidden when
/// parked back to `Incoming`, shown when revealed, else unchanged.
pub open spec fn lifecycle_visible_v(state: ClockState, sx: int, visible: bool) -> bool {
    let s1 = if sx < -4096 {
        ClockState::Destroy
    } else {
        state
    };
    if sx > 61440 && s1 != ClockState::Incoming {
        false
    } else if sx < 61440 && s1 == ClockState::Incoming {
        true
    } else {
        visible
    }
}

/// One clock tick: the lifecycle step from the scrolled spawn
/// position, the entity tick, and — once the disappear animation has
/// played exactly through its last frame — the hand-off to `Destroy`.
pub open spec fn clock_tick_v(w: World, c: Clock) -> Clock {
    let sx = c.position.x.raw - w.scroll.raw;
    let s2 = lifecycle_v(c.state, sx);
    let vis = lifecycle_visible_v(c.state, sx, c.entity.visible);
    let e2 = anim_step_v(update_position_v(w, Entity { visible: vis, ..c.entity }));
    if s2 == ClockState::Disappearing && e2.frame == c.entity.animation.frame_count {
        Clock { entity: Entity { visible: false, ..e2 }, state: ClockState::Destroy, ..c }
    } else {
        Clock { entity: e2, state: s2, ..c }
    }
}

/// The clock a spawn point produces: hidden, incoming, granting twenty
/// seconds, its sprite at the spawn position.
pub open spec fn clock_init_v(position: Vec2) -> Clock {
    Clock {
        position,
        entity: Entity {
            position,
            velocity: v2(0, 0),
            visible: false,
            frame: 0,
            frame_counter: 0,
            animation: clock_rotate_v(),
            animation_speed: 8,
            direction: Direction::Right,
            collision_mask: Rect { position: v2(2048, 2048), size: v2(4096, 4096) },
        },
        state: ClockState::Incoming,
        time: 1200,
    }
}

/// What pickup does to a clock: it starts disappearing and its
/// disappear animation restarts from the first frame.
pub open spec fn clock_disappeared_v(c: Clock) -> Clock {
    Clock {
        state: ClockState::Disappearing,
        entity: Entity {
            animation: clock_disappear_v(),
            frame: 0,
            frame_counter: 0,
            animation_speed: 6,
            ..c.entity
        },
        ..c
    }
}

impl Clock {
    /// The clock's structural invariant: a sound entity and a sane time
    /// grant.
    pub open spec fn wf(self) -> bool {
        &&& self.entity.wf()
        &&& self.time <= 0x1_0000
    }

    /// A hidden, incoming clock at its spawn position, granting twenty
    /// seconds when picked up.
    pub fn new(position: Vec2) -> (r: Clock)
        requires
            bounded(position, POS_LIMIT as int),
        ensures
            r == clock_init_v(position),
            r.wf(),
    {
        let mut entity = Entity::new(
            Rect::new(Vec2::of_units(8, 8), Vec2::of_units(16, 16)),
            clock_rotate(),
            8,
        );
        entity.position = position;
        Clock { position, entity, state: ClockState::Incoming, time: 60 * 20 }
    }

    /// One clock tick; see `clock_tick_v`.
    pub fn update(&mut self, world: &World)
        requires
            old(self).wf(),
            bounded(old(self).entity.position, POS_LIMIT as int),
            bounded(old(self).position, POS_LIMIT as int),
            old(self).entity.frame < 0x1000_0000,
            world.wf(),
            world.scroll.raw <= 0x400_0000,
        ensures
            *final(self) == clock_tick_v(*world, *old(self)),
            final(self).entity.wf(),
            bounded(final(self).entity.position, POS_LIMIT + POS_STEP as int),
            final(self).position == old(self).position,
            final(self).time == old(self).time,
            final(self).entity.frame <= old(self).entity.frame + 1,
    {
        let screen_x = self.position.x.minus(world.scroll);
        if screen_x.raw < -4096 {
            self.state = ClockState::Destroy;
        }
        if screen_x.raw > 61440 && self.state != ClockState::Incoming {
            self.entity.visible = false;
            self.state = ClockState::Incoming;
        } else if screen_x.raw < 61440 && self.state == ClockState::Incoming {
            self.state = ClockState::Active;
            self.entity.visible = true;
        }
        self.entity.update(world);
        if self.state == ClockState::Disappearing && self.entity.animation.frame_count
            == self.entity.frame {
            self.entity.visible = false;
            self.state = ClockState::Destroy;
        }
    }

    /// The pickup trigger: the clock starts disappearing at once,
    /// whatever state it was in.
    pub fn disappear(&mut self)
        ensures
            *final(self) == clock_disappeared_v(*old(self)),
            old(self).wf() ==> final(self).wf(),
    {
        self.state = ClockState::Disappearing;
        self.entity.set_animation(clock_disappear());
        self.entity.animation_speed = 6;
    }
}


/// Whether the player's collider `pc` picks this clock up: only an
/// active clock, and only on contact.
pub open spec fn picked_v(c: Clock, pc: Rect) -> bool {
    c.state == ClockState::Active && touches_v(collider_v(c.entity), pc)
}

/// The pickup sweep over the live clocks: every active clock touching
/// the player's collider starts disappearing; the rest are untouched.
pub open spec fn pickup_pass_v(s: Seq<Clock>, pc: Rect) -> Seq<Clock> {
    s.map(|j: int, c: Clock| if picked_v(c, pc) {
        clock_disappeared_v(c)
    } else {
        c
    })
}

/// The time credited by the pickup sweep over the first `n` clocks.
pub open spec fn picked_time_v(s: Seq<Clock>, pc: Rect, n: int) -> int
    decreases n,
{
    if n <= 0 {
        0
    } else {
        picked_time_v(s, pc, n - 1) + if picked_v(s[n - 1], pc) {
            s[n - 1].time as int
        } else {
            0
        }
    }
}

/// The credited pickup time over `n` clocks is bounded by the largest
/// grant each clock may carry.
proof fn lemma_picked_time_bound(s: Seq<Clock>, pc: Rect, n: int)
    requires
        0 <= n <= s.len(),
        forall|j: int| 0 <= j < s.len() ==> (#[trigger] s[j]).wf(),
    ensures
        0 <= picked_time_v(s, pc, n) <= n * 0x1_0000,
    decreases n,
{
    if n > 0 {
        lemma_picked_time_bound(s, pc, n - 1);
        assert((n - 1) * 0x1_0000 + 0x1_0000 == n * 0x1_0000) by (nonlinear_arith);
    }
}

impl Player {
    /// One full player tick: the movement controller, the animation
    /// choice, the entity tick, then the pickup sweep over the live
    /// clocks (each picked clock starts disappearing and credits its
    /// time), and finally the left-edge clamp.
    pub fn update(
        &mut self,
        world: &World,
        clocks: &mut Vec<Clock>,
        timer: &mut Timer,
        input: &Input,
    )
        requires
            old(self).wf(),
            bounded(old(self).entity.position, POS_LIMIT as int),
            old(self).entity.frame < 0x1000_0000,
            world.wf(),
            world.scroll.raw <= 0x400_0000,
            forall|j: int|
                0 <= j < old(clocks)@.len() ==> (#[trigger] old(clocks)@[j]).wf() && bounded(
                    old(clocks)@[j].entity.position,
                    0x1000_0000,
                ),
            old(clocks)@.len() <= 0x1000,
            old(timer).time <= 0x1000_0000,
        ensures
            *final(self) == clamp_left_v(player_pre_pickup_v(*world, *old(self), *input)),
            final(self).wf(),
            bounded(final(self).entity.position, POS_LIMIT + POS_STEP as int),
            final(clocks)@ == pickup_pass_v(
                old(clocks)@,
                collider_v(player_pre_pickup_v(*world, *old(self), *input).entity),
            ),
            *final(timer) == (Timer {
                time: (old(timer).time + picked_time_v(
                    old(clocks)@,
                    collider_v(player_pre_pickup_v(*world, *old(self), *input).entity),
                    old(clocks)@.len() as int,
                )) as usize,
                ..*old(timer)
            }),
    {
        self.movement(world, input);
        self.update_animation();
        self.entity.update(world);
        let ghost pc = collider_v(self.entity);
        let player_collider = self.entity.collider();
        let mut idx: usize = 0;
        let count = clocks.len();
        while idx < count
            invariant
                count == clocks@.len(),
                count == old(clocks)@.len(),
                idx <= count,
                forall|j: int|
                    0 <= j < clocks@.len() ==> (#[trigger] clocks@[j]).wf() && bounded(
                        clocks@[j].entity.position,
                        0x1000_0000,
                    ),
                forall|j: int| 0 <= j < old(clocks)@.len() ==> (#[trigger] old(clocks)@[j]).wf(),
                count <= 0x1000,
                forall|j: int|
                    0 <= j < idx ==> clocks@[j] == pickup_pass_v(old(clocks)@, pc)[j],
                forall|j: int| idx <= j < count ==> clocks@[j] == old(clocks)@[j],
                timer.time == old(timer).time + picked_time_v(old(clocks)@, pc, idx as int),
                timer.visible == old(timer).visible,
                timer.minute_digit == old(timer).minute_digit,
                timer.tens_digit == old(timer).tens_digit,
                timer.ones_digit == old(timer).ones_digit,
                old(timer).time <= 0x1000_0000,
                player_collider == pc,
                pc == collider_v(self.entity),
                bounded(self.entity.position, POS_LIMIT + POS_STEP as int),
                self.entity.wf(),
            decreases count - idx,
        {
            let c = clocks[idx];
            let is_active = c.state == ClockState::Active;
            if is_active && c.entity.collider().touches(player_collider) {
                let mut picked = c;
                picked.disappear();
                clocks.set(idx, picked);
                proof {
                    lemma_picked_time_bound(old(clocks)@, pc, idx as int);
                }
                timer.add_time(c.time);
            }
            proof {
                assert(pickup_pass_v(old(clocks)@, pc)[idx as int] == (if picked_v(
                    old(clocks)@[idx as int],
                    pc,
                ) {
                    clock_disappeared_v(old(clocks)@[idx as int])
                } else {
                    old(clocks)@[idx as int]
                }));
            }
            idx += 1;
        }
        if self.entity.position.x.raw < 0 {
            self.entity.position = Vec2::new(Num::zero(), self.entity.position.y);
        }
        proof {
            assert(final(clocks)@ =~= pickup_pass_v(old(clocks)@, pc));
        }
    }
}

} // verus!



