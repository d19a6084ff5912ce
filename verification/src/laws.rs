//! The engine's laws: properties that hold of every input, stated over
//! the same spec functions the public contracts use and proved here.

use vstd::prelude::*;

use crate::entity::{
    axis_unit, cid_v, clip_of, lead_point_v, manhattan_v, probe_points_v, v2, Entity, Player,
    POS_LIMIT, VEL_LIMIT,
};
use crate::game::{spawned_clocks_v, transitioned_v, Game, GameState};
use crate::geom::{bounded, Rect, Vec2};
use crate::input::Input;
use crate::num::{abs_v, fx_product, lemma_fx_unit, Num};
use crate::world::{collides_v, lcg_next, section_at, World, SEED};

verus! {

/// The section chosen for any positive slot is never the safe section 0
/// and always lies inside the catalog. Together with `get_at`'s
/// contract — its result equals `section_at`, a pure function of seed
/// and slot alone — this makes the sequence deterministic across calls
/// and across fresh generator instances.
pub proof fn lemma_section_choice_sound(seed: int, slot: int, n: int)
    requires
        0 <= seed,
        slot > 0,
        n >= 2,
    ensures
        1 <= section_at(seed, slot, n) < n,
{
    let it = crate::world::lcg_iter(seed, slot as nat);
    lemma_lcg_iter_bounds(seed, slot as nat);
    let m = it % 3;
    assert(0 <= m < 3) by {
        vstd::arithmetic::div_mod::lemma_mod_division_less_than_divisor(it, 3);
    }
    assert(0 <= m % (n - 1) < n - 1) by {
        vstd::arithmetic::div_mod::lemma_mod_division_less_than_divisor(m, n - 1);
    }
}

/// Every iterate of the recurrence from a non-negative seed stays
/// non-negative (and below the modulus once stepped).
proof fn lemma_lcg_iter_bounds(seed: int, k: nat)
    requires
        0 <= seed,
    ensures
        0 <= crate::world::lcg_iter(seed, k),
    decreases k,
{
    if k > 0 {
        lemma_lcg_iter_bounds(seed, (k - 1) as nat);
        let prev = crate::world::lcg_iter(seed, (k - 1) as nat);
        assert(lcg_next(prev) == (prev * 1103515245 + 12345) % 0x8000_0000);
        vstd::arithmetic::div_mod::lemma_mod_division_less_than_divisor(
            prev * 1103515245 + 12345,
            0x8000_0000,
        );
    }
}

/// The value of the resolved movement along the movement axis.
pub open spec fn axis_of(v: Vec2, d: Vec2) -> int {
    if d.x.raw != 0 {
        v.x.raw as int
    } else {
        v.y.raw as int
    }
}

/// The axis-separated sweep never lets the collider penetrate a solid
/// cell a probe reported, in the direction of travel: the resolved
/// movement stays on the movement axis, never exceeds the requested
/// distance, and stops at or before the physical tile face — the
/// reported cell's near edge, carried back into entity coordinates —
/// whenever that face is not already behind the leading edge. (A
/// collider that already overlaps the cell — a negative clip — is the
/// one case the sweep cannot mend, and is excluded; so is a lone tile
/// thin enough to pass between the two probes.)
pub proof fn lemma_swept_no_penetration(w: World, e: Entity, d: Vec2, dist: Num)
    requires
        e.wf(),
        bounded(e.position, POS_LIMIT + 0x1_0000),
        axis_unit(d),
        0 <= dist.raw <= VEL_LIMIT,
        w.wf(),
        w.scroll.raw <= 0x400_0000,
    ensures
        ({
            let r = cid_v(w, e, d, dist);
            &&& (d.x.raw == 0 ==> r.0.x.raw == 0)
            &&& (d.y.raw == 0 ==> r.0.y.raw == 0)
            &&& manhattan_v(r.0) <= dist.raw
        }),
        ({
            let r = cid_v(w, e, d, dist);
            let lead = lead_point_v(e, d);
            let probes = probe_points_v(e, d);
            let md = v2(
                fx_product(d.x.raw as int, dist.raw as int),
                fx_product(d.y.raw as int, dist.raw as int),
            );
            let q1 = v2(probes.0.x.raw + md.x.raw, probes.0.y.raw + md.y.raw);
            let q2 = v2(probes.1.x.raw + md.x.raw, probes.1.y.raw + md.y.raw);
            forall|cell: Rect|
                (collides_v(w, q1) == Some(cell) || collides_v(w, q2) == Some(cell)) ==> ({
                    let c = axis_of(clip_of(lead, cell, w.scroll.raw as int, d), d);
                    &&& manhattan_v(r.0) <= manhattan_v(clip_of(lead, cell, w.scroll.raw as int, d))
                    &&& (d.x.raw + d.y.raw > 0 && c >= 0 ==> axis_of(r.0, d) <= c)
                    &&& (d.x.raw + d.y.raw < 0 && c <= 0 ==> axis_of(r.0, d) >= c)
                })
        }),
{
    reveal(cid_v);
    let r = cid_v(w, e, d, dist);
    let lead = lead_point_v(e, d);
    let probes = probe_points_v(e, d);
    lemma_fx_unit(dist.raw as int);
    let md = v2(
        fx_product(d.x.raw as int, dist.raw as int),
        fx_product(d.y.raw as int, dist.raw as int),
    );
    let q1 = v2(probes.0.x.raw + md.x.raw, probes.0.y.raw + md.y.raw);
    let q2 = v2(probes.1.x.raw + md.x.raw, probes.1.y.raw + md.y.raw);
    let r1 = collides_v(w, q1);
    let r2 = collides_v(w, q2);
    assert(manhattan_v(md) <= dist.raw);
    if r1 is Some {
        lemma_clip_axis(lead, r1->Some_0, w.scroll.raw as int, d);
    }
    if r2 is Some {
        lemma_clip_axis(lead, r2->Some_0, w.scroll.raw as int, d);
    }
    assert forall|cell: Rect| (r1 == Some(cell) || r2 == Some(cell)) implies ({
        let c = axis_of(clip_of(lead, cell, w.scroll.raw as int, d), d);
        &&& manhattan_v(r.0) <= manhattan_v(clip_of(lead, cell, w.scroll.raw as int, d))
        &&& (d.x.raw + d.y.raw > 0 && c >= 0 ==> axis_of(r.0, d) <= c)
        &&& (d.x.raw + d.y.raw < 0 && c <= 0 ==> axis_of(r.0, d) >= c)
    }) by {
        let cv = clip_of(lead, cell, w.scroll.raw as int, d);
        lemma_clip_axis(lead, cell, w.scroll.raw as int, d);
        assert(manhattan_v(r.0) <= manhattan_v(cv));
        let c = axis_of(cv, d);
        assert(abs_v(axis_of(r.0, d)) <= abs_v(c));
    }
}

/// The clipped movement for a cell lies on the movement axis, so its
/// Manhattan magnitude is the magnitude of its axis component.
proof fn lemma_clip_axis(lead: Vec2, cell: Rect, scroll: int, d: Vec2)
    requires
        axis_unit(d),
    ensures
        d.x.raw == 0 ==> clip_of(lead, cell, scroll, d).x.raw == 0,
        d.y.raw == 0 ==> clip_of(lead, cell, scroll, d).y.raw == 0,
        manhattan_v(clip_of(lead, cell, scroll, d)) == abs_v(
            axis_of(clip_of(lead, cell, scroll, d), d),
        ),
{
    let center_x = cell.position.x.raw - scroll + cell.size.x.raw / 2;
    let center_y = cell.position.y.raw + cell.size.y.raw / 2;
    let edge_x = center_x - crate::num::tdiv(
        fx_product(cell.size.x.raw as int, d.x.raw as int),
        2,
    );
    let edge_y = center_y - crate::num::tdiv(
        fx_product(cell.size.y.raw as int, d.y.raw as int),
        2,
    );
    lemma_fx_unit(edge_x - lead.x.raw);
    lemma_fx_unit(edge_y - lead.y.raw);
}

/// The pure damping recurrence: nine tenths of the previous value, in
/// fixed point, each tick.
pub open spec fn decay_iter(v: int, k: nat) -> int
    decreases k,
{
    if k == 0 {
        v
    } else {
        fx_product(decay_iter(v, (k - 1) as nat), 230)
    }
}

/// The horizontal velocity after `k` ticks of coasting: what the
/// movement controller does to it when no direction is held.
pub open spec fn coast_iter(v: int, k: nat) -> int
    decreases k,
{
    if k == 0 {
        v
    } else {
        crate::entity::friction_v(crate::entity::clamp_run_v(coast_iter(v, (k - 1) as nat)))
    }
}

/// The friction law, while the decay stays at or above the dead zone:
/// after `k` ticks with no input held, the horizontal velocity is
/// exactly the raw value damped through the fixed-point recurrence `k`
/// times — `v` times nine tenths per tick, floored each time.
pub proof fn lemma_friction_decay(v: int, k: nat)
    requires
        abs_v(v) <= 512,
        forall|j: nat| 1 <= j <= k ==> abs_v(#[trigger] decay_iter(v, j)) >= 16,
    ensures
        coast_iter(v, k) == decay_iter(v, k),
        abs_v(decay_iter(v, k)) <= 512,
    decreases k,
{
    if k > 0 {
        assert forall|j: nat| 1 <= j <= (k - 1) as nat implies abs_v(#[trigger] decay_iter(v, j))
            >= 16 by {
            assert(1 <= j <= k);
        }
        lemma_friction_decay(v, (k - 1) as nat);
        let prev = decay_iter(v, (k - 1) as nat);
        lemma_damping_contracts(prev);
        assert(abs_v(decay_iter(v, k)) >= 16);
    }
}

/// Damping never grows a value: `|v * 0.9|` in fixed point is at most
/// `|v|`.
proof fn lemma_damping_contracts(v: int)
    requires
        abs_v(v) <= 512,
    ensures
        abs_v(fx_product(v, 230)) <= abs_v(v),
{
    let p = v * 230;
    if v >= 0 {
        vstd::arithmetic::div_mod::lemma_div_is_ordered(p, v * 256, 256);
        lemma_fx_unit(v);
        vstd::arithmetic::div_mod::lemma_div_pos_is_pos(p, 256);
    } else {
        vstd::arithmetic::div_mod::lemma_div_is_ordered(v * 256, p, 256);
        lemma_fx_unit(v);
        assert(p <= 0) by (nonlinear_arith)
            requires
                v < 0,
                p == v * 230,
        ;
        vstd::arithmetic::div_mod::lemma_div_is_ordered(p, 0, 256);
        vstd::arithmetic::div_mod::lemma_div_of0(256);
    }
}

/// Once the dead zone snaps the coasting velocity to zero, it stays
/// exactly zero: zero is a fixed point of the friction law.
pub proof fn lemma_friction_zero_fixed(k: nat)
    ensures
        coast_iter(0, k) == 0,
    decreases k,
{
    if k > 0 {
        lemma_friction_zero_fixed((k - 1) as nat);
        lemma_fx_unit(230);
    }
}

/// The vertical velocity after `k` airborne ticks without a jump:
/// gravity as the movement controller applies it.
pub open spec fn fall_iter(vy: int, k: nat) -> int
    decreases k,
{
    if k == 0 {
        vy
    } else {
        let v = fall_iter(vy, (k - 1) as nat) + 64;
        if v > 1024 {
            1024
        } else {
            v
        }
    }
}

/// The gravity ramp: each airborne tick adds exactly a quarter pixel
/// per tick of fall speed until the terminal speed of four pixels per
/// tick, where it stays.
pub proof fn lemma_gravity_ramp(vy: int, k: nat)
    requires
        -1024 <= vy <= 1024,
    ensures
        fall_iter(vy, k) == if vy + 64 * k > 1024 {
            1024int
        } else {
            vy + 64 * k
        },
    decreases k,
{
    if k > 0 {
        lemma_gravity_ramp(vy, (k - 1) as nat);
    }
}

/// One coasting tick: with no direction held, the movement controller
/// sends the horizontal velocity through exactly one step of the
/// friction recurrence, whatever else the tick does.
pub proof fn lemma_coasting_tick(w: World, p: Player, i: Input)
    requires
        !i.left,
        !i.right,
        p.entity.position.y.raw <= 40960,
    ensures
        crate::entity::movement_v(w, p, i).entity.velocity.x.raw == coast_iter(
            p.entity.velocity.x.raw as int,
            1,
        ),
{
    let v = p.entity.velocity.x.raw as int;
    lemma_damping_contracts(crate::entity::clamp_run_v(v));
    assert(coast_iter(v, 0) == v);
    assert(coast_iter(v, 1) == crate::entity::friction_v(crate::entity::clamp_run_v(v)));
    assert(abs_v(crate::entity::friction_v(crate::entity::clamp_run_v(v))) <= 512);
}

/// One airborne tick: whenever the ground probe misses, no jump can
/// fire and the movement controller sends the vertical velocity
/// through exactly one step of the gravity ramp.
pub proof fn lemma_airborne_tick(w: World, p: Player, i: Input)
    requires
        !crate::entity::probe_ground_v(w, p.entity),
        p.entity.position.y.raw <= 40960,
        abs_v(p.entity.velocity.y.raw as int) <= VEL_LIMIT,
    ensures
        crate::entity::movement_v(w, p, i).entity.velocity.y.raw == fall_iter(
            p.entity.velocity.y.raw as int,
            1,
        ),
{
    let vy = p.entity.velocity.y.raw as int;
    assert(fall_iter(vy, 0) == vy);
    assert(fall_iter(vy, 1) == if vy + 64 > 1024 {
        1024int
    } else {
        vy + 64
    });
}

/// The jump impulse: grounded — the tick's own probe finds solid one
/// pixel below the collider — plus a jump press sets the vertical
/// velocity to exactly minus four pixels per tick, gravity staying out
/// while grounded. The one input left aside is a player already past
/// the respawn line, whose velocity the fail-safe zeroes instead.
pub proof fn lemma_jump_impulse(w: World, p: Player, i: Input)
    requires
        crate::entity::probe_ground_v(w, p.entity),
        i.jump_just_pressed,
        p.entity.position.y.raw <= 40960,
    ensures
        crate::entity::movement_v(w, p, i).entity.velocity.y.raw == -1024,
{
}

/// Restarting a session reproduces it exactly: two transitions into
/// `Playing` over the same catalog build generators with the same
/// fixed seed — so the section sequence is identical — and spawn an
/// identical collectible set.
pub proof fn lemma_restart_reproduces(g1: Game, g2: Game, r1: Game, r2: Game)
    requires
        transitioned_v(g1, GameState::Playing, r1),
        transitioned_v(g2, GameState::Playing, r2),
        g1.world.catalog == g2.world.catalog,
    ensures
        r1.world.section_generator == r2.world.section_generator,
        r1.clocks@ == r2.clocks@,
{
    assert(r1.clocks@ == spawned_clocks_v(g1.world.catalog, SEED as int));
    assert(r2.clocks@ == spawned_clocks_v(g2.world.catalog, SEED as int));
}

} // verus!
