//! The top-level game state machine: Start, Intro, Playing, GameOver,
//! the transition side effects, and the per-tick orchestration of the
//! player, the timer, the world and the collectibles.

use vstd::prelude::*;

use crate::entity::{
    clamp_left_v, clock_init_v, clock_tick_v, collider_v, nraw, picked_time_v, pickup_pass_v,
    player_pre_pickup_v, v2, Clock, ClockState, Entity, Player, POS_LIMIT, POS_STEP,
};
use crate::geom::{bounded, Vec2};
use crate::input::Input;
use crate::tilemap::Catalog;
use crate::timer::{timer_tick_v, Timer};
use crate::world::{
    scroll_velocity_v, section_at, SectionIndexGenerator, World, SCROLL_TICK_LIMIT, SEED,
};

verus! {

/// The top-level states. Exactly one is active at a time.
#[derive(Clone, Copy, Debug, PartialEq, Eq, Structural)]
pub enum GameState {
    Start,
    Intro,
    Playing,
    GameOver,
}

/// The whole game: the world, the player, the live collectibles, the
/// timer, the active state, and the overlay visibility the renderer
/// reads.
pub struct Game {
    pub world: World,
    pub player: Player,
    pub clocks: Vec<Clock>,
    pub timer: Timer,
    pub state: GameState,
    pub title_visible: bool,
    pub press_start_visible: bool,
    pub game_over_visible: bool,
}

/// The world-space spawn position a section's authored point `p` gets
/// in horizontal slot `slot`: sections are 512 pixels wide, and the
/// authored point is offset to center the sprite.
pub open spec fn spawn_pos_v(p: (i32, i32), slot: int) -> Vec2 {
    v2((p.0 - 8 + 512 * slot) * 256, (p.1 - 16) * 256)
}

/// The clocks one slot contributes: the authored spawn points of the
/// section chosen for that slot, each made into a fresh clock.
pub open spec fn slot_clocks_v(c: Catalog, seed: int, slot: int) -> Seq<Clock> {
    c.clock_positions@[section_at(seed, slot, c.sections@.len() as int)]@.map(
        |j: int, p: (i32, i32)| clock_init_v(spawn_pos_v(p, slot)),
    )
}

/// The collectibles a fresh session starts with: the spawns of the
/// first three section slots, in slot order.
pub open spec fn spawned_clocks_v(c: Catalog, seed: int) -> Seq<Clock> {
    slot_clocks_v(c, seed, 0) + slot_clocks_v(c, seed, 1) + slot_clocks_v(c, seed, 2)
}

/// The world after its scroll tick.
pub open spec fn ticked_world_v(w: World) -> World {
    World { scroll: nraw(w.scroll.raw + scroll_velocity_v(w.scroll.raw as int)), ..w }
}

/// The first `n` clocks of `s` with the destroyed ones removed, in
/// order.
pub open spec fn kept_clocks_v(s: Seq<Clock>, n: int) -> Seq<Clock>
    decreases n,
{
    if n <= 0 {
        Seq::empty()
    } else {
        let prev = kept_clocks_v(s, n - 1);
        if s[n - 1].state != ClockState::Destroy {
            prev.push(s[n - 1])
        } else {
            prev
        }
    }
}

/// What the clock collection looks like after its ticks against the
/// already-scrolled world, destroyed entries compacted away.
pub open spec fn playing_clocks_v(w2: World, mid: Seq<Clock>) -> Seq<Clock> {
    let ticked = mid.map(|j: int, c: Clock| clock_tick_v(w2, c));
    kept_clocks_v(ticked, ticked.len() as int)
}

impl Game {
    /// Everything structurally sound.
    pub open spec fn wf(self) -> bool {
        &&& self.world.wf()
        &&& self.player.wf()
        &&& forall|j: int| 0 <= j < self.clocks@.len() ==> (#[trigger] self.clocks@[j]).wf()
    }

    /// The per-tick machine limits a `Playing` tick starts from.
    pub open spec fn tick_ready(self) -> bool {
        &&& self.world.scroll.raw <= SCROLL_TICK_LIMIT
        &&& bounded(self.player.entity.position, POS_LIMIT as int)
        &&& self.player.entity.frame < 0x1000_0000
        &&& self.clocks@.len() <= 0x1000
        &&& forall|j: int|
            0 <= j < self.clocks@.len() ==> bounded(
                (#[trigger] self.clocks@[j]).entity.position,
                POS_LIMIT as int,
            ) && bounded(self.clocks@[j].position, POS_LIMIT as int)
                && self.clocks@[j].entity.frame < 0x1000_0000
        &&& self.timer.time <= 0x1000_0000
    }

    /// A fresh game over the given world: everything hidden, no
    /// collectibles, the state machine at `Start`.
    pub fn new(world: World) -> (r: Game)
        requires
            world.wf(),
        ensures
            r.world == world,
            r.player == crate::entity::player_init_v(),
            r.clocks@ == Seq::<Clock>::empty(),
            r.timer == crate::timer::timer_init_v(),
            r.state == GameState::Start,
            !r.title_visible && !r.press_start_visible && !r.game_over_visible,
            r.wf(),
    {
        Game {
            world,
            player: Player::new(),
            clocks: Vec::new(),
            timer: Timer::new(),
            state: GameState::Start,
            title_visible: false,
            press_start_visible: false,
            game_over_visible: false,
        }
    }

    /// Appends the clocks of one section slot.
    fn push_slot(&mut self, slot: usize)
        requires
            old(self).wf(),
            old(self).world.section_generator is Some,
            slot < 3,
        ensures
            final(self).clocks@ == old(self).clocks@ + slot_clocks_v(
                old(self).world.catalog,
                old(self).world.section_generator->Some_0.seed as int,
                slot as int,
            ),
            final(self).world == old(self).world,
            final(self).player == old(self).player,
            final(self).timer == old(self).timer,
            final(self).state == old(self).state,
            final(self).title_visible == old(self).title_visible,
            final(self).press_start_visible == old(self).press_start_visible,
            final(self).game_over_visible == old(self).game_over_visible,
            final(self).wf(),
    {
        let generator = match &self.world.section_generator {
            Some(g) => g,
            None => {
                return ;
            },
        };
        let section = generator.get_at(slot);
        let ghost target = slot_clocks_v(
            self.world.catalog,
            generator.seed as int,
            slot as int,
        );
        let spawns = &self.world.catalog.clock_positions[section];
        let count = spawns.len();
        let mut j: usize = 0;
        while j < count
            invariant
                count == spawns@.len(),
                j <= count,
                spawns@ == self.world.catalog.clock_positions@[section as int]@,
                section as int == section_at(
                    self.world.section_generator->Some_0.seed as int,
                    slot as int,
                    self.world.catalog.sections@.len() as int,
                ),
                section < self.world.catalog.clock_positions@.len(),
                target == slot_clocks_v(
                    self.world.catalog,
                    self.world.section_generator->Some_0.seed as int,
                    slot as int,
                ),
                slot < 3,
                self.world == old(self).world,
                self.world.wf(),
                self.player == old(self).player,
                self.timer == old(self).timer,
                self.state == old(self).state,
                self.title_visible == old(self).title_visible,
                self.press_start_visible == old(self).press_start_visible,
                self.game_over_visible == old(self).game_over_visible,
                self.clocks@.len() == old(self).clocks@.len() + j,
                forall|k: int|
                    0 <= k < old(self).clocks@.len() ==> self.clocks@[k] == old(self).clocks@[k],
                forall|k: int|
                    0 <= k < j ==> self.clocks@[old(self).clocks@.len() + k] == target[k],
                forall|k: int| 0 <= k < self.clocks@.len() ==> (#[trigger] self.clocks@[k]).wf(),
            decreases count - j,
        {
            let (px, py) = spawns[j];
            let clock = Clock::new(Vec2::of_units(px - 8 + 512 * (slot as i32), py - 16));
            self.clocks.push(clock);
            j += 1;
        }
        proof {
            assert(final(self).clocks@ =~= old(self).clocks@ + target);
        }
    }

    /// Fills the collectible collection from the first three section
    /// slots of the fresh session.
    fn populate_clocks(&mut self)
        requires
            old(self).wf(),
            old(self).world.section_generator is Some,
            old(self).clocks@.len() == 0,
        ensures
            final(self).clocks@ == spawned_clocks_v(
                old(self).world.catalog,
                old(self).world.section_generator->Some_0.seed as int,
            ),
            final(self).world == old(self).world,
            final(self).player == old(self).player,
            final(self).timer == old(self).timer,
            final(self).state == old(self).state,
            final(self).title_visible == old(self).title_visible,
            final(self).press_start_visible == old(self).press_start_visible,
            final(self).game_over_visible == old(self).game_over_visible,
            final(self).wf(),
    {
        self.push_slot(0);
        self.push_slot(1);
        self.push_slot(2);
        proof {
            assert(final(self).clocks@ =~= spawned_clocks_v(
                old(self).world.catalog,
                old(self).world.section_generator->Some_0.seed as int,
            ));
        }
    }
}


/// What a transition into `to` does to the game, besides setting the
/// state: entering `Playing` restarts the world and the timer,
/// repopulates the collectibles, and positions and reveals the player;
/// entering `Start` tears the session down behind the title overlays;
/// entering `GameOver` hides timer and player behind its overlay;
/// `Intro` is a placeholder with no side effects.
pub open spec fn transitioned_v(g: Game, to: GameState, r: Game) -> bool {
    r.state == to && match to {
        GameState::Playing => {
            &&& r.world == (World {
                scroll: nraw(0),
                section_generator: Some(
                    SectionIndexGenerator {
                        seed: SEED,
                        section_count: g.world.catalog.sections@.len() as usize,
                    },
                ),
                ..g.world
            })
            &&& r.clocks@ == spawned_clocks_v(g.world.catalog, SEED as int)
            &&& r.timer == (Timer {
                time: crate::timer::SESSION_TIME,
                visible: true,
                ..g.timer
            })
            &&& r.player == (Player {
                entity: Entity { position: v2(16384, 26624), visible: true, ..g.player.entity },
                ..g.player
            })
            &&& !r.title_visible && !r.press_start_visible && !r.game_over_visible
        },
        GameState::Start => {
            &&& r.world == (World { section_generator: None, ..g.world })
            &&& r.clocks@ == g.clocks@
            &&& r.timer == (Timer { visible: false, ..g.timer })
            &&& r.player == g.player
            &&& r.title_visible && r.press_start_visible
            &&& r.game_over_visible == g.game_over_visible
        },
        GameState::GameOver => {
            &&& r.world == g.world
            &&& r.clocks@ == g.clocks@
            &&& r.timer == (Timer { visible: false, ..g.timer })
            &&& r.player == (Player {
                entity: Entity { visible: false, ..g.player.entity },
                ..g.player
            })
            &&& r.title_visible == g.title_visible
            &&& r.press_start_visible == g.press_start_visible
            &&& r.game_over_visible
        },
        GameState::Intro => {
            &&& r.world == g.world
            &&& r.clocks@ == g.clocks@
            &&& r.timer == g.timer
            &&& r.player == g.player
            &&& r.title_visible == g.title_visible
            &&& r.press_start_visible == g.press_start_visible
            &&& r.game_over_visible == g.game_over_visible
        },
    }
}

impl Game {
    /// Moves the state machine to `state` and applies that state's
    /// entry effects; see `transitioned_v`.
    pub fn transition_to_state(&mut self, state: GameState)
        requires
            old(self).wf(),
        ensures
            transitioned_v(*old(self), state, *final(self)),
            final(self).wf(),
            final(self).world.catalog == old(self).world.catalog,
    {
        self.state = state;
        match state {
            GameState::Playing => {
                self.world.start();
                self.clocks = Vec::new();
                self.populate_clocks();
                self.timer.show();
                self.timer.reset();
                self.player.entity.visible = true;
                self.player.entity.position = Vec2::of_units(64, 104);
                self.title_visible = false;
                self.press_start_visible = false;
                self.game_over_visible = false;
            },
            GameState::Start => {
                self.timer.conceal();
                self.world.stop();
                self.title_visible = true;
                self.press_start_visible = true;
            },
            GameState::GameOver => {
                self.timer.conceal();
                self.player.entity.visible = false;
                self.game_over_visible = true;
            },
            GameState::Intro => {},
        }
    }

    /// One tick of the whole game. On the title screen a press of START
    /// or the jump button begins a session (through the placeholder
    /// intro); while playing, the player, the timer, the world scroll
    /// and every collectible advance one tick and destroyed
    /// collectibles are compacted away; a game over returns to the
    /// title on the next tick, with the title screen's entry effects.
    pub fn update(&mut self, input: &Input)
        requires
            old(self).wf(),
            old(self).state == GameState::Playing ==> old(self).tick_ready(),
        ensures
            final(self).wf(),
            final(self).world.catalog == old(self).world.catalog,
            match old(self).state {
                GameState::Start => {
                    if input.start_just_pressed || input.jump_just_pressed {
                        transitioned_v(*old(self), GameState::Intro, *final(self))
                    } else {
                        *final(self) == *old(self)
                    }
                },
                GameState::Intro => transitioned_v(*old(self), GameState::Playing, *final(self)),
                GameState::Playing => {
                    let pc = collider_v(
                        player_pre_pickup_v(old(self).world, old(self).player, *input).entity,
                    );
                    let mid = pickup_pass_v(old(self).clocks@, pc);
                    let w2 = ticked_world_v(old(self).world);
                    &&& final(self).player == clamp_left_v(
                        player_pre_pickup_v(old(self).world, old(self).player, *input),
                    )
                    &&& final(self).world == w2
                    &&& final(self).timer == timer_tick_v(
                        Timer {
                            time: (old(self).timer.time + picked_time_v(
                                old(self).clocks@,
                                pc,
                                old(self).clocks@.len() as int,
                            )) as usize,
                            ..old(self).timer
                        },
                    )
                    &&& final(self).clocks@ == playing_clocks_v(w2, mid)
                    &&& final(self).state == GameState::Playing
                    &&& final(self).title_visible == old(self).title_visible
                    &&& final(self).press_start_visible == old(self).press_start_visible
                    &&& final(self).game_over_visible == old(self).game_over_visible
                },
                GameState::GameOver => transitioned_v(
                    *old(self),
                    GameState::Start,
                    *final(self),
                ),
            },
    {
        match self.state {
            GameState::Start => {
                if input.start_just_pressed || input.jump_just_pressed {
                    self.transition_to_state(GameState::Intro);
                }
            },
            GameState::Intro => {
                self.transition_to_state(GameState::Playing);
            },
            GameState::Playing => {
                let ghost entry = *self;
                self.player.update(&self.world, &mut self.clocks, &mut self.timer, input);
                self.timer.update();
                self.world.update();
                let ghost snap = *self;
                let ghost w2 = self.world;
                let ghost mid = self.clocks@;
                proof {
                    assert(w2 == ticked_world_v(entry.world));
                    assert forall|j: int| 0 <= j < mid.len() implies (#[trigger] mid[j]).wf()
                        && bounded(mid[j].entity.position, POS_LIMIT as int) && bounded(
                        mid[j].position,
                        POS_LIMIT as int,
                    ) && mid[j].entity.frame < 0x1000_0000 by {
                        assert(mid[j] == if crate::entity::picked_v(
                            entry.clocks@[j],
                            collider_v(
                                player_pre_pickup_v(entry.world, entry.player, *input).entity,
                            ),
                        ) {
                            crate::entity::clock_disappeared_v(entry.clocks@[j])
                        } else {
                            entry.clocks@[j]
                        });
                    }
                }
                let count = self.clocks.len();
                let mut idx: usize = 0;
                while idx < count
                    invariant
                        count == self.clocks@.len(),
                        count == mid.len(),
                        idx <= count,
                        forall|j: int|
                            0 <= j < mid.len() ==> (#[trigger] mid[j]).wf() && bounded(
                                mid[j].entity.position,
                                POS_LIMIT as int,
                            ) && bounded(mid[j].position, POS_LIMIT as int)
                                && mid[j].entity.frame < 0x1000_0000,
                        forall|j: int|
                            0 <= j < idx ==> self.clocks@[j] == clock_tick_v(w2, mid[j]),
                        forall|j: int| idx <= j < count ==> self.clocks@[j] == mid[j],
                        self.world == w2,
                        w2.wf(),
                        w2.scroll.raw <= 0x400_0000,
                        self.player == snap.player,
                        self.timer == snap.timer,
                        self.state == snap.state,
                        self.title_visible == snap.title_visible,
                        self.press_start_visible == snap.press_start_visible,
                        self.game_over_visible == snap.game_over_visible,
                        forall|j: int|
                            0 <= j < self.clocks@.len() ==> (#[trigger] self.clocks@[j]).wf(),
                    decreases count - idx,
                {
                    let mut c = self.clocks[idx];
                    c.update(&self.world);
                    self.clocks.set(idx, c);
                    idx += 1;
                }
                let ghost ticked = self.clocks@;
                let mut kept: Vec<Clock> = Vec::new();
                let mut j: usize = 0;
                while j < count
                    invariant
                        count == self.clocks@.len(),
                        j <= count,
                        kept@ == kept_clocks_v(ticked, j as int),
                        ticked == self.clocks@,
                        forall|k: int|
                            0 <= k < self.clocks@.len() ==> (#[trigger] self.clocks@[k]).wf(),
                        forall|k: int| 0 <= k < kept@.len() ==> (#[trigger] kept@[k]).wf(),
                        self.world == w2,
                        self.player == snap.player,
                        self.timer == snap.timer,
                        self.state == snap.state,
                        self.title_visible == snap.title_visible,
                        self.press_start_visible == snap.press_start_visible,
                        self.game_over_visible == snap.game_over_visible,
                    decreases count - j,
                {
                    let c = self.clocks[j];
                    if !(c.state == ClockState::Destroy) {
                        kept.push(c);
                    }
                    j += 1;
                }
                self.clocks = kept;
                proof {
                    assert(ticked =~= mid.map(|i: int, c: Clock| clock_tick_v(w2, c)));
                }
            },
            GameState::GameOver => {
                self.transition_to_state(GameState::Start);
            },
        }
    }
}

} // verus!

