use platformer_core::entity::{Clock, ClockState, GroundState, Player};
use platformer_core::game::{Game, GameState};
use platformer_core::geom::{Rect, Vec2};
use platformer_core::input::Input;
use platformer_core::num::Num;
use platformer_core::tilemap::Catalog;
use platformer_core::timer::Timer;
use platformer_core::world::{SectionIndexGenerator, World};

/// Three sections: section 0 empty, the others as asked. Tile id 1 is
/// solid; the sections listed in `solid_cells` as (section, column,
/// row) carry it.
fn catalog_with(solid_cells: &[(usize, usize, usize)]) -> Catalog {
    let background = vec![32u16; 2048];
    let mut sections = vec![vec![0u16; 2048], vec![0u16; 2048], vec![0u16; 2048]];
    for &(s, col, row) in solid_cells {
        sections[s][row * 64 + col] = 1;
    }
    let tile_types = vec![0u8, 1u8];
    let clock_positions = vec![vec![], vec![(100, 80)], vec![(200, 60)]];
    Catalog::new(background, sections, tile_types, clock_positions).unwrap()
}

/// A floor across the bottom of every section at the given row.
fn floor_cells(row: usize) -> Vec<(usize, usize, usize)> {
    let mut cells = Vec::new();
    for s in 0..3 {
        for col in 0..64 {
            cells.push((s, col, row));
        }
    }
    cells
}

fn playing_world(solid_cells: &[(usize, usize, usize)]) -> World {
    let mut world = World::new(catalog_with(solid_cells));
    world.start();
    world
}

#[test]
fn fixed_point_multiply_floors_toward_negative_infinity() {
    assert_eq!(Num::from_raw(-1).times(Num::from_raw(230)).raw, -1);
    assert_eq!(Num::from_raw(256).times(Num::from_raw(230)).raw, 230);
    assert_eq!(Num::from_raw(512).times(Num::from_raw(230)).raw, 460);
}

#[test]
fn fixed_point_floor_rounds_down() {
    assert_eq!(Num::from_raw(-1).floor(), -1);
    assert_eq!(Num::from_raw(255).floor(), 0);
    assert_eq!(Num::new(-2).floor(), -2);
}

#[test]
fn fixed_point_sqrt_exact_values() {
    assert_eq!(Num::new(4).sqrt().raw, 512);
    assert_eq!(Num::new(2).sqrt().raw, 362);
    assert_eq!(Num::zero().sqrt().raw, 0);
}

#[test]
fn fixed_point_division() {
    assert_eq!(Num::new(1).div_num(Num::new(8)).raw, 32);
    assert_eq!(Num::from_raw(-1024).div_int(64).raw, -16);
}

#[test]
fn rectangles_touch_on_shared_edges() {
    let a = Rect::new(Vec2::of_units(0, 0), Vec2::of_units(8, 8));
    let b = Rect::new(Vec2::of_units(8, 0), Vec2::of_units(8, 8));
    let c = Rect::new(Vec2::of_units(9, 0), Vec2::of_units(8, 8));
    assert!(a.touches(b));
    assert!(b.touches(a));
    assert!(!a.touches(c));
}

#[test]
fn section_sequence_is_deterministic_and_never_zero() {
    let g1 = SectionIndexGenerator::new(0, 3);
    let g2 = SectionIndexGenerator::new(0, 3);
    assert_eq!(g1.get_at(0), 0);
    for slot in 1..50 {
        let a = g1.get_at(slot);
        let b = g2.get_at(slot);
        assert_eq!(a, b);
        assert!(a >= 1 && a < 3);
    }
}

#[test]
fn section_sequence_matches_the_recurrence() {
    let g = SectionIndexGenerator::new(0, 3);
    assert_eq!(g.get_at(1), 1);
    assert_eq!(g.get_at(2), 2);
    assert_eq!(g.get_at(3), 1);
    assert_eq!(g.get_at(4), 2);
    assert_eq!(g.get_at(5), 1);
}

#[test]
fn scroll_velocity_starts_at_a_quarter_pixel() {
    let world = playing_world(&[]);
    assert_eq!(world.scroll_velocity().raw, 64);
}

#[test]
fn scroll_advances_by_the_velocity() {
    let mut world = playing_world(&[]);
    world.update();
    assert_eq!(world.scroll.raw, 64);
}

#[test]
fn collision_is_none_left_of_origin_and_outside_rows() {
    let world = playing_world(&floor_cells(12));
    assert!(world.collides(Vec2::of_units(-10, 16)).is_none());
    assert!(world.collides(Vec2::of_units(10, 300)).is_none());
    assert!(world.collides(Vec2::of_units(10, -5)).is_none());
}

#[test]
fn collision_is_none_for_any_scroll_when_out_of_range() {
    let mut world = playing_world(&floor_cells(12));
    for _ in 0..10 {
        world.update();
        assert!(world.collides(Vec2::of_units(-40, 16)).is_none());
        assert!(world.collides(Vec2::of_units(10, 999)).is_none());
    }
}

#[test]
fn collision_is_none_before_a_session_starts() {
    let world = World::new(catalog_with(&floor_cells(12)));
    assert!(world.collides(Vec2::of_units(10, 96)).is_none());
}

#[test]
fn collision_reports_the_solid_cell() {
    let world = playing_world(&[(0, 3, 10)]);
    let hit = world.collides(Vec2::of_units(28, 82)).unwrap();
    assert_eq!(hit.position.x.raw, 3 * 8 * 256);
    assert_eq!(hit.position.y.raw, 10 * 8 * 256);
    assert_eq!(hit.size.x.raw, 8 * 256);
    assert_eq!(hit.size.y.raw, 8 * 256);
    assert!(world.collides(Vec2::of_units(28, 60)).is_none());
}

#[test]
fn falling_entity_lands_exactly_on_the_floor() {
    let world = playing_world(&floor_cells(12));
    let mut player = Player::new();
    player.entity.position = Vec2::of_units(20, 78);
    player.entity.velocity = Vec2::new(Num::zero(), Num::new(4));
    player.entity.update_position(&world);
    // The collider's bottom edge lands exactly on top of the solid row
    // (row 12 starts at 96 pixels; the collider bottom is position.y
    // plus 16 pixels), and the vertical velocity is zeroed.
    assert_eq!(player.entity.position.y.raw, 80 * 256);
    assert_eq!(player.entity.velocity.y.raw, 0);
    // Scroll compensation pulled the entity a quarter pixel left.
    assert_eq!(player.entity.position.x.raw, 20 * 256 - 64);
}

#[test]
fn entity_does_not_move_past_a_wall_sideways() {
    // A wall column at tile column 5 (40 pixels), rows 8..14.
    let mut cells = Vec::new();
    for row in 8..14 {
        cells.push((0usize, 5usize, row));
    }
    let world = playing_world(&cells);
    let mut player = Player::new();
    player.entity.position = Vec2::of_units(26, 80);
    player.entity.velocity = Vec2::new(Num::new(2), Num::zero());
    player.entity.update_position(&world);
    // The requested 2-pixel move is clipped to 1 pixel: the collider's
    // right edge (position.x + 13 pixels) lands exactly on the wall
    // face at 40 pixels, before the quarter-pixel scroll compensation.
    assert_eq!(player.entity.velocity.x.raw, 0);
    assert_eq!(player.entity.position.x.raw, 26 * 256 + 256 - 64);
    assert!(player.entity.position.x.raw + 13 * 256 <= 40 * 256);
}

#[test]
fn scrolled_wall_still_clips_at_its_physical_face() {
    // A wall column at tile column 5 (40 level pixels), rows 8..14.
    let mut cells = Vec::new();
    for row in 8..14 {
        cells.push((0usize, 5usize, row));
    }
    let mut world = World::new(catalog_with(&cells));
    world.start();
    // With the world scrolled 8 pixels, the wall's physical face sits
    // at 32 pixels in entity coordinates.
    world.scroll = Num::new(8);
    let mut player = Player::new();
    player.entity.position = Vec2::new(Num::from_raw(4736), Num::new(80));
    player.entity.velocity = Vec2::new(Num::new(2), Num::zero());
    player.entity.update_position(&world);
    // The requested 2-pixel move is clipped to half a pixel so the
    // collider's right edge (position.x + 13 pixels) lands exactly on
    // the face; the scroll compensation then pulls the entity left by
    // this tick's scroll speed (71/256ths at a scroll of 8).
    assert_eq!(player.entity.velocity.x.raw, 0);
    assert_eq!(player.entity.position.x.raw, 4736 + 128 - 71);
    assert!(player.entity.position.x.raw + 13 * 256 <= 32 * 256);
}

#[test]
fn jump_reads_this_ticks_ground_probe() {
    let world = playing_world(&floor_cells(12));
    let mut player = Player::new();
    // A fresh player starts marked airborne; standing on the floor,
    // the very first tick's probe grounds the jump.
    player.entity.position = Vec2::of_units(20, 80);
    assert_eq!(player.ground_state, GroundState::Airborne);
    let mut clocks: Vec<Clock> = Vec::new();
    let mut timer = Timer::new();
    let jump = Input { jump_just_pressed: true, ..Input::released() };
    player.update(&world, &mut clocks, &mut timer, &jump);
    assert_eq!(player.entity.velocity.y.raw, -4 * 256);
}

#[test]
fn friction_decays_by_nine_tenths_then_snaps_to_zero() {
    let world = playing_world(&[]);
    let mut player = Player::new();
    player.entity.position = Vec2::of_units(100, 10);
    player.entity.velocity = Vec2::new(Num::new(2), Num::zero());
    let mut clocks: Vec<Clock> = Vec::new();
    let mut timer = Timer::new();
    let mut expected: i64 = 512;
    for _ in 0..40 {
        expected = (expected * 230) / 256;
        if expected.abs() < 16 {
            expected = 0;
        }
        player.update(&world, &mut clocks, &mut timer, &Input::released());
        assert_eq!(player.entity.velocity.x.raw as i64, expected);
        if expected == 0 {
            break;
        }
    }
    assert_eq!(expected, 0);
    // Zero is a fixed point: it stays exactly zero.
    player.update(&world, &mut clocks, &mut timer, &Input::released());
    assert_eq!(player.entity.velocity.x.raw, 0);
}

#[test]
fn jump_impulse_sets_minus_four_and_gravity_ramps_back() {
    let world = playing_world(&floor_cells(12));
    let mut player = Player::new();
    player.entity.position = Vec2::of_units(20, 80);
    let mut clocks: Vec<Clock> = Vec::new();
    let mut timer = Timer::new();
    // Settle on the ground first.
    player.update(&world, &mut clocks, &mut timer, &Input::released());
    assert_eq!(player.ground_state, GroundState::Grounded);
    let jump = Input { jump_just_pressed: true, ..Input::released() };
    player.update(&world, &mut clocks, &mut timer, &jump);
    assert_eq!(player.entity.velocity.y.raw, -4 * 256);
    // Airborne ticks add a quarter pixel per tick of fall speed.
    player.update(&world, &mut clocks, &mut timer, &Input::released());
    assert_eq!(player.ground_state, GroundState::Airborne);
    assert_eq!(player.entity.velocity.y.raw, -4 * 256 + 64);
    player.update(&world, &mut clocks, &mut timer, &Input::released());
    assert_eq!(player.entity.velocity.y.raw, -4 * 256 + 128);
}

#[test]
fn fall_speed_clamps_at_four_pixels_per_tick() {
    let world = playing_world(&[]);
    let mut player = Player::new();
    player.entity.position = Vec2::of_units(100, 0);
    let mut clocks: Vec<Clock> = Vec::new();
    let mut timer = Timer::new();
    // Twenty airborne ticks reach the clamp well before the fall
    // crosses the respawn line.
    for _ in 0..20 {
        player.update(&world, &mut clocks, &mut timer, &Input::released());
    }
    assert_eq!(player.entity.velocity.y.raw, 4 * 256);
}

#[test]
fn falling_off_the_world_respawns_at_the_origin() {
    let world = playing_world(&[]);
    let mut player = Player::new();
    player.entity.position = Vec2::of_units(50, 170);
    player.entity.velocity = Vec2::new(Num::new(1), Num::new(2));
    let mut clocks: Vec<Clock> = Vec::new();
    let mut timer = Timer::new();
    player.update(&world, &mut clocks, &mut timer, &Input::released());
    // The respawn zeroes position and velocity before this tick's
    // movement, so only this tick's fall and scroll remain.
    assert!(player.entity.position.y.raw <= 64);
    assert!(player.entity.position.x.raw == 0);
}

#[test]
fn clock_scrolled_off_left_is_destroyed() {
    let world = playing_world(&[]);
    let mut clock = Clock::new(Vec2::of_units(-20, 80));
    clock.state = ClockState::Active;
    clock.update(&world);
    assert_eq!(clock.state, ClockState::Destroy);
}

#[test]
fn incoming_clock_in_view_becomes_active_and_visible() {
    let world = playing_world(&[]);
    let mut clock = Clock::new(Vec2::of_units(100, 80));
    assert_eq!(clock.state, ClockState::Incoming);
    assert!(!clock.entity.visible);
    clock.update(&world);
    assert_eq!(clock.state, ClockState::Active);
    assert!(clock.entity.visible);
}

#[test]
fn active_clock_beyond_right_edge_parks_back_to_incoming() {
    let world = playing_world(&[]);
    let mut clock = Clock::new(Vec2::of_units(250, 80));
    clock.state = ClockState::Active;
    clock.entity.visible = true;
    clock.update(&world);
    assert_eq!(clock.state, ClockState::Incoming);
    assert!(!clock.entity.visible);
}

#[test]
fn pickup_starts_the_disappear_animation() {
    let mut clock = Clock::new(Vec2::of_units(100, 80));
    clock.disappear();
    assert_eq!(clock.state, ClockState::Disappearing);
    assert_eq!(clock.entity.frame, 0);
    assert_eq!(clock.entity.animation_speed, 6);
}

#[test]
fn disappearing_clock_is_destroyed_after_its_last_frame() {
    let world = playing_world(&[]);
    let mut clock = Clock::new(Vec2::of_units(100, 80));
    clock.update(&world);
    clock.disappear();
    let mut ticks = 0;
    while clock.state != ClockState::Destroy && ticks < 100 {
        clock.update(&world);
        ticks += 1;
    }
    assert_eq!(clock.state, ClockState::Destroy);
    assert!(!clock.entity.visible);
    // Six frames at six ticks per frame.
    assert_eq!(ticks, 36);
}

#[test]
fn timer_counts_down_and_shows_digits() {
    let mut timer = Timer::new();
    timer.reset();
    assert_eq!(timer.time, 3600);
    timer.update();
    assert_eq!(timer.time, 3599);
    // 3599 ticks = 59.98 seconds: the display reads 0:59.
    assert_eq!(timer.minute_digit, 0);
    assert_eq!(timer.tens_digit, 5);
    assert_eq!(timer.ones_digit, 9);
}

#[test]
fn timer_stops_at_zero_and_credits_pickups() {
    let mut timer = Timer::new();
    timer.update();
    assert_eq!(timer.time, 0);
    timer.add_time(1200);
    assert_eq!(timer.time, 1200);
}

#[test]
fn starting_a_session_resets_everything() {
    let mut game = Game::new(World::new(catalog_with(&floor_cells(12))));
    game.transition_to_state(GameState::Playing);
    assert_eq!(game.state, GameState::Playing);
    assert_eq!(game.world.scroll.raw, 0);
    assert_eq!(game.timer.time, 3600);
    assert!(game.timer.visible);
    assert_eq!(game.player.entity.position.x.raw, 64 * 256);
    assert_eq!(game.player.entity.position.y.raw, 104 * 256);
    assert!(game.player.entity.visible);
    assert!(!game.title_visible);
    assert!(!game.press_start_visible);
    assert!(!game.game_over_visible);
    // Slots 0, 1, 2 draw sections 0, 1, 2: no spawns, then (100, 80)
    // offset into slot 1, then (200, 60) offset into slot 2.
    assert_eq!(game.clocks.len(), 2);
    assert_eq!(game.clocks[0].position.x.raw, (100 - 8 + 512) * 256);
    assert_eq!(game.clocks[0].position.y.raw, (80 - 16) * 256);
    assert_eq!(game.clocks[1].position.x.raw, (200 - 8 + 1024) * 256);
    assert_eq!(game.clocks[1].position.y.raw, (60 - 16) * 256);
}

#[test]
fn restarting_a_session_reproduces_the_same_spawns() {
    let mut game = Game::new(World::new(catalog_with(&floor_cells(12))));
    game.transition_to_state(GameState::Playing);
    let first: Vec<(i32, i32)> = game
        .clocks
        .iter()
        .map(|c| (c.position.x.raw, c.position.y.raw))
        .collect();
    game.transition_to_state(GameState::Start);
    game.transition_to_state(GameState::Playing);
    let second: Vec<(i32, i32)> = game
        .clocks
        .iter()
        .map(|c| (c.position.x.raw, c.position.y.raw))
        .collect();
    assert_eq!(first, second);
    assert_eq!(game.world.scroll.raw, 0);
}

#[test]
fn title_screen_waits_for_a_press() {
    let mut game = Game::new(World::new(catalog_with(&[])));
    game.transition_to_state(GameState::Start);
    assert!(game.title_visible);
    assert!(game.press_start_visible);
    game.update(&Input::released());
    assert_eq!(game.state, GameState::Start);
    let press = Input { start_just_pressed: true, ..Input::released() };
    game.update(&press);
    assert_eq!(game.state, GameState::Intro);
    game.update(&Input::released());
    assert_eq!(game.state, GameState::Playing);
}

#[test]
fn game_over_returns_to_the_title() {
    let mut game = Game::new(World::new(catalog_with(&[])));
    game.transition_to_state(GameState::Playing);
    game.transition_to_state(GameState::GameOver);
    assert!(game.game_over_visible);
    assert!(!game.player.entity.visible);
    game.update(&Input::released());
    // The return to the title applies the Start entry effects: timer
    // hidden, procedural world torn down, title overlays shown.
    assert_eq!(game.state, GameState::Start);
    assert!(!game.timer.visible);
    assert!(game.world.section_generator.is_none());
    assert!(game.title_visible);
    assert!(game.press_start_visible);
}

#[test]
fn playing_tick_scrolls_and_counts_down() {
    let mut game = Game::new(World::new(catalog_with(&floor_cells(12))));
    game.transition_to_state(GameState::Playing);
    game.update(&Input::released());
    assert_eq!(game.world.scroll.raw, 64);
    assert_eq!(game.timer.time, 3599);
}

#[test]
fn overlapping_active_clock_is_picked_up_and_credits_time() {
    let mut game = Game::new(World::new(catalog_with(&[])));
    game.transition_to_state(GameState::Playing);
    game.clocks.clear();
    let mut clock = Clock::new(Vec2::of_units(64, 104));
    clock.state = ClockState::Active;
    game.clocks.push(clock);
    game.update(&Input::released());
    assert_eq!(game.clocks.len(), 1);
    assert_eq!(game.clocks[0].state, ClockState::Disappearing);
    // 3600 from the reset, plus the 1200-tick grant, minus this tick.
    assert_eq!(game.timer.time, 3600 + 1200 - 1);
}

#[test]
fn destroyed_clocks_are_compacted_away() {
    let mut game = Game::new(World::new(catalog_with(&[])));
    game.transition_to_state(GameState::Playing);
    game.clocks.clear();
    let mut gone = Clock::new(Vec2::of_units(-30, 80));
    gone.state = ClockState::Active;
    game.clocks.push(gone);
    game.clocks.push(Clock::new(Vec2::of_units(150, 80)));
    game.update(&Input::released());
    assert_eq!(game.clocks.len(), 1);
    assert_eq!(game.clocks[0].position.x.raw, 150 * 256);
}

#[test]
fn catalog_rejects_inconsistent_tables() {
    assert!(Catalog::new(vec![32; 100], vec![vec![0; 2048], vec![0; 2048]], vec![0, 1], vec![
        vec![],
        vec![]
    ])
    .is_none());
    assert!(Catalog::new(vec![32; 2048], vec![vec![0; 2048]], vec![0, 1], vec![vec![]]).is_none());
    assert!(Catalog::new(
        vec![32; 2048],
        vec![vec![9; 2048], vec![0; 2048]],
        vec![0, 1],
        vec![vec![], vec![]]
    )
    .is_none());
}

#[test]
fn rendering_window_reads_the_chosen_sections() {
    let world = playing_world(&[(1, 3, 10)]);
    // Slot 1 shows section 1: its solid tile id appears at tile column
    // 64 + 3; slot 0 shows the empty safe section.
    assert_eq!(world.render_section_tile(64 + 3, 10), 1);
    assert_eq!(world.render_section_tile(3, 10), 0);
    // Rows below the catalog show the empty tile.
    assert_eq!(world.render_section_tile(3, 40), 32);
    assert_eq!(world.catalog.background_tile_at(5, 40), 32);
    assert_eq!(world.catalog.background_tile_at(5, 3), 32);
}

#[test]
fn renderer_getters_report_pixels_facing_and_frame() {
    let mut player = Player::new();
    player.entity.position = Vec2::new(Num::from_raw(300), Num::from_raw(-300));
    assert_eq!(player.entity.pixel_position(), (1, -2));
    assert!(!player.entity.hflip());
    player.entity.direction = platformer_core::entity::Direction::Left;
    assert!(player.entity.hflip());
    player.entity.frame = 6;
    assert_eq!(player.entity.sprite_frame(), 2);
}
