//! End-to-end checks of the simulation core on concrete worlds: physics,
//! animation, spawning, scrolling, and the death reset.

use flappy_core::timer::RepeatTimer;
use flappy_core::world::{Background, Pipe, PipeRole, Player, World};

/// A world in the start state but with the player at the given vertical
/// coordinate (tenths of a unit), carrying the given pipes.
fn world_at(y: i64, pipes: Vec<Pipe>) -> World {
    let mut w = World::new();
    w.player.y = y;
    w.pipes = pipes;
    w
}

#[test]
fn new_world_matches_start_state() {
    let w = World::new();
    assert_eq!(w.player.x, 0);
    assert_eq!(w.player.y, 0);
    assert_eq!(w.player.frame, 0);
    assert_eq!(w.player.frame_first, 0);
    assert_eq!(w.player.frame_last, 2);
    assert_eq!(w.player.anim_timer.interval_ms, 100);
    assert_eq!(w.player.anim_timer.elapsed_ms, 0);
    assert_eq!(w.spawn_timer.interval_ms, 1000);
    assert_eq!(w.spawn_timer.elapsed_ms, 0);
    assert_eq!(w.pipes.len(), 0);
    assert_eq!(w.background.x, 0);
    assert_eq!(w.background.y, 0);
}

#[test]
fn flap_tick_ascends_by_impulse_minus_gravity() {
    // From y = 70.0, one flap tick lands on 70.0 + (4.0 - 2.1) = 71.9.
    let mut w = world_at(700, Vec::new());
    w.tick_with_draw(true, 16, 0);
    assert_eq!(w.player.y, 719);
    assert_eq!(w.player.y as f64 / 10.0, 71.9);
}

#[test]
fn idle_tick_descends_by_gravity() {
    let mut w = world_at(700, Vec::new());
    w.tick_with_draw(false, 16, 0);
    assert_eq!(w.player.y, 679);
    // Strict descent continues tick after tick while idle.
    w.tick_with_draw(false, 16, 0);
    assert_eq!(w.player.y, 658);
}

#[test]
fn animation_advances_one_step_per_completed_interval() {
    let mut w = World::new();
    w.player.y = 700;
    w.animation_step(true, 100);
    assert_eq!(w.player.frame, 1);
    w.animation_step(true, 100);
    assert_eq!(w.player.frame, 2);
    // Wraparound: from `last` back to `first`.
    w.animation_step(true, 100);
    assert_eq!(w.player.frame, 0);
    // A partial interval does not advance the frame.
    w.animation_step(true, 40);
    assert_eq!(w.player.frame, 0);
    assert_eq!(w.player.anim_timer.elapsed_ms, 40);
    // The remainder accumulates across ticks: 40 + 60 completes an interval.
    w.animation_step(true, 60);
    assert_eq!(w.player.frame, 1);
    assert_eq!(w.player.anim_timer.elapsed_ms, 0);
}

#[test]
fn animation_never_advances_while_idle() {
    let mut w = World::new();
    w.animation_step(false, 100);
    w.animation_step(false, 1000);
    assert_eq!(w.player.frame, 0);
    // The animation timer itself only runs while the flap signal is active.
    assert_eq!(w.player.anim_timer.elapsed_ms, 0);
}

#[test]
fn frame_stays_in_bounds_over_many_ticks() {
    let mut w = World::new();
    w.player.y = 100_000;
    for _ in 0..50 {
        w.tick_with_draw(true, 100, 500);
        assert!(w.player.frame >= w.player.frame_first);
        assert!(w.player.frame <= w.player.frame_last);
    }
}

#[test]
fn spawn_timer_fires_when_elapsed_sums_to_interval() {
    // Interval 1.0 s; ticks of 0.4 s and 0.6 s sum to it exactly.
    let mut w = World::new();
    let fired = w.spawn_step(400, 123);
    assert!(!fired);
    assert_eq!(w.pipes.len(), 0);
    let fired = w.spawn_step(600, 123);
    assert!(fired);
    assert_eq!(w.pipes.len(), 2);
    // Exactly one top/bottom pair, both at the spawn coordinate.
    assert_eq!(w.pipes[0].x, 1600);
    assert_eq!(w.pipes[1].x, 1600);
    assert_eq!(w.pipes[0].role, PipeRole::Top);
    assert_eq!(w.pipes[1].role, PipeRole::Bottom);
    assert_eq!(w.pipes[0].y, 2200 + 123);
    assert_eq!(w.pipes[1].y, -2000 + 123);
}

#[test]
fn spawn_gap_is_constant_for_any_draw() {
    for draw in [0u64, 1, 499, 999] {
        let mut w = World::new();
        let fired = w.spawn_step(1000, draw);
        assert!(fired);
        assert_eq!(w.pipes.len(), 2);
        assert_eq!(w.pipes[0].x, w.pipes[1].x);
        assert_eq!(w.pipes[0].y - w.pipes[1].y, 4200);
    }
}

#[test]
fn pipes_scroll_left_strictly_each_tick() {
    let pipes = vec![
        Pipe { x: 1600, y: 2500, role: PipeRole::Top },
        Pipe { x: 1600, y: -1900, role: PipeRole::Bottom },
    ];
    let mut w = world_at(700, pipes);
    let mut last_x: i64 = w.pipes[0].x;
    for _ in 0..5 {
        w.scroll_step();
        assert_eq!(w.pipes.len(), 2);
        assert_eq!(w.pipes[0].x, last_x - 10);
        assert_eq!(w.pipes[1].x, w.pipes[0].x);
        assert!(w.pipes[0].x >= -1700);
        last_x = w.pipes[0].x;
    }
}

#[test]
fn pipe_removed_first_tick_it_crosses_exit() {
    // At x = -168.9 a scroll step of 1.0 lands on -169.9, still at or above
    // the exit threshold -170.0; the next step lands on -170.9 and removes it.
    let pipes = vec![Pipe { x: -1689, y: 2500, role: PipeRole::Top }];
    let mut w = world_at(700, pipes);
    w.scroll_step();
    assert_eq!(w.pipes.len(), 1);
    assert_eq!(w.pipes[0].x, -1699);
    w.scroll_step();
    assert_eq!(w.pipes.len(), 0);
}

#[test]
fn pipe_exactly_on_exit_is_kept() {
    // A step landing exactly on the threshold does not remove the pipe.
    let pipes = vec![Pipe { x: -1690, y: 2500, role: PipeRole::Top }];
    let mut w = world_at(700, pipes);
    w.scroll_step();
    assert_eq!(w.pipes.len(), 1);
    assert_eq!(w.pipes[0].x, -1700);
}

#[test]
fn death_reset_restores_player_and_clears_pipes() {
    // Player at y = -241.0, below the death threshold -240.0, with two
    // pipes: the tick ends with the player at 70.0 and no pipes.
    let pipes = vec![
        Pipe { x: 100, y: 2500, role: PipeRole::Top },
        Pipe { x: 100, y: -1900, role: PipeRole::Bottom },
    ];
    let mut w = world_at(-2410, pipes);
    w.tick_with_draw(false, 16, 0);
    assert_eq!(w.player.y, 700);
    assert_eq!(w.player.y as f64 / 10.0, 70.0);
    assert_eq!(w.pipes.len(), 0);
}

#[test]
fn tick_just_above_death_does_not_reset() {
    // From y = -237.9 an idle tick lands exactly on the threshold -240.0,
    // which is not below it: no reset.
    let mut w = world_at(-2379, Vec::new());
    w.tick_with_draw(false, 16, 0);
    assert_eq!(w.player.y, -2400);
    // One more idle tick falls below and resets.
    w.tick_with_draw(false, 16, 0);
    assert_eq!(w.player.y, 700);
}

#[test]
fn spawned_pair_is_scrolled_within_its_first_tick() {
    // A whole tick whose elapsed time completes the spawn interval: the new
    // pair enters at x = 160.0 and the same tick's scroll moves it to 159.0.
    let mut w = world_at(700, Vec::new());
    w.tick_with_draw(false, 1000, 250);
    assert_eq!(w.pipes.len(), 2);
    assert_eq!(w.pipes[0].x, 1590);
    assert_eq!(w.pipes[1].x, 1590);
    assert_eq!(w.pipes[0].y - w.pipes[1].y, 4200);
}

#[test]
fn random_tick_spawns_pair_with_draw_in_range() {
    // The spawn draw comes from the real random generator: whatever it was,
    // the pair's offsets stay inside the band a draw in [0, 1000) allows.
    let mut w = world_at(700, Vec::new());
    w.tick(false, 1000);
    assert_eq!(w.pipes.len(), 2);
    assert_eq!(w.pipes[0].x, 1590);
    assert_eq!(w.pipes[1].x, 1590);
    assert!(w.pipes[0].y >= 2200 && w.pipes[0].y < 3200);
    assert!(w.pipes[1].y >= -2000 && w.pipes[1].y < -1000);
    assert_eq!(w.pipes[0].y - w.pipes[1].y, 4200);
}

#[test]
fn pipes_stay_in_pairs_across_ticks() {
    // Long run with real random draws: the store always holds whole
    // top/bottom pairs at the same x, with the constant gap, even across
    // spawns, removals and death resets.
    let mut w = World::new();
    w.player.y = 100_000;
    for _ in 0..400 {
        w.tick(false, 100);
        assert_eq!(w.pipes.len() % 2, 0);
        let mut k: usize = 0;
        while k + 1 < w.pipes.len() {
            assert_eq!(w.pipes[k].role, PipeRole::Top);
            assert_eq!(w.pipes[k + 1].role, PipeRole::Bottom);
            assert_eq!(w.pipes[k].x, w.pipes[k + 1].x);
            assert_eq!(w.pipes[k].y - w.pipes[k + 1].y, 4200);
            k += 2;
        }
    }
}

#[test]
fn timer_carries_remainder_across_firings() {
    let mut t = RepeatTimer::new(100);
    assert!(!t.tick(40));
    assert!(!t.tick(40));
    assert!(t.tick(40));
    assert_eq!(t.elapsed_ms, 20);
    assert!(t.tick(250));
    assert_eq!(t.elapsed_ms, 70);
    assert_eq!(t.interval_ms, 100);
}

#[test]
fn world_fields_compose_directly() {
    // The store is plain data: a world can be assembled field by field.
    let w = World {
        player: Player {
            x: 0,
            y: 500,
            frame: 1,
            frame_first: 0,
            frame_last: 2,
            anim_timer: RepeatTimer::new(100),
        },
        pipes: vec![Pipe { x: 800, y: 2300, role: PipeRole::Top }],
        background: Background { x: 0, y: 0 },
        spawn_timer: RepeatTimer::new(1000),
    };
    assert_eq!(w.player.y, 500);
    assert_eq!(w.pipes[0].x, 800);
}
