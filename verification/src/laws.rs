//! The general laws of the simulation, each proved once and for all over the
//! spec-level world model that the exec systems are proved to realise.

use vstd::prelude::*;

use crate::systems::{
    animation_after, collision_after, frame_next, physics_after, physics_y, scroll_after,
    scroll_pipe, scrolled_pipes, spawn_after, spawned_bottom, spawned_top, tick_model,
};
use crate::timer::{timer_after, timer_fires};
use crate::world::{
    pair_at, paired, PipeModel, WorldModel, DRAW_BOUND, FLAP_IMPULSE, GRAVITY_DROP, PIPE_GAP,
    SCROLL_STEP, X_EXIT, X_SPAWN, Y_DEATH, Y_RESPAWN,
};

verus! {

/// Law: a scroll step keeps no pipe below `X_EXIT`; every surviving pipe is
/// some old pipe shifted left by exactly `SCROLL_STEP`, so its x strictly
/// decreased; and every old pipe that stays at or above `X_EXIT` after the
/// shift does survive.
pub proof fn lemma_scroll_step(pipes: Seq<PipeModel>)
    ensures
        forall|j: int|
            0 <= j < scrolled_pipes(pipes).len() ==> (#[trigger] scrolled_pipes(pipes)[j]).x
                >= X_EXIT,
        forall|j: int|
            0 <= j < scrolled_pipes(pipes).len() ==> exists|i: int|
                0 <= i < pipes.len() && #[trigger] scrolled_pipes(pipes)[j] == scroll_pipe(
                    pipes[i],
                ),
        forall|i: int|
            0 <= i < pipes.len() && (#[trigger] pipes[i]).x - SCROLL_STEP >= X_EXIT
                ==> scrolled_pipes(pipes).contains(scroll_pipe(pipes[i])),
    decreases pipes.len(),
{
    if pipes.len() > 0 {
        let prefix = pipes.drop_last();
        let scrolled = scrolled_pipes(pipes);
        let p = scroll_pipe(pipes.last());
        lemma_scroll_step(prefix);
        assert forall|j: int|
            0 <= j < scrolled.len() implies exists|i: int|
            0 <= i < pipes.len() && #[trigger] scrolled[j] == scroll_pipe(pipes[i]) by {
            if j < scrolled_pipes(prefix).len() {
                assert(scrolled[j] == scrolled_pipes(prefix)[j]);
                let i = choose|i: int|
                    0 <= i < prefix.len() && scrolled_pipes(prefix)[j] == scroll_pipe(prefix[i]);
                assert(prefix[i] == pipes[i]);
                assert(scrolled[j] == scroll_pipe(pipes[i]));
            } else {
                assert(scrolled[j] == p);
                assert(scrolled[j] == scroll_pipe(pipes[pipes.len() - 1]));
            }
        }
        assert forall|i: int|
            0 <= i < pipes.len() && (#[trigger] pipes[i]).x - SCROLL_STEP >= X_EXIT implies
            scrolled.contains(scroll_pipe(pipes[i])) by {
            if i < pipes.len() - 1 {
                assert(prefix[i] == pipes[i]);
                assert(scrolled_pipes(prefix).contains(scroll_pipe(prefix[i])));
                let k = choose|k: int|
                    0 <= k < scrolled_pipes(prefix).len() && scrolled_pipes(prefix)[k]
                        == scroll_pipe(prefix[i]);
                assert(scrolled[k] == scroll_pipe(pipes[i]));
            } else {
                assert(scrolled[scrolled.len() - 1] == scroll_pipe(pipes[i]));
            }
        }
    }
}

/// A scroll step keeps every pipe well formed.
pub proof fn lemma_scrolled_pipes_wf(pipes: Seq<PipeModel>)
    requires
        forall|i: int| 0 <= i < pipes.len() ==> (#[trigger] pipes[i]).wf(),
    ensures
        forall|j: int|
            0 <= j < scrolled_pipes(pipes).len() ==> (#[trigger] scrolled_pipes(pipes)[j]).wf(),
    decreases pipes.len(),
{
    if pipes.len() > 0 {
        let prefix = pipes.drop_last();
        assert(forall|i: int| 0 <= i < prefix.len() ==> prefix[i] == #[trigger] pipes[i]);
        lemma_scrolled_pipes_wf(prefix);
        let p = scroll_pipe(pipes.last());
        assert(pipes.last().wf());
        assert forall|j: int|
            0 <= j < scrolled_pipes(pipes).len() implies (
        #[trigger] scrolled_pipes(pipes)[j]).wf() by {
            if j < scrolled_pipes(prefix).len() {
                assert(scrolled_pipes(pipes)[j] == scrolled_pipes(prefix)[j]);
            } else {
                assert(scrolled_pipes(pipes)[j] == p);
            }
        }
    }
}

/// Law (invariant preservation): a whole tick keeps the world well formed —
/// the frame index stays in its bounds, both timers stay well formed, and
/// every surviving pipe is well formed, in particular at or above `X_EXIT`
/// — and however the tick went, it ends with the player at or above
/// `Y_DEATH`.
pub proof fn lemma_tick_preserves_wf(w: WorldModel, flap: bool, delta: int, draw: int)
    requires
        w.wf(),
        0 <= delta,
        0 <= draw < DRAW_BOUND,
    ensures
        tick_model(w, flap, delta, draw).wf(),
        tick_model(w, flap, delta, draw).player.y >= Y_DEATH,
{
    let w1 = physics_after(w, flap);
    let w2 = animation_after(w1, flap, delta);
    let w3 = spawn_after(w2, delta, draw);
    let w4 = scroll_after(w3);
    let w5 = collision_after(w4);
    assert(w2.player.wf());
    assert(w3.spawn.wf());
    assert(spawned_top(draw).wf());
    assert(spawned_bottom(draw).wf());
    assert forall|i: int| 0 <= i < w3.pipes.len() implies (#[trigger] w3.pipes[i]).wf() by {
        if i < w.pipes.len() {
            assert(w3.pipes[i] == w.pipes[i]);
        }
    }
    lemma_scrolled_pipes_wf(w3.pipes);
    if w4.player.y < Y_DEATH {
        assert(w5.player.y == Y_RESPAWN);
    }
    assert(w5.wf());
}

/// Law: on a tick with the flap signal inactive, the player's vertical
/// position strictly decreases, by exactly the gravity drop — stated for
/// ticks that do not cross the death threshold; a tick that does ends at
/// `Y_RESPAWN` instead (see `lemma_death_reset`).
pub proof fn lemma_gravity_descent(w: WorldModel, delta: int, draw: int)
    requires
        w.wf(),
        0 <= delta,
        0 <= draw < DRAW_BOUND,
        physics_y(w.player.y, false) >= Y_DEATH,
    ensures
        tick_model(w, false, delta, draw).player.y == w.player.y - GRAVITY_DROP,
        tick_model(w, false, delta, draw).player.y < w.player.y,
{
}

/// Law: on a tick with the flap signal active, the player's vertical
/// position changes by exactly the flap impulse minus the gravity drop, a
/// strict net ascent — stated for ticks that do not cross the death
/// threshold; a tick that does ends at `Y_RESPAWN` instead (see
/// `lemma_death_reset`).
pub proof fn lemma_flap_ascent(w: WorldModel, delta: int, draw: int)
    requires
        w.wf(),
        0 <= delta,
        0 <= draw < DRAW_BOUND,
        physics_y(w.player.y, true) >= Y_DEATH,
    ensures
        tick_model(w, true, delta, draw).player.y == w.player.y + (FLAP_IMPULSE - GRAVITY_DROP),
        tick_model(w, true, delta, draw).player.y > w.player.y,
{
}

/// Law: over a whole tick the animation frame index stays within its bounds;
/// it advances by exactly one step, wrapping from `last` to `first`, when
/// the flap signal is active and the animation timer completes an interval,
/// and is unchanged otherwise — in particular it never advances while the
/// flap signal is inactive.
pub proof fn lemma_animation_frame(w: WorldModel, flap: bool, delta: int, draw: int)
    requires
        w.wf(),
        0 <= delta,
        0 <= draw < DRAW_BOUND,
    ensures
        w.player.frame_first <= tick_model(w, flap, delta, draw).player.frame
            <= w.player.frame_last,
        flap && timer_fires(w.player.anim, delta) ==> tick_model(w, flap, delta, draw).player.frame
            == frame_next(w.player.frame, w.player.frame_first, w.player.frame_last),
        !(flap && timer_fires(w.player.anim, delta)) ==> tick_model(
            w,
            flap,
            delta,
            draw,
        ).player.frame == w.player.frame,
{
}

/// Law: the spawn stage always advances the spawn timer by the elapsed time
/// and never changes its interval, so it fires at fixed intervals; each
/// firing appends exactly one top/bottom pipe pair, both at `X_SPAWN`, whose
/// vertical offsets differ by the constant `PIPE_GAP` whatever the draw; a
/// stage in which the timer does not fire leaves the pipes unchanged.
pub proof fn lemma_spawn_pair(w: WorldModel, delta: int, draw: int)
    requires
        0 <= draw < DRAW_BOUND,
    ensures
        spawn_after(w, delta, draw).spawn == timer_after(w.spawn, delta),
        spawn_after(w, delta, draw).spawn.interval == w.spawn.interval,
        timer_fires(w.spawn, delta) ==> spawn_after(w, delta, draw).pipes == w.pipes.push(
            spawned_top(draw),
        ).push(spawned_bottom(draw)),
        !timer_fires(w.spawn, delta) ==> spawn_after(w, delta, draw).pipes == w.pipes,
        spawned_top(draw).x == X_SPAWN && spawned_bottom(draw).x == X_SPAWN,
        spawned_top(draw).y - spawned_bottom(draw).y == PIPE_GAP,
{
}

/// Law: when the physics of a tick takes the player below `Y_DEATH`, that
/// same tick ends with the player at `Y_RESPAWN` and no pipe left in the
/// store.
pub proof fn lemma_death_reset(w: WorldModel, flap: bool, delta: int, draw: int)
    requires
        w.wf(),
        0 <= delta,
        0 <= draw < DRAW_BOUND,
        physics_y(w.player.y, flap) < Y_DEATH,
    ensures
        tick_model(w, flap, delta, draw).player.y == Y_RESPAWN,
        tick_model(w, flap, delta, draw).pipes.len() == 0,
{
}

/// Appending one top/bottom pair to a paired pipe store keeps it paired.
proof fn lemma_paired_push_pair(pipes: Seq<PipeModel>, top: PipeModel, bottom: PipeModel)
    requires
        paired(pipes),
        top.role is Top,
        bottom.role is Bottom,
        top.x == bottom.x,
        top.y - bottom.y == PIPE_GAP,
    ensures
        paired(pipes.push(top).push(bottom)),
{
    let res = pipes.push(top).push(bottom);
    assert forall|i: int| 0 <= i < res.len() && i % 2 == 0 implies pair_at(res, i) by {
        if i < pipes.len() {
            assert(pair_at(pipes, i));
            assert(res[i] == pipes.push(top)[i]);
            assert(res[i] == pipes[i]);
            assert(res[i + 1] == pipes.push(top)[i + 1]);
            assert(res[i + 1] == pipes[i + 1]);
        } else {
            assert(i == pipes.len());
            assert(res[i] == pipes.push(top)[i]);
            assert(res[i] == top);
            assert(res[i + 1] == bottom);
        }
    }
}

/// A scroll step keeps a paired pipe store paired: the two pipes of a pair
/// share their x-coordinate, so a step removes either both or neither.
proof fn lemma_scrolled_pipes_paired(pipes: Seq<PipeModel>)
    requires
        paired(pipes),
    ensures
        paired(scrolled_pipes(pipes)),
    decreases pipes.len(),
{
    if pipes.len() > 0 {
        let n = pipes.len() as int;
        assert(pair_at(pipes, n - 2));
        let a = pipes[n - 2];
        let b = pipes[n - 1];
        let prefix = pipes.take(n - 2);
        assert(paired(prefix)) by {
            assert forall|i: int| 0 <= i < prefix.len() && i % 2 == 0 implies pair_at(
                prefix,
                i,
            ) by {
                assert(pair_at(pipes, i));
                assert(prefix[i] == pipes[i]);
                assert(prefix[i + 1] == pipes[i + 1]);
            }
        }
        lemma_scrolled_pipes_paired(prefix);
        let d1 = pipes.drop_last();
        assert(d1.drop_last() =~= prefix);
        assert(d1.last() == a);
        assert(pipes.last() == b);
        let sp = scrolled_pipes(prefix);
        let a2 = scroll_pipe(a);
        let b2 = scroll_pipe(b);
        assert(a2.x == b2.x);
        if b2.x >= X_EXIT {
            assert(scrolled_pipes(d1) == sp.push(a2));
            assert(scrolled_pipes(pipes) == sp.push(a2).push(b2));
            lemma_paired_push_pair(sp, a2, b2);
        } else {
            assert(scrolled_pipes(d1) == sp);
            assert(scrolled_pipes(pipes) == sp);
        }
    }
}

/// Law (invariant preservation): a whole tick keeps the pipe store made of
/// top/bottom pairs spawned together — pipes come in twos at the same
/// x-coordinate, separated by the fixed vertical gap.
pub proof fn lemma_tick_preserves_pairs(w: WorldModel, flap: bool, delta: int, draw: int)
    requires
        paired(w.pipes),
    ensures
        paired(tick_model(w, flap, delta, draw).pipes),
{
    let w2 = animation_after(physics_after(w, flap), flap, delta);
    let w3 = spawn_after(w2, delta, draw);
    assert(w2.pipes == w.pipes);
    if timer_fires(w2.spawn, delta) {
        lemma_paired_push_pair(w.pipes, spawned_top(draw), spawned_bottom(draw));
    }
    assert(paired(w3.pipes));
    lemma_scrolled_pipes_paired(w3.pipes);
}

} // verus!

