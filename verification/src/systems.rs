//! The per-tick systems, in their fixed order: physics, animation, spawning,
//! scrolling, collision. Each exec method is proved to realise the matching
//! spec-level transition on the world model, and `tick_with_draw` composes
//! all five into one deterministic world step.

use vstd::prelude::*;

use crate::random::random_spawn_draw;
use crate::timer::{timer_after, timer_fires};
use crate::world::{
    pipes_view, Pipe, PipeModel, PipeRole, PlayerModel, World, WorldModel, BOTTOM_PIPE_BASE,
    DRAW_BOUND, FLAP_IMPULSE, GRAVITY_DROP, SCROLL_STEP, TOP_PIPE_BASE, X_EXIT, X_SPAWN, Y_DEATH,
    Y_RESPAWN,
};

verus! {

/// The player's vertical coordinate after one physics update: the flap
/// impulse (if the flap signal is active) and then the gravity drop. No
/// velocity is retained between ticks; this is a positional integrator.
pub open spec fn physics_y(y: int, flap: bool) -> int {
    if flap {
        y + FLAP_IMPULSE - GRAVITY_DROP
    } else {
        y - GRAVITY_DROP
    }
}

/// The world after the physics system: only the player's y changes.
pub open spec fn physics_after(w: WorldModel, flap: bool) -> WorldModel {
    WorldModel { player: PlayerModel { y: physics_y(w.player.y, flap), ..w.player }, ..w }
}

/// The next animation frame index: one step forward, wrapping from `last`
/// back to `first`.
pub open spec fn frame_next(frame: int, first: int, last: int) -> int {
    if frame == last {
        first
    } else {
        frame + 1
    }
}

/// The world after the animation system: while the flap signal is active the
/// animation timer advances, and on each completed interval the frame index
/// moves one step (with wraparound); an idle player does not animate.
pub open spec fn animation_after(w: WorldModel, flap: bool, delta: int) -> WorldModel {
    if flap {
        let fired = timer_fires(w.player.anim, delta);
        WorldModel {
            player: PlayerModel {
                frame: if fired {
                    frame_next(w.player.frame, w.player.frame_first, w.player.frame_last)
                } else {
                    w.player.frame
                },
                anim: timer_after(w.player.anim, delta),
                ..w.player
            },
            ..w
        }
    } else {
        w
    }
}

/// The top pipe of a pair spawned with the given draw.
pub open spec fn spawned_top(draw: int) -> PipeModel {
    PipeModel { x: X_SPAWN as int, y: TOP_PIPE_BASE + draw, role: PipeRole::Top }
}

/// The bottom pipe of a pair spawned with the given draw.
pub open spec fn spawned_bottom(draw: int) -> PipeModel {
    PipeModel { x: X_SPAWN as int, y: BOTTOM_PIPE_BASE + draw, role: PipeRole::Bottom }
}

/// The world after the spawn system: the spawn timer always advances; when
/// it completes an interval, exactly one top/bottom pipe pair enters the
/// store, both at `X_SPAWN`, shifted vertically by the same draw.
pub open spec fn spawn_after(w: WorldModel, delta: int, draw: int) -> WorldModel {
    WorldModel {
        pipes: if timer_fires(w.spawn, delta) {
            w.pipes.push(spawned_top(draw)).push(spawned_bottom(draw))
        } else {
            w.pipes
        },
        spawn: timer_after(w.spawn, delta),
        ..w
    }
}

/// One pipe after one scroll step: shifted left by `SCROLL_STEP`.
pub open spec fn scroll_pipe(p: PipeModel) -> PipeModel {
    PipeModel { x: p.x - SCROLL_STEP, ..p }
}

/// A pipe sequence after the scroll system: every pipe shifts left by
/// `SCROLL_STEP`, and any pipe that thereby falls below `X_EXIT` is removed
/// in the same step; the order of the survivors is kept.
pub open spec fn scrolled_pipes(pipes: Seq<PipeModel>) -> Seq<PipeModel>
    decreases pipes.len(),
{
    if pipes.len() == 0 {
        Seq::empty()
    } else {
        let rest = scrolled_pipes(pipes.drop_last());
        let p = scroll_pipe(pipes.last());
        if p.x >= X_EXIT {
            rest.push(p)
        } else {
            rest
        }
    }
}

/// The world after the scroll system: only the pipes change.
pub open spec fn scroll_after(w: WorldModel) -> WorldModel {
    WorldModel { pipes: scrolled_pipes(w.pipes), ..w }
}

/// The world after the collision system: if the player has fallen below
/// `Y_DEATH`, it respawns at `Y_RESPAWN` (no horizontal reset) and every
/// pipe is removed; otherwise nothing changes.
pub open spec fn collision_after(w: WorldModel) -> WorldModel {
    if w.player.y < Y_DEATH {
        WorldModel {
            player: PlayerModel { y: Y_RESPAWN as int, ..w.player },
            pipes: Seq::empty(),
            ..w
        }
    } else {
        w
    }
}

/// One whole tick: the five systems in their fixed order.
pub open spec fn tick_model(w: WorldModel, flap: bool, delta: int, draw: int) -> WorldModel {
    collision_after(scroll_after(spawn_after(animation_after(physics_after(w, flap), flap, delta), delta, draw)))
}

/// The scrolled copy of a pipe vector, dropping pipes that fall below
/// `X_EXIT`.
fn scrolled(pipes: &Vec<Pipe>) -> (out: Vec<Pipe>)
    requires
        forall|i: int|
            0 <= i < pipes@.len() ==> (#[trigger] pipes@[i]).x >= i64::MIN + SCROLL_STEP,
    ensures
        pipes_view(out@) == scrolled_pipes(pipes_view(pipes@)),
{
    let mut out: Vec<Pipe> = Vec::new();
    let mut i: usize = 0;
    proof {
        assert(pipes_view(out@) =~= scrolled_pipes(pipes_view(pipes@).subrange(0, 0)));
    }
    while i < pipes.len()
        invariant
            i <= pipes@.len(),
            forall|k: int|
                0 <= k < pipes@.len() ==> (#[trigger] pipes@[k]).x >= i64::MIN + SCROLL_STEP,
            pipes_view(out@) == scrolled_pipes(pipes_view(pipes@).subrange(0, i as int)),
        decreases pipes@.len() - i,
    {
        let p = pipes[i];
        let moved = Pipe { x: p.x - SCROLL_STEP, y: p.y, role: p.role };
        if moved.x >= X_EXIT {
            out.push(moved);
        }
        proof {
            let pv = pipes_view(pipes@);
            assert(pv.subrange(0, i + 1).drop_last() =~= pv.subrange(0, i as int));
            assert(pv.subrange(0, i + 1).last() == pv[i as int]);
            assert(moved@ == scroll_pipe(pv[i as int]));
            assert(pipes_view(out@) =~= scrolled_pipes(pv.subrange(0, i + 1)));
        }
        i = i + 1;
    }
    proof {
        assert(pipes_view(pipes@).subrange(0, pipes@.len() as int) =~= pipes_view(pipes@));
    }
    out
}

impl World {
    /// PhysicsSystem: apply the flap impulse (if active) and the gravity
    /// drop to the player's vertical coordinate.
    pub fn physics_step(&mut self, flap: bool)
        requires
            old(self).player.y <= i64::MAX - FLAP_IMPULSE,
            old(self).player.y >= i64::MIN + GRAVITY_DROP,
        ensures
            final(self)@ == physics_after(old(self)@, flap),
    {
        if flap {
            self.player.y = self.player.y + FLAP_IMPULSE;
        }
        self.player.y = self.player.y - GRAVITY_DROP;
        proof {
            assert(self@ =~= physics_after(old(self)@, flap));
        }
    }

    /// AnimationSystem: while the flap signal is active, advance the
    /// animation timer and step the frame index on each completed interval.
    pub fn animation_step(&mut self, flap: bool, delta_ms: u64)
        requires
            old(self).player@.wf(),
            delta_ms <= u64::MAX - old(self).player.anim_timer.interval_ms,
        ensures
            final(self)@ == animation_after(old(self)@, flap, delta_ms as int),
    {
        if flap {
            let fired = self.player.anim_timer.tick(delta_ms);
            if fired {
                self.player.frame = if self.player.frame == self.player.frame_last {
                    self.player.frame_first
                } else {
                    self.player.frame + 1
                };
            }
            proof {
                assert(self@ =~= animation_after(old(self)@, flap, delta_ms as int));
            }
        }
    }

    /// SpawnSystem: advance the spawn timer; when it completes an interval,
    /// spawn one top/bottom pipe pair at `X_SPAWN`, both shifted up by the
    /// same draw. Returns whether the pair was spawned.
    pub fn spawn_step(&mut self, delta_ms: u64, draw: u64) -> (fired: bool)
        requires
            old(self).spawn_timer.wf(),
            draw < DRAW_BOUND,
            delta_ms <= u64::MAX - old(self).spawn_timer.interval_ms,
        ensures
            fired == timer_fires(old(self)@.spawn, delta_ms as int),
            final(self)@ == spawn_after(old(self)@, delta_ms as int, draw as int),
    {
        let fired = self.spawn_timer.tick(delta_ms);
        if fired {
            self.pipes.push(Pipe { x: X_SPAWN, y: TOP_PIPE_BASE + (draw as i64), role: PipeRole::Top });
            self.pipes.push(
                Pipe { x: X_SPAWN, y: BOTTOM_PIPE_BASE + (draw as i64), role: PipeRole::Bottom },
            );
        }
        proof {
            assert(self@.pipes =~= spawn_after(old(self)@, delta_ms as int, draw as int).pipes);
            assert(self@ =~= spawn_after(old(self)@, delta_ms as int, draw as int));
        }
        fired
    }

    /// ScrollSystem: shift every pipe left by `SCROLL_STEP` and remove, in
    /// the same tick, any pipe that thereby falls below `X_EXIT`.
    pub fn scroll_step(&mut self)
        requires
            forall|i: int|
                0 <= i < old(self).pipes@.len() ==> (#[trigger] old(self).pipes@[i]).x >= i64::MIN
                    + SCROLL_STEP,
        ensures
            final(self)@ == scroll_after(old(self)@),
    {
        let moved = scrolled(&self.pipes);
        self.pipes = moved;
        proof {
            assert(self@ =~= scroll_after(old(self)@));
        }
    }

    /// CollisionSystem: if the player has fallen below `Y_DEATH`, respawn it
    /// at `Y_RESPAWN` and remove every pipe; otherwise change nothing.
    pub fn collision_step(&mut self)
        ensures
            final(self)@ == collision_after(old(self)@),
    {
        if self.player.y < Y_DEATH {
            self.player.y = Y_RESPAWN;
            self.pipes = Vec::new();
            proof {
                assert(self@.pipes =~= collision_after(old(self)@).pipes);
                assert(self@ =~= collision_after(old(self)@));
            }
        }
    }

    /// One whole deterministic tick with an injected spawn draw: the five
    /// systems in their fixed order — physics, animation, spawn, scroll,
    /// collision — over the elapsed time and flap signal of this tick.
    pub fn tick_with_draw(&mut self, flap: bool, delta_ms: u64, draw: u64)
        requires
            old(self).wf(),
            draw < DRAW_BOUND,
            old(self).player.y <= i64::MAX - FLAP_IMPULSE,
            old(self).player.y >= i64::MIN + GRAVITY_DROP,
            delta_ms <= u64::MAX - old(self).player.anim_timer.interval_ms,
            delta_ms <= u64::MAX - old(self).spawn_timer.interval_ms,
        ensures
            final(self).wf(),
            final(self)@ == tick_model(old(self)@, flap, delta_ms as int, draw as int),
    {
        self.physics_step(flap);
        self.animation_step(flap, delta_ms);
        self.spawn_step(delta_ms, draw);
        proof {
            let spawned = spawn_after(
                animation_after(physics_after(old(self)@, flap), flap, delta_ms as int),
                delta_ms as int,
                draw as int,
            );
            assert(self@ == spawned);
            assert forall|i: int| 0 <= i < self.pipes@.len() implies (
            #[trigger] self.pipes@[i]).x >= i64::MIN + SCROLL_STEP by {
                assert(self.pipes@[i]@ == spawned.pipes[i]);
                if i < old(self)@.pipes.len() {
                    assert(spawned.pipes[i] == old(self)@.pipes[i]);
                    assert(old(self)@.pipes[i].wf());
                } else {
                    let base = old(self)@.pipes;
                    let s1 = base.push(spawned_top(draw as int));
                    assert(spawned.pipes == s1.push(spawned_bottom(draw as int)));
                    if i < s1.len() {
                        assert(spawned.pipes[i] == s1[i]);
                        assert(s1[i] == spawned_top(draw as int));
                    } else {
                        assert(spawned.pipes.len() == s1.len() + 1);
                        assert(self.pipes@.len() == spawned.pipes.len());
                        assert(i == s1.len());
                        assert(spawned.pipes[i] == spawned_bottom(draw as int));
                    }
                    assert(spawned.pipes[i].x == X_SPAWN);
                }
                assert(self.pipes@[i]@.x >= X_EXIT);
            }
        }
        self.scroll_step();
        self.collision_step();
        proof {
            crate::laws::lemma_tick_preserves_wf(old(self)@, flap, delta_ms as int, draw as int);
        }
    }

    /// One whole tick with the spawn draw taken from the thread-local random
    /// generator: some draw in [0, DRAW_BOUND) was used, and the new world is
    /// exactly the deterministic tick on that draw.
    pub fn tick(&mut self, flap: bool, delta_ms: u64)
        requires
            old(self).wf(),
            old(self).player.y <= i64::MAX - FLAP_IMPULSE,
            old(self).player.y >= i64::MIN + GRAVITY_DROP,
            delta_ms <= u64::MAX - old(self).player.anim_timer.interval_ms,
            delta_ms <= u64::MAX - old(self).spawn_timer.interval_ms,
        ensures
            final(self).wf(),
            exists|draw: int|
                0 <= draw < DRAW_BOUND && final(self)@ == tick_model(
                    old(self)@,
                    flap,
                    delta_ms as int,
                    draw,
                ),
    {
        let draw = random_spawn_draw();
        self.tick_with_draw(flap, delta_ms, draw);
        proof {
            assert(self@ == tick_model(old(self)@, flap, delta_ms as int, draw as int));
        }
    }
}

} // verus!
