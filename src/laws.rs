//! Properties of the simulation that hold over all inputs.
use vstd::prelude::*;
use crate::particle::{integrate, ParticleState};
use crate::system::{
    candidates, lemma_survivors_alive, lemma_survivors_push, next_timer, spawn_due, stepped,
    survivors, tick_fits, ticked, SystemState,
};
use crate::vector::Point;

verus! {

/// One particle carried through a sequence of steps, the earliest first.
pub open spec fn run(p: ParticleState, gravity: Point, deltas: Seq<int>) -> ParticleState
    decreases deltas.len(),
{
    if deltas.len() == 0 {
        p
    } else {
        integrate(run(p, gravity, deltas.drop_last()), gravity, deltas.last())
    }
}

/// How many of `n` ticks of `delta` milliseconds spawn a particle, starting
/// from countdown `timer` with interval `interval`.
pub open spec fn spawns_over(timer: int, delta: int, interval: int, n: nat) -> nat
    decreases n,
{
    if n == 0 {
        0
    } else {
        let here: nat = if spawn_due(timer, delta) { 1 } else { 0 };
        here + spawns_over(next_timer(timer, delta, interval), delta, interval, (n - 1) as nat)
    }
}

/// A step forward in time never makes a particle larger.
pub proof fn lemma_step_radius_non_increasing(p: ParticleState, gravity: Point, delta: int)
    requires
        p.decay_rate >= 0,
        delta >= 0,
    ensures
        integrate(p, gravity, delta).radius <= p.radius,
        integrate(p, gravity, delta).decay_rate == p.decay_rate,
{
    assert(p.decay_rate * delta >= 0) by (nonlinear_arith)
        requires
            p.decay_rate >= 0,
            delta >= 0,
    ;
}

/// Through any sequence of steps forward in time, the radius of a particle
/// never grows: it is no larger after `j` steps than after `i <= j` steps.
pub proof fn lemma_radius_non_increasing(
    p: ParticleState,
    gravity: Point,
    deltas: Seq<int>,
    i: int,
    j: int,
)
    requires
        p.decay_rate >= 0,
        forall|k: int| 0 <= k < deltas.len() ==> deltas[k] >= 0,
        0 <= i <= j <= deltas.len(),
    ensures
        run(p, gravity, deltas.take(j)).radius <= run(p, gravity, deltas.take(i)).radius,
    decreases j - i,
{
    if i < j {
        lemma_radius_non_increasing(p, gravity, deltas, i, j - 1);
        let prev = deltas.take(j - 1);
        assert(deltas.take(j).drop_last() =~= prev);
        lemma_run_keeps_decay_rate(p, gravity, prev);
        lemma_step_radius_non_increasing(run(p, gravity, prev), gravity, deltas[j - 1]);
    }
}

proof fn lemma_run_keeps_decay_rate(p: ParticleState, gravity: Point, deltas: Seq<int>)
    ensures
        run(p, gravity, deltas).decay_rate == p.decay_rate,
    decreases deltas.len(),
{
    if deltas.len() > 0 {
        lemma_run_keeps_decay_rate(p, gravity, deltas.drop_last());
    }
}

proof fn lemma_survivor_origin(ps: Seq<ParticleState>, gravity: Point, delta: int)
    ensures
        forall|i: int|
            0 <= i < survivors(ps, gravity, delta).len() ==> exists|j: int|
                0 <= j < ps.len() && #[trigger] survivors(ps, gravity, delta)[i] == integrate(
                    ps[j],
                    gravity,
                    delta,
                ),
    decreases ps.len(),
{
    if ps.len() > 0 {
        let init = ps.drop_last();
        lemma_survivor_origin(init, gravity, delta);
        assert(init.push(ps.last()) =~= ps);
        lemma_survivors_push(init, ps.last(), gravity, delta);
        let out = survivors(ps, gravity, delta);
        assert forall|i: int| 0 <= i < out.len() implies exists|j: int|
            0 <= j < ps.len() && #[trigger] out[i] == integrate(ps[j], gravity, delta) by {
            if i < survivors(init, gravity, delta).len() {
                let j = choose|j: int|
                    0 <= j < init.len() && survivors(init, gravity, delta)[i] == integrate(
                        init[j],
                        gravity,
                        delta,
                    );
                assert(ps[j] == init[j]);
            } else {
                assert(out[i] == integrate(ps[ps.len() - 1], gravity, delta));
            }
        }
    }
}

/// `q` is one of `ps` integrated by one step, and no larger than it was.
pub open spec fn shrunk_from(q: ParticleState, ps: Seq<ParticleState>, gravity: Point, delta: int) -> bool {
    exists|j: int|
        0 <= j < ps.len() && q == integrate(#[trigger] ps[j], gravity, delta) && q.radius <= ps[j].radius
}

/// A tick forward in time shrinks or keeps every radius: each particle it
/// leaves is one of the particles it integrated (the existing ones and any
/// new one), one step on, and no larger than before.
pub proof fn lemma_tick_radius_non_increasing(s: SystemState, delta: int, launch_vx: int)
    requires
        delta >= 0,
        forall|k: int| 0 <= k < s.particles.len() ==> (#[trigger] s.particles[k]).decay_rate >= 0,
    ensures
        forall|i: int|
            0 <= i < ticked(s, delta, launch_vx).particles.len() ==> shrunk_from(
                #[trigger] ticked(s, delta, launch_vx).particles[i],
                candidates(s, delta, launch_vx),
                s.gravity,
                delta,
            ),
{
    let c = candidates(s, delta, launch_vx);
    lemma_survivor_origin(c, s.gravity, delta);
    let out = ticked(s, delta, launch_vx).particles;
    assert forall|i: int| 0 <= i < out.len() implies shrunk_from(
        #[trigger] out[i],
        c,
        s.gravity,
        delta,
    ) by {
        let j = choose|j: int| 0 <= j < c.len() && out[i] == integrate(c[j], s.gravity, delta);
        if j < s.particles.len() {
            assert(c[j] == s.particles[j]);
        }
        lemma_step_radius_non_increasing(c[j], s.gravity, delta);
        assert(0 <= j < c.len() && out[i] == integrate(c[j], s.gravity, delta) && out[i].radius
            <= c[j].radius);
    }
}

/// After a tick no particle with a radius at or below zero is left: one
/// that dies during the tick is gone before the next one starts.
pub proof fn lemma_tick_removes_dead(s: SystemState, delta: int, launch_vx: int)
    ensures
        forall|q: ParticleState|
            #[trigger] ticked(s, delta, launch_vx).particles.contains(q) ==> q.alive(),
        forall|j: int|
            0 <= j < candidates(s, delta, launch_vx).len() && !integrate(
                #[trigger] candidates(s, delta, launch_vx)[j],
                s.gravity,
                delta,
            ).alive() ==> !ticked(s, delta, launch_vx).particles.contains(
                integrate(candidates(s, delta, launch_vx)[j], s.gravity, delta),
            ),
{
    lemma_survivors_alive(candidates(s, delta, launch_vx), s.gravity, delta);
}

proof fn lemma_quiet_ticks(timer: int, delta: int, interval: int, m: nat)
    requires
        delta > 0,
        m * delta <= timer,
    ensures
        spawns_over(timer, delta, interval, m) == 0,
    decreases m,
{
    if m > 0 {
        assert((m - 1) * delta == m * delta - delta) by (nonlinear_arith);
        assert(m * delta >= delta) by (nonlinear_arith)
            requires
                m >= 1,
                delta > 0,
        ;
        lemma_quiet_ticks(timer - delta, delta, interval, (m - 1) as nat);
    }
}

proof fn lemma_one_spawn_within(timer: int, delta: int, n: nat, m: nat)
    requires
        delta > 0,
        1 <= m <= n + 1,
        0 <= timer < m * delta,
    ensures
        spawns_over(timer, delta, n * delta, m) == 1,
    decreases m,
{
    let interval = n * delta;
    assert((m - 1) * delta == m * delta - delta) by (nonlinear_arith);
    assert(m == 1 ==> m * delta == delta) by (nonlinear_arith);
    if spawn_due(timer, delta) {
        assert((m - 1) * delta <= n * delta) by (nonlinear_arith)
            requires
                m <= n + 1,
                delta > 0,
        ;
        lemma_quiet_ticks(interval, delta, interval, (m - 1) as nat);
    } else {
        lemma_one_spawn_within(timer - delta, delta, n, (m - 1) as nat);
    }
}

/// With ticks of exactly one `n`-th of the interval, `n` ticks spawn exactly
/// one particle, from any countdown below a full interval. From a countdown
/// of a full interval (just after a reset, or in a new system) the spawn
/// comes on the tick after those `n`, since a spawn waits for the countdown
/// to drop below zero and the remainder is not carried over.
pub proof fn lemma_spawn_cadence(timer: int, delta: int, n: nat)
    requires
        n >= 1,
        delta > 0,
        0 <= timer < n * delta,
    ensures
        spawns_over(timer, delta, n * delta, n) == 1,
        spawns_over(n * delta, delta, n * delta, n) == 0,
        spawns_over(n * delta, delta, n * delta, n + 1) == 1,
{
    lemma_one_spawn_within(timer, delta, n, n);
    lemma_quiet_ticks(n * delta, delta, n * delta, n);
    assert(n * delta < (n + 1) * delta) by (nonlinear_arith)
        requires
            delta > 0,
    ;
    lemma_one_spawn_within(n * delta, delta, n, n + 1);
}

/// Without gravity one tick of `delta >= 0` milliseconds moves a particle by
/// exactly its velocity times `delta` and keeps its velocity.
pub proof fn lemma_integration_without_gravity(p: ParticleState, delta: int)
    requires
        delta >= 0,
    ensures
        integrate(p, Point { x: 0, y: 0 }, delta).position == p.position.add(
            p.velocity.scale(delta),
        ),
        integrate(p, Point { x: 0, y: 0 }, delta).velocity == p.velocity,
{
    if delta > 0 {
        assert(p.velocity.add(Point { x: 0, y: 0 }.scale(delta)) == p.velocity);
    } else {
        assert(p.velocity.scale(delta) == Point { x: 0, y: 0 });
    }
}

/// A tick of zero milliseconds is always carried out, changes no particle's
/// motion, size or order and spawns nothing: it only drops particles that
/// were already dead, so on a system whose particles are all alive it
/// changes nothing at all.
pub proof fn lemma_zero_delta(s: SystemState, launch_vx: int)
    requires
        0 <= s.interval_timer <= i64::MAX,
        forall|k: int| 0 <= k < s.particles.len() ==> (#[trigger] s.particles[k]).fits(),
    ensures
        tick_fits(s, 0, launch_vx),
        ticked(s, 0, launch_vx) == (SystemState {
            particles: s.particles.filter(|q: ParticleState| q.alive()),
            ..s
        }),
        (forall|k: int| 0 <= k < s.particles.len() ==> (#[trigger] s.particles[k]).alive())
            ==> ticked(s, 0, launch_vx) == s,
{
    assert(stepped(s.particles, s.gravity, 0) =~= s.particles);
    assert(candidates(s, 0, launch_vx) == s.particles);
    assert forall|k: int| 0 <= k < s.particles.len() implies (#[trigger] stepped(
        s.particles,
        s.gravity,
        0,
    )[k]).fits() by {
        assert(stepped(s.particles, s.gravity, 0)[k] == s.particles[k]);
    }
    if forall|k: int| 0 <= k < s.particles.len() ==> (#[trigger] s.particles[k]).alive() {
        lemma_filter_keeps_all(s.particles);
    }
}

proof fn lemma_filter_keeps_all(ps: Seq<ParticleState>)
    requires
        forall|k: int| 0 <= k < ps.len() ==> (#[trigger] ps[k]).alive(),
    ensures
        ps.filter(|q: ParticleState| q.alive()) == ps,
    decreases ps.len(),
{
    reveal(Seq::filter);
    if ps.len() > 0 {
        lemma_filter_keeps_all(ps.drop_last());
        assert(ps.drop_last().push(ps.last()) =~= ps);
    }
}

} // verus!
