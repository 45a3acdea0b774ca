//! The particle system: timed spawning, integration and removal of the dead.
use vstd::prelude::*;
use crate::particle::{integrate, Particle, ParticleState, DEFAULT_DECAY_RATE, DEFAULT_RADIUS};
use crate::random::uniform_between;
use crate::vector::{fits_i64, in_i64, Point, Vector};

verus! {

/// Vertical velocity of a new particle: two hundred pixels per second upward.
pub const LAUNCH_VELOCITY_Y: i64 = -200_000;

/// Largest horizontal speed of a new particle: fifty pixels per second.
pub const LAUNCH_SPREAD_X: i64 = 50_000;

/// Default downward gravity: one hundred pixels per square second.
pub const DEFAULT_GRAVITY_Y: i64 = 100;

/// Default time between spawns, in milliseconds.
pub const DEFAULT_EMIT_INTERVAL: u32 = 50;

/// Why a tick was refused. A refused tick leaves the system as it was.
#[derive(Clone, Copy, Debug, PartialEq, Eq, Structural)]
pub enum TickError {
    /// A coordinate, velocity, radius or the timer would leave the range of `i64`.
    OutOfRange,
}

/// The mathematical state of a particle system.
pub struct SystemState {
    pub position: Point,
    pub gravity: Point,
    pub emit_interval: int,
    pub interval_timer: int,
    pub particles: Seq<ParticleState>,
}

/// A spawn is due when the countdown drops below zero.
pub open spec fn spawn_due(timer: int, delta: int) -> bool {
    timer - delta < 0
}

/// The countdown after a tick: back to a full interval when a spawn was due
/// (any remainder is dropped), otherwise decremented.
pub open spec fn next_timer(timer: int, delta: int, interval: int) -> int {
    if spawn_due(timer, delta) {
        interval
    } else {
        timer - delta
    }
}

/// A freshly spawned particle at `origin`, launched upward with horizontal
/// speed `launch_vx`.
pub open spec fn launched(origin: Point, launch_vx: int) -> ParticleState {
    ParticleState {
        position: origin,
        velocity: Point { x: launch_vx, y: LAUNCH_VELOCITY_Y as int },
        radius: DEFAULT_RADIUS as int,
        decay_rate: DEFAULT_DECAY_RATE as int,
    }
}

/// The particles that a tick integrates: the current ones, followed by the
/// new one when a spawn is due.
pub open spec fn candidates(s: SystemState, delta: int, launch_vx: int) -> Seq<ParticleState> {
    if spawn_due(s.interval_timer, delta) {
        s.particles.push(launched(s.position, launch_vx))
    } else {
        s.particles
    }
}

/// Each particle integrated by one step.
pub open spec fn stepped(ps: Seq<ParticleState>, gravity: Point, delta: int) -> Seq<ParticleState> {
    ps.map_values(|p: ParticleState| integrate(p, gravity, delta))
}

/// Each particle integrated by one step, the dead left out, order kept.
pub open spec fn survivors(ps: Seq<ParticleState>, gravity: Point, delta: int) -> Seq<
    ParticleState,
> {
    stepped(ps, gravity, delta).filter(|q: ParticleState| q.alive())
}

/// Every value that a tick computes fits the machine types.
pub open spec fn tick_fits(s: SystemState, delta: int, launch_vx: int) -> bool {
    &&& in_i64(next_timer(s.interval_timer, delta, s.emit_interval))
    &&& forall|i: int|
        0 <= i < candidates(s, delta, launch_vx).len() ==> (#[trigger] stepped(
            candidates(s, delta, launch_vx),
            s.gravity,
            delta,
        )[i]).fits()
}

/// The state after one tick of `delta` milliseconds, where `launch_vx` is the
/// horizontal speed that a spawn in this tick would get.
pub open spec fn ticked(s: SystemState, delta: int, launch_vx: int) -> SystemState {
    SystemState {
        interval_timer: next_timer(s.interval_timer, delta, s.emit_interval),
        particles: survivors(candidates(s, delta, launch_vx), s.gravity, delta),
        ..s
    }
}

/// What a tick owes: it succeeds exactly when every value fits, it then
/// moves to [`ticked`], and otherwise it changes nothing.
pub open spec fn tick_outcome(
    before: SystemState,
    after: SystemState,
    delta: int,
    launch_vx: int,
    r: Result<(), TickError>,
) -> bool {
    &&& r is Ok <==> tick_fits(before, delta, launch_vx)
    &&& r is Ok ==> after == ticked(before, delta, launch_vx)
    &&& r is Err ==> after == before
}

pub open spec fn view_all(ps: Seq<Particle>) -> Seq<ParticleState> {
    ps.map_values(|p: Particle| p@)
}

/// Integrating one more particle adds it to the survivors when it is alive.
pub proof fn lemma_survivors_push(ps: Seq<ParticleState>, p: ParticleState, gravity: Point, delta: int)
    ensures
        survivors(ps.push(p), gravity, delta) == if integrate(p, gravity, delta).alive() {
            survivors(ps, gravity, delta).push(integrate(p, gravity, delta))
        } else {
            survivors(ps, gravity, delta)
        },
{
    let all = stepped(ps.push(p), gravity, delta);
    assert(all.drop_last() =~= stepped(ps, gravity, delta));
    assert(all.last() == integrate(p, gravity, delta));
    reveal(Seq::filter);
}

/// No particle left by a tick is dead.
pub proof fn lemma_survivors_alive(ps: Seq<ParticleState>, gravity: Point, delta: int)
    ensures
        forall|i: int|
            0 <= i < survivors(ps, gravity, delta).len() ==> (#[trigger] survivors(
                ps,
                gravity,
                delta,
            )[i]).alive(),
{
    broadcast use vstd::seq_lib::group_filter_ensures;

}

/// An emitter of particles: it owns them, spawns new ones at a fixed
/// interval and removes those whose radius has run out.
pub struct ParticleSystem {
    position: Vector,
    gravity: Vector,
    emit_interval: u32,
    particles: Vec<Particle>,
    interval_timer: i64,
}

impl View for ParticleSystem {
    type V = SystemState;

    closed spec fn view(&self) -> SystemState {
        SystemState {
            position: self.position@,
            gravity: self.gravity@,
            emit_interval: self.emit_interval as int,
            interval_timer: self.interval_timer as int,
            particles: view_all(self.particles@),
        }
    }
}

impl ParticleSystem {
    /// A system at the origin with downward gravity, the default interval,
    /// no particles, and a countdown of one interval.
    pub fn new() -> (r: ParticleSystem)
        ensures
            r@ == (SystemState {
                position: Point { x: 0, y: 0 },
                gravity: Point { x: 0, y: DEFAULT_GRAVITY_Y as int },
                emit_interval: DEFAULT_EMIT_INTERVAL as int,
                interval_timer: DEFAULT_EMIT_INTERVAL as int,
                particles: Seq::empty(),
            }),
    {
        let r = ParticleSystem {
            position: Vector::zero(),
            gravity: Vector::new(0, DEFAULT_GRAVITY_Y),
            emit_interval: DEFAULT_EMIT_INTERVAL,
            particles: Vec::new(),
            interval_timer: DEFAULT_EMIT_INTERVAL as i64,
        };
        assert(r@.particles =~= Seq::empty());
        r
    }

    /// This system with its spawn origin set to `value`.
    pub fn with_position(self, value: Vector) -> (r: ParticleSystem)
        ensures
            r@ == (SystemState { position: value@, ..self@ }),
    {
        ParticleSystem { position: value, ..self }
    }

    /// This system with its gravity set to `value`.
    pub fn with_gravity(self, value: Vector) -> (r: ParticleSystem)
        ensures
            r@ == (SystemState { gravity: value@, ..self@ }),
    {
        ParticleSystem { gravity: value, ..self }
    }

    /// This system with its time between spawns set to `value` milliseconds.
    /// The countdown under way is left as it is.
    pub fn with_emit_interval(self, value: u32) -> (r: ParticleSystem)
        ensures
            r@ == (SystemState { emit_interval: value as int, ..self@ }),
    {
        ParticleSystem { emit_interval: value, ..self }
    }

    /// This system with its particles replaced by `value`.
    pub fn with_particles(self, value: Vec<Particle>) -> (r: ParticleSystem)
        ensures
            r@ == (SystemState { particles: view_all(value@), ..self@ }),
    {
        ParticleSystem { particles: value, ..self }
    }

    pub fn position(&self) -> (r: Vector)
        ensures
            r@ == self@.position,
    {
        self.position
    }

    pub fn gravity(&self) -> (r: Vector)
        ensures
            r@ == self@.gravity,
    {
        self.gravity
    }

    pub fn emit_interval(&self) -> (r: u32)
        ensures
            r == self@.emit_interval,
    {
        self.emit_interval
    }

    /// Milliseconds left before the countdown to the next spawn drops below zero.
    pub fn interval_timer(&self) -> (r: i64)
        ensures
            r == self@.interval_timer,
    {
        self.interval_timer
    }

    /// The live particles, in order.
    pub fn particles(&self) -> (r: &Vec<Particle>)
        ensures
            view_all(r@) == self@.particles,
    {
        &self.particles
    }

    /// Advances the system by `delta` milliseconds, where a particle spawned
    /// in this tick gets horizontal speed `launch_vx`.
    ///
    /// The countdown drops by `delta`; if it falls below zero it is reset to
    /// one interval and one particle is appended at the spawn origin. Then
    /// every particle, the new one included, takes one integration step, and
    /// those whose radius is no longer positive are removed, the order of the
    /// others kept. A tick whose values would not fit in an `i64` is refused
    /// and changes nothing.
    pub fn tick_with(&mut self, delta: i64, launch_vx: i64) -> (r: Result<(), TickError>)
        ensures
            tick_outcome(old(self)@, final(self)@, delta as int, launch_vx as int, r),
            r is Ok ==> forall|i: int|
                0 <= i < final(self)@.particles.len() ==> (#[trigger] final(self)@.particles[i]).alive(),
            r is Ok ==> final(self)@.interval_timer >= 0,
    {
        let ghost s = self@;
        let timer = self.interval_timer as i128 - delta as i128;
        let due = timer < 0;
        if !due && !fits_i64(timer) {
            return Err(TickError::OutOfRange);
        }
        let gravity = self.gravity;
        let n = self.particles.len();
        let mut kept: Vec<Particle> = Vec::new();
        let mut i: usize = 0;
        while i < n
            invariant
                self@ == s,
                n == self.particles@.len(),
                gravity@ == s.gravity,
                0 <= i <= n,
                view_all(kept@) == survivors(s.particles.take(i as int), s.gravity, delta as int),
                forall|j: int| 0 <= j < i ==> (#[trigger] integrate(s.particles[j], s.gravity, delta as int)).fits(),
            decreases n - i,
        {
            let ghost prefix = s.particles.take(i as int);
            match self.particles[i].advance(gravity, delta) {
                None => {
                    proof {
                        assert(s.particles[i as int] == self.particles@[i as int]@);
                        assert(stepped(candidates(s, delta as int, launch_vx as int), s.gravity, delta as int)[i as int]
                            == integrate(s.particles[i as int], s.gravity, delta as int));
                    }
                    return Err(TickError::OutOfRange);
                },
                Some(q) => {
                    proof {
                        assert(s.particles.take(i + 1) =~= prefix.push(s.particles[i as int]));
                        lemma_survivors_push(prefix, s.particles[i as int], s.gravity, delta as int);
                    }
                    if q.is_alive() {
                        kept.push(q);
                        proof {
                            assert(view_all(kept@) =~= view_all(kept@.drop_last()).push(q@));
                        }
                    }
                },
            }
            i += 1;
        }
        proof {
            assert(s.particles.take(n as int) =~= s.particles);
        }
        if due {
            let fresh = Particle::new().with_position(self.position).with_velocity(
                Vector::new(launch_vx, LAUNCH_VELOCITY_Y),
            );
            assert(fresh@ == launched(s.position, launch_vx as int));
            match fresh.advance(gravity, delta) {
                None => {
                    proof {
                        let c = candidates(s, delta as int, launch_vx as int);
                        assert(stepped(c, s.gravity, delta as int)[n as int] == integrate(fresh@, s.gravity, delta as int));
                    }
                    return Err(TickError::OutOfRange);
                },
                Some(q) => {
                    proof {
                        lemma_survivors_push(s.particles, fresh@, s.gravity, delta as int);
                    }
                    if q.is_alive() {
                        kept.push(q);
                        proof {
                            assert(view_all(kept@) =~= view_all(kept@.drop_last()).push(q@));
                        }
                    }
                },
            }
            self.interval_timer = self.emit_interval as i64;
        } else {
            self.interval_timer = timer as i64;
        }
        self.particles = kept;
        proof {
            let c = candidates(s, delta as int, launch_vx as int);
            assert forall|j: int| 0 <= j < c.len() implies (#[trigger] stepped(c, s.gravity, delta as int)[j]).fits() by {
                if j < n {
                    assert(c[j] == s.particles[j]);
                }
            }
            lemma_survivors_alive(c, s.gravity, delta as int);
            assert(self@.particles == survivors(c, s.gravity, delta as int));
            assert(self@.interval_timer == next_timer(s.interval_timer, delta as int, s.emit_interval));
            assert(self@ == ticked(s, delta as int, launch_vx as int));
        }
        Ok(())
    }

    /// Advances the system by `delta` milliseconds, drawing the horizontal
    /// speed of a particle spawned in this tick uniformly from
    /// `[-LAUNCH_SPREAD_X, LAUNCH_SPREAD_X]`.
    pub fn tick(&mut self, delta: i64) -> (r: Result<(), TickError>)
        ensures
            exists|launch_vx: int|
                -LAUNCH_SPREAD_X <= launch_vx <= LAUNCH_SPREAD_X && tick_outcome(
                    old(self)@,
                    final(self)@,
                    delta as int,
                    launch_vx,
                    r,
                ),
            r is Ok ==> forall|i: int|
                0 <= i < final(self)@.particles.len() ==> (#[trigger] final(self)@.particles[i]).alive(),
            r is Ok ==> final(self)@.interval_timer >= 0,
    {
        let due = (self.interval_timer as i128) - (delta as i128) < 0;
        let launch_vx = if due {
            uniform_between(-LAUNCH_SPREAD_X, LAUNCH_SPREAD_X)
        } else {
            0
        };
        self.tick_with(delta, launch_vx)
    }
}

} // verus!
