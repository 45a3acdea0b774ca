//! A single simulated particle and the step that advances it through time.
use vstd::prelude::*;
use crate::vector::{fits_i64, in_i64, Point, Vector};

verus! {

/// Radius of a fresh particle: eight pixels.
pub const DEFAULT_RADIUS: i64 = 8_000_000;

/// Radius lost per millisecond by a fresh particle: two pixels per second.
pub const DEFAULT_DECAY_RATE: u32 = 2_000;

/// The mathematical state of a particle.
pub struct ParticleState {
    pub position: Point,
    pub velocity: Point,
    pub radius: int,
    pub decay_rate: int,
}

impl ParticleState {
    /// A particle is alive while its radius is positive.
    pub open spec fn alive(self) -> bool {
        self.radius > 0
    }

    /// Every field can be held by a [`Particle`].
    pub open spec fn fits(self) -> bool {
        self.position.fits() && self.velocity.fits() && in_i64(self.radius) && 0 <= self.decay_rate
            <= u32::MAX
    }
}

/// One explicit Euler step of `delta` milliseconds under `gravity`: the
/// velocity takes up the acceleration first, then the position moves by the
/// new velocity, and the radius shrinks by the decay rate. A step that is not
/// forward in time changes nothing.
pub open spec fn integrate(p: ParticleState, gravity: Point, delta: int) -> ParticleState {
    if delta <= 0 {
        p
    } else {
        let v = p.velocity.add(gravity.scale(delta));
        ParticleState {
            position: p.position.add(v.scale(delta)),
            velocity: v,
            radius: p.radius - p.decay_rate * delta,
            decay_rate: p.decay_rate,
        }
    }
}

/// A simulated point with a position, a velocity and a radius that decays.
#[derive(Clone, Copy, Debug, PartialEq, Eq, Structural)]
pub struct Particle {
    position: Vector,
    velocity: Vector,
    radius: i64,
    decay_rate: u32,
}

impl View for Particle {
    type V = ParticleState;

    closed spec fn view(&self) -> ParticleState {
        ParticleState {
            position: self.position@,
            velocity: self.velocity@,
            radius: self.radius as int,
            decay_rate: self.decay_rate as int,
        }
    }
}

proof fn lemma_product_bound(a: int, b: int)
    requires
        -0x8000_0000_0000_0000 <= a <= 0x8000_0000_0000_0000,
        -0x8000_0000_0000_0000 <= b <= 0x8000_0000_0000_0000,
    ensures
        -0x4000_0000_0000_0000_0000_0000_0000_0000 <= a * b <= 0x4000_0000_0000_0000_0000_0000_0000_0000,
{
    assert(-0x4000_0000_0000_0000_0000_0000_0000_0000 <= a * b <= 0x4000_0000_0000_0000_0000_0000_0000_0000)
        by (nonlinear_arith)
        requires
            -0x8000_0000_0000_0000 <= a <= 0x8000_0000_0000_0000,
            -0x8000_0000_0000_0000 <= b <= 0x8000_0000_0000_0000,
    ;
}

impl Particle {
    /// A particle at rest at the origin with the default radius and decay rate.
    pub fn new() -> (r: Particle)
        ensures
            r@ == (ParticleState {
                position: Point { x: 0, y: 0 },
                velocity: Point { x: 0, y: 0 },
                radius: DEFAULT_RADIUS as int,
                decay_rate: DEFAULT_DECAY_RATE as int,
            }),
    {
        Particle {
            position: Vector::zero(),
            velocity: Vector::zero(),
            radius: DEFAULT_RADIUS,
            decay_rate: DEFAULT_DECAY_RATE,
        }
    }

    /// This particle moved to `value`.
    pub fn with_position(self, value: Vector) -> (r: Particle)
        ensures
            r@ == (ParticleState { position: value@, ..self@ }),
    {
        Particle { position: value, ..self }
    }

    /// This particle with its velocity set to `value`.
    pub fn with_velocity(self, value: Vector) -> (r: Particle)
        ensures
            r@ == (ParticleState { velocity: value@, ..self@ }),
    {
        Particle { velocity: value, ..self }
    }

    /// This particle with its radius set to `value`.
    pub fn with_radius(self, value: i64) -> (r: Particle)
        ensures
            r@ == (ParticleState { radius: value as int, ..self@ }),
    {
        Particle { radius: value, ..self }
    }

    /// This particle with its decay rate set to `value`.
    pub fn with_decay_rate(self, value: u32) -> (r: Particle)
        ensures
            r@ == (ParticleState { decay_rate: value as int, ..self@ }),
    {
        Particle { decay_rate: value, ..self }
    }

    pub fn position(&self) -> (r: Vector)
        ensures
            r@ == self@.position,
    {
        self.position
    }

    pub fn velocity(&self) -> (r: Vector)
        ensures
            r@ == self@.velocity,
    {
        self.velocity
    }

    pub fn radius(&self) -> (r: i64)
        ensures
            r == self@.radius,
    {
        self.radius
    }

    pub fn decay_rate(&self) -> (r: u32)
        ensures
            r == self@.decay_rate,
    {
        self.decay_rate
    }

    /// Whether the radius is still positive.
    pub fn is_alive(&self) -> (r: bool)
        ensures
            r == self@.alive(),
    {
        self.radius > 0
    }

    /// This particle advanced by one step of `delta` milliseconds under
    /// `gravity`, or `None` when a resulting coordinate or radius does not fit
    /// in an `i64`.
    pub fn advance(&self, gravity: Vector, delta: i64) -> (r: Option<Particle>)
        ensures
            r is Some <==> integrate(self@, gravity@, delta as int).fits(),
            r matches Some(q) ==> q@ == integrate(self@, gravity@, delta as int),
    {
        if delta <= 0 {
            return Some(*self);
        }
        let d = delta as i128;
        proof {
            lemma_product_bound(gravity.x as int, d as int);
            lemma_product_bound(gravity.y as int, d as int);
            lemma_product_bound(self.decay_rate as int, d as int);
        }
        let vx = self.velocity.x as i128 + gravity.x as i128 * d;
        let vy = self.velocity.y as i128 + gravity.y as i128 * d;
        if !fits_i64(vx) || !fits_i64(vy) {
            return None;
        }
        proof {
            lemma_product_bound(vx as int, d as int);
            lemma_product_bound(vy as int, d as int);
        }
        let px = self.position.x as i128 + vx * d;
        let py = self.position.y as i128 + vy * d;
        let radius = self.radius as i128 - self.decay_rate as i128 * d;
        if !fits_i64(px) || !fits_i64(py) || !fits_i64(radius) {
            return None;
        }
        Some(
            Particle {
                position: Vector { x: px as i64, y: py as i64 },
                velocity: Vector { x: vx as i64, y: vy as i64 },
                radius: radius as i64,
                decay_rate: self.decay_rate,
            },
        )
    }
}

} // verus!
