//! The particle simulator: one point mass advanced by semi-implicit Euler
//! steps, with optional aging toward a lifespan and an optional bounded
//! trail of recent positions.

use vstd::prelude::*;

use crate::fixed::{accel, div_trunc, in_i64, scaled, fx_div, fx_mul, SCALE};

verus! {

/// Most recent positions kept in the trail; the oldest is evicted first.
pub const TRAIL_LIMIT: usize = 50;

/// Why a constructor or a step refused to proceed.
#[derive(Clone, Copy, Debug, PartialEq, Eq, Structural)]
pub enum ParticleError {
    /// The mass is zero: acceleration is undefined.
    InvalidMass,
    /// An intermediate of the step left the `i64` range.
    Overflow,
}

/// The mathematical state of a particle: every raw `i64` field widened to
/// `int`, the trail as a sequence.
#[verifier::ext_equal]
pub ghost struct Model {
    pub x_position: int,
    pub y_position: int,
    pub x_velocity: int,
    pub y_velocity: int,
    pub mass: int,
    pub lifespan: int,
    pub age: int,
    pub isdead: bool,
    pub color: (u8, u8, u8),
    pub trail: Seq<(int, int)>,
    pub has_lifecycle: bool,
    pub has_trail: bool,
}

/// A point mass in fixed-point micro-units (`SCALE` raw units per 1.0).
///
/// `has_lifecycle` and `has_trail` toggle the two optional capabilities:
/// aging toward `lifespan` with a one-way transition to `isdead`, and the
/// bounded `position_history` window.
pub struct Particle {
    pub x_position: i64,
    pub y_position: i64,
    pub x_velocity: i64,
    pub y_velocity: i64,
    pub mass: i64,
    /// Total micro-seconds the particle may exist (aging configuration).
    pub lifespan: i64,
    /// Micro-seconds elapsed since creation (aging configuration).
    pub age: i64,
    pub isdead: bool,
    pub color: (u8, u8, u8),
    /// The most recent `TRAIL_LIMIT` positions, oldest first.
    pub position_history: Vec<(i64, i64)>,
    pub has_lifecycle: bool,
    pub has_trail: bool,
}

impl View for Particle {
    type V = Model;

    open spec fn view(&self) -> Model {
        Model {
            x_position: self.x_position as int,
            y_position: self.y_position as int,
            x_velocity: self.x_velocity as int,
            y_velocity: self.y_velocity as int,
            mass: self.mass as int,
            lifespan: self.lifespan as int,
            age: self.age as int,
            isdead: self.isdead,
            color: self.color,
            trail: self.position_history@.map_values(|p: (i64, i64)| (p.0 as int, p.1 as int)),
            has_lifecycle: self.has_lifecycle,
            has_trail: self.has_trail,
        }
    }
}

/// `trail` with `pos` appended and, past `TRAIL_LIMIT` entries, the oldest
/// entry dropped from the front.
pub open spec fn push_window(trail: Seq<(int, int)>, pos: (int, int)) -> Seq<(int, int)> {
    let t = trail.push(pos);
    if t.len() > TRAIL_LIMIT {
        t.subrange(1, t.len() as int)
    } else {
        t
    }
}

/// The velocity of one axis after a step: `v + (f / m) * dt` in truncating
/// fixed point.
pub open spec fn axis_next_v(f: int, m: int, v: int, dt: int) -> int
    recommends
        m != 0,
{
    v + scaled(accel(f, m), dt)
}

/// The position of one axis after a step: the already-updated velocity
/// times `dt`, added to `x` (semi-implicit Euler).
pub open spec fn axis_next_x(f: int, m: int, v: int, x: int, dt: int) -> int
    recommends
        m != 0,
{
    x + scaled(axis_next_v(f, m, v, dt), dt)
}

/// Whether every intermediate of one axis's update fits in `i64`.
pub open spec fn axis_fits(f: int, m: int, v: int, x: int, dt: int) -> bool
    recommends
        m != 0,
{
    let a = accel(f, m);
    let v2 = axis_next_v(f, m, v, dt);
    &&& in_i64(f * SCALE)
    &&& in_i64(a)
    &&& in_i64(a * dt)
    &&& in_i64(scaled(a, dt))
    &&& in_i64(v2)
    &&& in_i64(v2 * dt)
    &&& in_i64(scaled(v2, dt))
    &&& in_i64(x + scaled(v2, dt))
}

/// Whether a particle is alive and will still be alive after time advances
/// by `dt`: exactly the steps that perform the physical update.
pub open spec fn motion_step(p: Model, dt: int) -> bool {
    &&& !p.isdead
    &&& !(p.has_lifecycle && p.age + dt >= p.lifespan)
}

/// One simulation step on the mathematical state.
///
/// A dead particle is left unchanged. Otherwise time advances first; if the
/// new age reaches the lifespan the particle dies and no motion is applied
/// this step. A surviving step records the pre-update position in the
/// trail (when enabled), then integrates velocity from the force and
/// position from the updated velocity.
pub open spec fn step_model(p: Model, fx: int, fy: int, dt: int) -> Model
    recommends
        p.mass != 0,
{
    if p.isdead {
        p
    } else if p.has_lifecycle && p.age + dt >= p.lifespan {
        Model { age: p.age + dt, isdead: true, ..p }
    } else {
        Model {
            x_position: axis_next_x(fx, p.mass, p.x_velocity, p.x_position, dt),
            y_position: axis_next_x(fy, p.mass, p.y_velocity, p.y_position, dt),
            x_velocity: axis_next_v(fx, p.mass, p.x_velocity, dt),
            y_velocity: axis_next_v(fy, p.mass, p.y_velocity, dt),
            age: if p.has_lifecycle {
                p.age + dt
            } else {
                p.age
            },
            trail: if p.has_trail {
                push_window(p.trail, (p.x_position, p.y_position))
            } else {
                p.trail
            },
            ..p
        }
    }
}

/// Whether every intermediate that a step computes fits in `i64`, so that
/// `update` succeeds.
pub open spec fn step_fits(p: Model, fx: int, fy: int, dt: int) -> bool
    recommends
        p.mass != 0,
{
    if p.isdead {
        true
    } else if p.has_lifecycle && !in_i64(p.age + dt) {
        false
    } else if p.has_lifecycle && p.age + dt >= p.lifespan {
        true
    } else {
        &&& axis_fits(fx, p.mass, p.x_velocity, p.x_position, dt)
        &&& axis_fits(fy, p.mass, p.y_velocity, p.y_position, dt)
    }
}

impl Particle {
    /// Builds a live particle with empty history and zero age, refusing a
    /// zero mass before any step can divide by it.
    pub fn new(
        x_position: i64,
        y_position: i64,
        x_velocity: i64,
        y_velocity: i64,
        mass: i64,
        lifespan: i64,
        color: (u8, u8, u8),
        has_lifecycle: bool,
        has_trail: bool,
    ) -> (r: Result<Particle, ParticleError>)
        ensures
            mass == 0 <==> r is Err,
            r is Err ==> r->Err_0 == ParticleError::InvalidMass,
            r is Ok ==> ({
                let p = r->Ok_0;
                &&& p.x_position == x_position
                &&& p.y_position == y_position
                &&& p.x_velocity == x_velocity
                &&& p.y_velocity == y_velocity
                &&& p.mass == mass
                &&& p.lifespan == lifespan
                &&& p.age == 0
                &&& !p.isdead
                &&& p.color == color
                &&& p.position_history@ == Seq::<(i64, i64)>::empty()
                &&& p.has_lifecycle == has_lifecycle
                &&& p.has_trail == has_trail
            }),
    {
        if mass == 0 {
            return Err(ParticleError::InvalidMass);
        }
        let p = Particle {
            x_position,
            y_position,
            x_velocity,
            y_velocity,
            mass,
            lifespan,
            age: 0,
            isdead: false,
            color,
            position_history: Vec::new(),
            has_lifecycle,
            has_trail,
        };
        proof {
            assert(p.position_history@ =~= Seq::<(i64, i64)>::empty());
        }
        Ok(p)
    }

    /// One simulation step under the given force over time increment `dt`.
    ///
    /// A zero mass is refused before anything else, as the one fatal
    /// misuse. A dead particle is left untouched. Otherwise the state
    /// becomes `step_model` of the old state whenever every intermediate
    /// fits in `i64`; on overflow nothing changes.
    pub fn update(&mut self, force_x: i64, force_y: i64, dt: i64) -> (r: Result<
        (),
        ParticleError,
    >)
        ensures
            old(self).mass == 0 ==> r == Err::<(), ParticleError>(ParticleError::InvalidMass)
                && final(self)@ == old(self)@,
            old(self).mass != 0 && step_fits(old(self)@, force_x as int, force_y as int, dt as int)
                ==> r == Ok::<(), ParticleError>(()) && final(self)@ == step_model(
                old(self)@,
                force_x as int,
                force_y as int,
                dt as int,
            ),
            old(self).mass != 0 && !step_fits(
                old(self)@,
                force_x as int,
                force_y as int,
                dt as int,
            ) ==> r == Err::<(), ParticleError>(ParticleError::Overflow) && final(self)@ == old(
                self,
            )@,
    {
        if self.mass == 0 {
            return Err(ParticleError::InvalidMass);
        }
        if self.isdead {
            return Ok(());
        }
        let mut new_age = self.age;
        if self.has_lifecycle {
            new_age = match self.age.checked_add(dt) {
                Some(a) => a,
                None => {
                    return Err(ParticleError::Overflow);
                },
            };
            if new_age >= self.lifespan {
                self.age = new_age;
                self.isdead = true;
                proof {
                    assert(self@ =~= step_model(
                        old(self)@,
                        force_x as int,
                        force_y as int,
                        dt as int,
                    ));
                }
                return Ok(());
            }
        }
        let ax = match fx_div(force_x, self.mass) {
            Some(a) => a,
            None => {
                return Err(ParticleError::Overflow);
            },
        };
        let dvx = match fx_mul(ax, dt) {
            Some(d) => d,
            None => {
                return Err(ParticleError::Overflow);
            },
        };
        let vx2 = match self.x_velocity.checked_add(dvx) {
            Some(v) => v,
            None => {
                return Err(ParticleError::Overflow);
            },
        };
        let dx = match fx_mul(vx2, dt) {
            Some(d) => d,
            None => {
                return Err(ParticleError::Overflow);
            },
        };
        let x2 = match self.x_position.checked_add(dx) {
            Some(x) => x,
            None => {
                return Err(ParticleError::Overflow);
            },
        };
        let ay = match fx_div(force_y, self.mass) {
            Some(a) => a,
            None => {
                return Err(ParticleError::Overflow);
            },
        };
        let dvy = match fx_mul(ay, dt) {
            Some(d) => d,
            None => {
                return Err(ParticleError::Overflow);
            },
        };
        let vy2 = match self.y_velocity.checked_add(dvy) {
            Some(v) => v,
            None => {
                return Err(ParticleError::Overflow);
            },
        };
        let dy = match fx_mul(vy2, dt) {
            Some(d) => d,
            None => {
                return Err(ParticleError::Overflow);
            },
        };
        let y2 = match self.y_position.checked_add(dy) {
            Some(y) => y,
            None => {
                return Err(ParticleError::Overflow);
            },
        };
        if self.has_trail {
            self.position_history.push((self.x_position, self.y_position));
            if self.position_history.len() > TRAIL_LIMIT {
                self.position_history.remove(0);
            }
        }
        self.age = new_age;
        self.x_velocity = vx2;
        self.y_velocity = vy2;
        self.x_position = x2;
        self.y_position = y2;
        proof {
            assert(self@.trail =~= step_model(
                old(self)@,
                force_x as int,
                force_y as int,
                dt as int,
            ).trail);
            assert(self@ =~= step_model(old(self)@, force_x as int, force_y as int, dt as int));
        }
        Ok(())
    }
}

} // verus!
