//! The simulator's laws: what holds of `step_model` across one or many
//! steps, proved once and for all.

use vstd::prelude::*;

use crate::fixed::{accel, scaled};
use crate::particle::{motion_step, push_window, step_model, Model, TRAIL_LIMIT};

verus! {

/// The state after `n` successive steps under a constant force and a fixed
/// time increment.
pub open spec fn step_model_n(p: Model, fx: int, fy: int, dt: int, n: nat) -> Model
    recommends
        p.mass != 0,
    decreases n,
{
    if n == 0 {
        p
    } else {
        step_model(step_model_n(p, fx, fy, dt, (n - 1) as nat), fx, fy, dt)
    }
}

/// The position after `n` steps; a live step numbered `n + 1` records this
/// pair in the trail.
pub open spec fn position_at(p: Model, fx: int, fy: int, dt: int, n: nat) -> (int, int) {
    let q = step_model_n(p, fx, fy, dt, n);
    (q.x_position, q.y_position)
}

/// A step never changes the particle's mass, lifespan, color or its two
/// capability switches.
pub proof fn lemma_step_keeps_config(p: Model, fx: int, fy: int, dt: int)
    ensures
        step_model(p, fx, fy, dt).mass == p.mass,
        step_model(p, fx, fy, dt).lifespan == p.lifespan,
        step_model(p, fx, fy, dt).color == p.color,
        step_model(p, fx, fy, dt).has_lifecycle == p.has_lifecycle,
        step_model(p, fx, fy, dt).has_trail == p.has_trail,
{
}

/// Across any number of steps the mass, lifespan, color and capability
/// switches keep their initial values.
pub proof fn lemma_step_n_keeps_config(p: Model, fx: int, fy: int, dt: int, n: nat)
    ensures
        step_model_n(p, fx, fy, dt, n).mass == p.mass,
        step_model_n(p, fx, fy, dt, n).lifespan == p.lifespan,
        step_model_n(p, fx, fy, dt, n).color == p.color,
        step_model_n(p, fx, fy, dt, n).has_lifecycle == p.has_lifecycle,
        step_model_n(p, fx, fy, dt, n).has_trail == p.has_trail,
    decreases n,
{
    if n > 0 {
        lemma_step_n_keeps_config(p, fx, fy, dt, (n - 1) as nat);
        lemma_step_keeps_config(step_model_n(p, fx, fy, dt, (n - 1) as nat), fx, fy, dt);
    }
}

/// A step on a dead particle changes nothing at all.
pub proof fn lemma_dead_step_noop(p: Model, fx: int, fy: int, dt: int)
    requires
        p.isdead,
    ensures
        step_model(p, fx, fy, dt) == p,
{
}

/// Death is irreversible: once `isdead` holds it holds after every further
/// step, whatever the forces and time increments.
pub proof fn lemma_death_sticky(p: Model, fx: int, fy: int, dt: int, n: nat)
    requires
        p.isdead,
    ensures
        step_model_n(p, fx, fy, dt, n) == p,
    decreases n,
{
    if n > 0 {
        lemma_death_sticky(p, fx, fy, dt, (n - 1) as nat);
    }
}

/// The step on which death is first detected advances age alone: position,
/// velocity and trail keep their values, and the particle is dead after it.
pub proof fn lemma_death_step_skips_motion(p: Model, fx: int, fy: int, dt: int)
    requires
        !p.isdead,
        p.has_lifecycle,
        p.age + dt >= p.lifespan,
    ensures
        ({
            let q = step_model(p, fx, fy, dt);
            &&& q.isdead
            &&& q.age == p.age + dt
            &&& q.x_position == p.x_position
            &&& q.y_position == p.y_position
            &&& q.x_velocity == p.x_velocity
            &&& q.y_velocity == p.y_velocity
            &&& q.trail == p.trail
        }),
{
}

/// A step under zero force is a pure translation: velocity is unchanged
/// and each position advances by exactly `velocity * dt` in fixed point.
pub proof fn lemma_zero_force_is_translation(p: Model, dt: int)
    requires
        p.mass != 0,
        dt > 0,
        motion_step(p, dt),
    ensures
        ({
            let q = step_model(p, 0, 0, dt);
            &&& q.x_velocity == p.x_velocity
            &&& q.y_velocity == p.y_velocity
            &&& q.x_position == p.x_position + scaled(p.x_velocity, dt)
            &&& q.y_position == p.y_position + scaled(p.y_velocity, dt)
        }),
{
    assert(accel(0, p.mass) == 0);
    assert(scaled(0, dt) == 0);
}

/// Under a constant force, starting from rest, velocity grows linearly:
/// after `n` steps that all perform the physical update, each component is
/// `n` times the per-step increment `(F / mass) * dt`.
pub proof fn lemma_constant_force_linear_velocity(p: Model, fx: int, fy: int, dt: int, n: nat)
    requires
        p.mass != 0,
        p.x_velocity == 0,
        p.y_velocity == 0,
        forall|i: nat| i < n ==> motion_step(step_model_n(p, fx, fy, dt, i), dt),
    ensures
        step_model_n(p, fx, fy, dt, n).x_velocity == n * scaled(accel(fx, p.mass), dt),
        step_model_n(p, fx, fy, dt, n).y_velocity == n * scaled(accel(fy, p.mass), dt),
    decreases n,
{
    let dvx = scaled(accel(fx, p.mass), dt);
    let dvy = scaled(accel(fy, p.mass), dt);
    if n == 0 {
        assert(0 * dvx == 0) by (nonlinear_arith);
        assert(0 * dvy == 0) by (nonlinear_arith);
    } else {
        let m = (n - 1) as nat;
        lemma_constant_force_linear_velocity(p, fx, fy, dt, m);
        lemma_step_n_keeps_config(p, fx, fy, dt, m);
        let q = step_model_n(p, fx, fy, dt, m);
        assert(motion_step(q, dt));
        assert(step_model(q, fx, fy, dt).x_velocity == q.x_velocity + dvx);
        assert(m * dvx + dvx == n * dvx) by (nonlinear_arith)
            requires
                m == n - 1,
        ;
        assert(m * dvy + dvy == n * dvy) by (nonlinear_arith)
            requires
                m == n - 1,
        ;
    }
}

/// The trail is a sliding window over the positions the particle has
/// occupied. Starting from an empty trail, after `k` steps that all
/// perform the physical update the trail holds the last
/// `min(k, TRAIL_LIMIT)` pre-step positions in chronological order; its
/// entry `j` is the position the particle had after `k - len + j` steps.
pub proof fn lemma_trail_window(p: Model, fx: int, fy: int, dt: int, k: nat)
    requires
        p.mass != 0,
        p.has_trail,
        p.trail.len() == 0,
        forall|i: nat| i < k ==> motion_step(step_model_n(p, fx, fy, dt, i), dt),
    ensures
        ({
            let q = step_model_n(p, fx, fy, dt, k);
            let len = if k <= TRAIL_LIMIT {
                k as int
            } else {
                TRAIL_LIMIT as int
            };
            &&& q.trail.len() == len
            &&& forall|j: int|
                0 <= j < len ==> q.trail[j] == position_at(p, fx, fy, dt, (k - len + j) as nat)
        }),
    decreases k,
{
    if k > 0 {
        let m = (k - 1) as nat;
        lemma_trail_window(p, fx, fy, dt, m);
        lemma_step_n_keeps_config(p, fx, fy, dt, m);
        let q = step_model_n(p, fx, fy, dt, m);
        let prev_len = if m <= TRAIL_LIMIT {
            m as int
        } else {
            TRAIL_LIMIT as int
        };
        assert(motion_step(q, dt));
        let pos = (q.x_position, q.y_position);
        assert(pos == position_at(p, fx, fy, dt, m));
        let next = step_model(q, fx, fy, dt);
        assert(next.trail == push_window(q.trail, pos));
        let pushed = q.trail.push(pos);
        let len = if k <= TRAIL_LIMIT {
            k as int
        } else {
            TRAIL_LIMIT as int
        };
        if prev_len < TRAIL_LIMIT {
            assert(next.trail == pushed);
            assert(len == prev_len + 1);
            assert forall|j: int| 0 <= j < len implies next.trail[j] == position_at(
                p,
                fx,
                fy,
                dt,
                (k - len + j) as nat,
            ) by {
                if j < prev_len {
                    assert(pushed[j] == q.trail[j]);
                    assert(q.trail[j] == position_at(p, fx, fy, dt, (m - prev_len + j) as nat));
                } else {
                    assert(pushed[j] == pos);
                }
            }
        } else {
            assert(pushed.len() == TRAIL_LIMIT + 1);
            assert(next.trail == pushed.subrange(1, pushed.len() as int));
            assert(next.trail.len() == TRAIL_LIMIT);
            assert(len == TRAIL_LIMIT as int);
            assert forall|j: int| 0 <= j < len implies next.trail[j] == position_at(
                p,
                fx,
                fy,
                dt,
                (k - len + j) as nat,
            ) by {
                assert(next.trail[j] == pushed[j + 1]);
                if j + 1 < pushed.len() - 1 {
                    assert(pushed[j + 1] == q.trail[j + 1]);
                    assert(q.trail[j + 1] == position_at(
                        p,
                        fx,
                        fy,
                        dt,
                        (m - prev_len + j + 1) as nat,
                    ));
                } else {
                    assert(pushed[j + 1] == pos);
                }
            }
        }
    }
}

} // verus!
