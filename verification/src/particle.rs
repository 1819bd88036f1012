//! A short-lived simulated particle: position, velocity, accumulated
//! gravity and color, advanced one explicit-Euler step per frame.
//!
//! The step applies drag as an interpolation of velocity toward zero,
//! accumulates gravity as an ever-growing separate vertical displacement
//! rate (not folded into the velocity — trajectories depend on this exact
//! accumulation), then integrates the position and re-interpolates the
//! color by the particle's age ratio. The particle reports itself dead once
//! its age exceeds its lifetime or it leaves the surface bounds.

use vstd::prelude::*;

use crate::color;
use crate::fx;
use crate::vec2::Vec2Milli;

verus! {

/// Immutable spawn parameters, resolved by the emitter and copied into each
/// particle at creation. Sizes are whole pixels; the velocity is in
/// thousandths of a pixel per second; the drag coefficient in thousandths
/// per second; gravity in thousandths of a pixel per second squared; the
/// lifetime in milliseconds.
#[derive(Clone, Copy)]
pub struct ParticleOptions {
    pub lifetime_ms: u32,
    pub drag_coefficient: i64,
    pub velocity: Vec2Milli,
    pub start_size: u32,
    pub end_size: u32,
    pub start_color: u32,
    pub end_color: u32,
    pub gravity: i64,
}

/// The mutable particle state owned by the simulation driver.
pub struct Particle {
    pub options: ParticleOptions,
    pub position: Vec2Milli,
    pub size: u32,
    pub velocity: Vec2Milli,
    pub gravity_force: i64,
    pub color: u32,
    pub age_ms: u64,
}

/// Whether a position lies outside the half-open surface
/// `[0, width) x [0, height)` (in whole pixels; the position is in
/// thousandths).
pub open spec fn out_of_bounds(p: Vec2Milli, width: int, height: int) -> bool {
    p.x < 0 || p.x >= width * 1000 || p.y < 0 || p.y >= height * 1000
}

/// One velocity component after drag: interpolated toward zero by the
/// factor `drag * elapsed` (thousandths). A factor above one overshoots and
/// flips the sign; that is accepted behavior, not corrected.
pub open spec fn drag_step(v: int, drag: int, elapsed: int) -> int {
    fx::scale64(v, fx::sub64(1000, fx::scale64(drag, elapsed, 1000)), 1000)
}

/// The velocity vector after drag.
pub open spec fn step_velocity(v: Vec2Milli, drag: int, elapsed: int) -> Vec2Milli {
    Vec2Milli {
        x: drag_step(v.x as int, drag, elapsed) as i64,
        y: drag_step(v.y as int, drag, elapsed) as i64,
    }
}

/// The accumulated downward force after one step: grown by
/// `gravity * elapsed` seconds' worth.
pub open spec fn gravity_after(gf: int, gravity: int, elapsed: int) -> int {
    fx::add64(gf, fx::scale64(gravity, elapsed, 1000))
}

/// A horizontal position after one step: moved by the velocity.
pub open spec fn pos_x_after(px: int, vx: int, elapsed: int) -> int {
    fx::add64(px, fx::scale64(vx, elapsed, 1000))
}

/// A vertical position after one step: moved by the velocity plus the
/// accumulated force as an independent displacement term.
pub open spec fn pos_y_after(py: int, vy: int, gf: int, elapsed: int) -> int {
    fx::add64(fx::add64(py, fx::scale64(vy, elapsed, 1000)), fx::scale64(gf, elapsed, 1000))
}

/// Whether the particle survives the step: still inside the bounds at entry
/// and not yet past its lifetime once aged by `elapsed`.
pub open spec fn survives(p: Particle, elapsed: int, width: int, height: int) -> bool {
    &&& !out_of_bounds(p.position, width, height)
    &&& fx::add64u(p.age_ms as int, elapsed) <= p.options.lifetime_ms
}

/// The denominator of the age ratio: the lifetime, with a zero lifetime
/// degrading to one so the ratio is always defined.
pub open spec fn age_den(lifetime_ms: u32) -> int {
    if lifetime_ms == 0 {
        1
    } else {
        lifetime_ms as int
    }
}

/// The whole particle state after one step of `elapsed` milliseconds
/// against a `width` by `height` surface: unchanged when already out of
/// bounds, only aged when the lifetime runs out, and otherwise advanced by
/// drag, accumulated gravity, integration and color interpolation.
pub open spec fn step_spec(p: Particle, elapsed: int, width: int, height: int) -> Particle {
    if out_of_bounds(p.position, width, height) {
        p
    } else {
        let age2 = fx::add64u(p.age_ms as int, elapsed);
        if age2 > p.options.lifetime_ms {
            Particle { age_ms: age2 as u64, ..p }
        } else {
            let v2 = step_velocity(p.velocity, p.options.drag_coefficient as int, elapsed);
            let gf2 = gravity_after(p.gravity_force as int, p.options.gravity as int, elapsed);
            Particle {
                options: p.options,
                position: Vec2Milli {
                    x: pos_x_after(p.position.x as int, v2.x as int, elapsed) as i64,
                    y: pos_y_after(p.position.y as int, v2.y as int, gf2, elapsed) as i64,
                },
                size: p.size,
                velocity: v2,
                gravity_force: gf2 as i64,
                color: color::lerp_rgb(
                    p.options.start_color, p.options.end_color, age2, age_den(p.options.lifetime_ms),
                ) as u32,
                age_ms: age2 as u64,
            }
        }
    }
}

impl Particle {
    /// Creates a particle at `position` from its resolved spawn parameters:
    /// full starting size and color, zero age and zero accumulated force.
    pub fn new(position: Vec2Milli, options: &ParticleOptions) -> (p: Particle)
        ensures
            p.options == *options,
            p.position == position,
            p.size == options.start_size,
            p.velocity == options.velocity,
            p.gravity_force == 0,
            p.color == options.start_color,
            p.age_ms == 0,
    {
        Particle {
            position,
            size: options.start_size,
            velocity: options.velocity,
            color: options.start_color,
            gravity_force: 0,
            age_ms: 0,
            options: *options,
        }
    }

    /// The time the particle has been alive, in milliseconds.
    pub fn age(&self) -> (a: u64)
        ensures
            a == self.age_ms,
    {
        self.age_ms
    }

    /// Advances the particle by one simulation step of `elapsed_ms` against
    /// a `width` by `height` surface and reports whether it is still alive.
    /// A dead particle is only aged, never otherwise mutated.
    pub fn update(&mut self, elapsed_ms: u32, width: u32, height: u32) -> (alive: bool)
        ensures
            alive == survives(*old(self), elapsed_ms as int, width as int, height as int),
            *final(self) == step_spec(*old(self), elapsed_ms as int, width as int, height as int),
    {
        if self.position.x < 0 || self.position.x >= (width as i64) * 1000
            || self.position.y < 0 || self.position.y >= (height as i64) * 1000 {
            return false;
        }

        let age2: u64 = fx::sat_add_u64(self.age_ms, elapsed_ms as u64);
        self.age_ms = age2;
        if age2 > self.options.lifetime_ms as u64 {
            return false;
        }

        let e: i64 = elapsed_ms as i64;
        let f: i64 = fx::mul_div(self.options.drag_coefficient, e, 1000);
        let m: i64 = fx::sat_sub(1000, f);
        self.velocity = Vec2Milli {
            x: fx::mul_div(self.velocity.x, m, 1000),
            y: fx::mul_div(self.velocity.y, m, 1000),
        };

        self.gravity_force = fx::sat_add(
            self.gravity_force, fx::mul_div(self.options.gravity, e, 1000));

        self.position = Vec2Milli {
            x: fx::sat_add(self.position.x, fx::mul_div(self.velocity.x, e, 1000)),
            y: fx::sat_add(
                fx::sat_add(self.position.y, fx::mul_div(self.velocity.y, e, 1000)),
                fx::mul_div(self.gravity_force, e, 1000),
            ),
        };

        let den: u64 = if self.options.lifetime_ms == 0 {
            1
        } else {
            self.options.lifetime_ms as u64
        };
        self.color = color::Color::lerp(
            self.options.start_color, self.options.end_color, age2, den);

        true
    }
}

} // verus!
