//! The emitter: a spawn-policy state machine that turns a configuration
//! template into newborn particles.
//!
//! An unset spawn cadence means burst mode: one `update` call emits the
//! whole remaining budget at once and the emitter is exhausted. A set
//! cadence means streaming mode: `update` accumulates elapsed time and
//! emits one particle per cadence interval crossed, resampling the cadence
//! after every spawn, until a finite budget runs out. The first streamed
//! spawn comes one cadence after creation. A sampled cadence of zero
//! degrades to one millisecond so a step always terminates.

use vstd::prelude::*;

use crate::color;
use crate::color::Color;
use crate::fx;
use crate::particle::{Particle, ParticleOptions};
use crate::sampler::{RangedOption, rand_range_i64, sample_ok_i64, sample_ok_u32};
use crate::trig;
use crate::vec2::Vec2Milli;

verus! {

/// The spawn region. Only `Point` is applied today: the other shapes are a
/// declared extension point that spawn positioning does not read yet.
#[derive(Clone, Copy)]
pub enum EmitShape {
    /// All particles spawn at the emitter's own position.
    Point,
    /// A circle around the position, radius in thousandths of a pixel.
    Circle(i64),
    /// A rectangle around the position, size in thousandths of a pixel.
    Rect(Vec2Milli),
}

/// The immutable template an emitter spawns from. Angles are in
/// thousandths of a degree measured clockwise from straight up; speeds in
/// thousandths of a pixel per second; color variations in thousandths of a
/// degree of hue; a `particle_count` of zero means unbounded.
#[derive(Clone, Copy)]
pub struct EmitterOptions {
    pub particle_count: usize,
    pub spawn_interval_ms: RangedOption<u32>,
    pub shape: EmitShape,
    pub emit_angle: RangedOption<i64>,
    pub emit_velocity: RangedOption<i64>,
    pub start_size: RangedOption<u32>,
    pub end_size: RangedOption<u32>,
    pub lifetime_ms: RangedOption<u32>,
    pub drag_coefficient: RangedOption<i64>,
    pub gravity: i64,
    pub start_color: u32,
    pub start_color_variation: i64,
    pub end_color: u32,
    pub end_color_variation: i64,
}

/// A particle source owned by the simulation driver. The position may be
/// re-pointed externally between steps.
pub struct Emitter {
    pub position: Vec2Milli,
    pub options: EmitterOptions,
    pub remaining_particle_count: usize,
    pub spawn_accum_ms: u64,
}

/// The velocity vector of a spawn: the emit angle (clockwise from up)
/// turned into a unit direction and scaled by the emit speed.
pub open spec fn vel_from(angle: int, speed: int) -> Vec2Milli {
    Vec2Milli {
        x: fx::scale64(speed, trig::cos_mdeg_spec(fx::sub64(angle, 90000)), 10000) as i64,
        y: fx::scale64(speed, trig::sin_mdeg_spec(fx::sub64(angle, 90000)), 10000) as i64,
    }
}

/// Everything one emitted particle owes to the template it came from:
/// each sampled field lies where its option allows, the velocity comes
/// from some admissible angle and speed, and each color is the base color
/// exactly when its variation is zero (or negative), else the base hue
/// rotated by a delta drawn from the half-open interval below the
/// variation.
pub open spec fn emitted_from(opts: EmitterOptions, position: Vec2Milli, p: Particle) -> bool {
    &&& p.position == position
    &&& p.age_ms == 0
    &&& p.gravity_force == 0
    &&& p.options.gravity == opts.gravity
    &&& sample_ok_u32(opts.start_size, 1, p.options.start_size)
    &&& p.size == p.options.start_size
    &&& sample_ok_u32(opts.end_size, 0, p.options.end_size)
    &&& sample_ok_u32(opts.lifetime_ms, 1000, p.options.lifetime_ms)
    &&& sample_ok_i64(opts.drag_coefficient, 0, p.options.drag_coefficient)
    &&& p.velocity == p.options.velocity
    &&& (exists |a: i64, s: i64|
            sample_ok_i64(opts.emit_angle, 0, a)
            && sample_ok_i64(opts.emit_velocity, 1000, s)
            && p.options.velocity == vel_from(a as int, s as int))
    &&& p.color == p.options.start_color
    &&& (opts.start_color_variation <= 0 ==> p.options.start_color == opts.start_color)
    &&& (opts.start_color_variation > 0 ==> exists |d: i64|
            -opts.start_color_variation <= d < opts.start_color_variation
            && p.options.start_color == color::hue_shift_spec(opts.start_color, d as int))
    &&& (opts.end_color_variation <= 0 ==> p.options.end_color == opts.end_color)
    &&& (opts.end_color_variation > 0 ==> exists |d: i64|
            -opts.end_color_variation <= d < opts.end_color_variation
            && p.options.end_color == color::hue_shift_spec(opts.end_color, d as int))
}

/// The largest whole step one streamed spawn can consume from the time
/// accumulator: the cadence itself when fixed, the upper bound of a
/// well-formed cadence range, and one millisecond where sampling falls back
/// to the default (a zero cadence degrades to one so a step always moves).
pub open spec fn max_step(o: RangedOption<u32>) -> int {
    match o {
        RangedOption::Unset => 1,
        RangedOption::FixedValue(c) => if c == 0 { 1int } else { c as int },
        RangedOption::BoundedRange(lo, hi) => if lo <= hi {
            if hi == 0 { 1int } else { hi as int }
        } else {
            1
        },
    }
}

/// The smallest whole step one streamed spawn can consume from the time
/// accumulator: the cadence itself when fixed, the lower bound of a
/// well-formed cadence range, and one millisecond otherwise — never less
/// than a millisecond, so spawning always consumes time.
pub open spec fn min_step(o: RangedOption<u32>) -> int {
    match o {
        RangedOption::Unset => 1,
        RangedOption::FixedValue(c) => if c == 0 { 1int } else { c as int },
        RangedOption::BoundedRange(lo, hi) => if lo <= hi {
            if lo == 0 { 1int } else { lo as int }
        } else {
            1
        },
    }
}

impl Emitter {
    /// Creates an emitter at `position` with its own copy of the template:
    /// the full budget remaining and no spawn time accumulated yet.
    pub fn new(position: Vec2Milli, opts: &EmitterOptions) -> (e: Emitter)
        ensures
            e.position == position,
            e.options == *opts,
            e.remaining_particle_count == opts.particle_count,
            e.spawn_accum_ms == 0,
    {
        Emitter {
            position,
            options: *opts,
            remaining_particle_count: opts.particle_count,
            spawn_accum_ms: 0,
        }
    }

    /// Spawns one particle into the sink: samples every randomized field
    /// independently, jitters the colors, and counts a finite budget down
    /// (never below zero). The spawn accumulator is untouched.
    pub fn emit(&mut self, particles: &mut Vec<Particle>)
        ensures
            final(self).position == old(self).position,
            final(self).options == old(self).options,
            final(self).spawn_accum_ms == old(self).spawn_accum_ms,
            final(self).remaining_particle_count
                == if old(self).options.particle_count != 0
                    && old(self).remaining_particle_count > 0 {
                    (old(self).remaining_particle_count - 1) as usize
                } else {
                    old(self).remaining_particle_count
                },
            final(particles)@.len() == old(particles)@.len() + 1,
            forall |i: int| 0 <= i < old(particles)@.len()
                ==> final(particles)@[i] == old(particles)@[i],
            emitted_from(old(self).options, old(self).position,
                final(particles)@[final(particles)@.len() - 1]),
    {
        if self.options.particle_count != 0 && self.remaining_particle_count > 0 {
            self.remaining_particle_count = self.remaining_particle_count - 1;
        }

        let start_size: u32 = self.options.start_size.sample(1);
        let end_size: u32 = self.options.end_size.sample(0);
        let lifetime_ms: u32 = self.options.lifetime_ms.sample(1000);
        let drag_coefficient: i64 = self.options.drag_coefficient.sample(0);

        let angle: i64 = self.options.emit_angle.sample(0);
        let speed: i64 = self.options.emit_velocity.sample(1000);
        let from_up: i64 = fx::sat_sub(angle, 90000);
        let velocity = Vec2Milli {
            x: fx::mul_div(speed, trig::cos_mdeg(from_up), 10000),
            y: fx::mul_div(speed, trig::sin_mdeg(from_up), 10000),
        };

        let start_color: u32 = if self.options.start_color_variation > 0 {
            let d = rand_range_i64(
                -self.options.start_color_variation, self.options.start_color_variation - 1);
            Color::hue_shift(self.options.start_color, d)
        } else {
            self.options.start_color
        };
        let end_color: u32 = if self.options.end_color_variation > 0 {
            let d = rand_range_i64(
                -self.options.end_color_variation, self.options.end_color_variation - 1);
            Color::hue_shift(self.options.end_color, d)
        } else {
            self.options.end_color
        };

        proof {
            assert(sample_ok_i64(self.options.emit_angle, 0, angle)
                && sample_ok_i64(self.options.emit_velocity, 1000, speed)
                && velocity == vel_from(angle as int, speed as int));
        }
        particles.push(Particle::new(self.position, &ParticleOptions {
            start_color,
            end_color,
            start_size,
            end_size,
            lifetime_ms,
            gravity: self.options.gravity,
            drag_coefficient,
            velocity,
        }));
    }

    /// Advances the spawn policy by `elapsed_ms` and reports whether the
    /// emitter is still active: `false` means exhausted, and the driver
    /// must drop it. In burst mode the whole remaining budget is emitted
    /// here and now; in streaming mode one particle is emitted per cadence
    /// interval crossed, and a finite budget that reaches zero exhausts
    /// the emitter immediately.
    pub fn update(&mut self, elapsed_ms: u32, particles: &mut Vec<Particle>) -> (active: bool)
        ensures
            final(self).position == old(self).position,
            final(self).options == old(self).options,
            final(particles)@.len() >= old(particles)@.len(),
            forall |i: int| 0 <= i < old(particles)@.len()
                ==> final(particles)@[i] == old(particles)@[i],
            forall |i: int| old(particles)@.len() <= i < final(particles)@.len()
                ==> emitted_from(old(self).options, old(self).position,
                    #[trigger] final(particles)@[i]),
            old(self).options.spawn_interval_ms is Unset ==> {
                &&& !active
                &&& final(self).spawn_accum_ms == old(self).spawn_accum_ms
                &&& old(self).options.particle_count != 0 ==> {
                    &&& final(particles)@.len() == old(particles)@.len()
                        + old(self).remaining_particle_count
                    &&& final(self).remaining_particle_count == 0
                }
                &&& old(self).options.particle_count == 0 ==> {
                    &&& final(particles)@.len() == old(particles)@.len()
                    &&& final(self).remaining_particle_count
                        == old(self).remaining_particle_count
                }
            },
            !(old(self).options.spawn_interval_ms is Unset) ==> {
                &&& active == (old(self).options.particle_count == 0
                    || final(self).remaining_particle_count > 0)
                &&& old(self).options.particle_count != 0
                    ==> final(particles)@.len() - old(particles)@.len()
                        == old(self).remaining_particle_count
                            - final(self).remaining_particle_count
                &&& old(self).options.particle_count == 0
                    ==> final(self).remaining_particle_count
                        == old(self).remaining_particle_count
                &&& final(self).spawn_accum_ms
                    <= fx::add64u(old(self).spawn_accum_ms as int, elapsed_ms as int)
                &&& active ==> final(self).spawn_accum_ms
                    < max_step(old(self).options.spawn_interval_ms)
                &&& ({
                    let total = fx::add64u(old(self).spawn_accum_ms as int, elapsed_ms as int);
                    let n = final(particles)@.len() - old(particles)@.len();
                    &&& total - final(self).spawn_accum_ms
                        <= n * max_step(old(self).options.spawn_interval_ms)
                    &&& total - final(self).spawn_accum_ms
                        >= n * min_step(old(self).options.spawn_interval_ms)
                })
            },
            old(self).options.spawn_interval_ms matches RangedOption::FixedValue(c) ==> {
                let total = fx::add64u(old(self).spawn_accum_ms as int, elapsed_ms as int);
                let step = if c == 0 { 1int } else { c as int };
                let n = final(particles)@.len() - old(particles)@.len();
                &&& final(self).spawn_accum_ms == total - n * step
                &&& n == if old(self).options.particle_count != 0
                        && old(self).remaining_particle_count < total / step {
                        old(self).remaining_particle_count as int
                    } else {
                        total / step
                    }
            },
    {
        match self.options.spawn_interval_ms {
            RangedOption::Unset => {
                if self.options.particle_count == 0 {
                    return false;
                }
                while self.remaining_particle_count > 0
                    invariant
                        self.position == old(self).position,
                        self.options == old(self).options,
                        self.options.particle_count != 0,
                        self.spawn_accum_ms == old(self).spawn_accum_ms,
                        particles@.len() == old(particles)@.len()
                            + old(self).remaining_particle_count
                            - self.remaining_particle_count,
                        self.remaining_particle_count
                            <= old(self).remaining_particle_count,
                        forall |i: int| 0 <= i < old(particles)@.len()
                            ==> particles@[i] == old(particles)@[i],
                        forall |i: int| old(particles)@.len() <= i < particles@.len()
                            ==> emitted_from(old(self).options, old(self).position,
                                #[trigger] particles@[i]),
                    decreases self.remaining_particle_count,
                {
                    self.emit(particles);
                }
                false
            },
            _ => {
                let total: u64 = fx::sat_add_u64(self.spawn_accum_ms, elapsed_ms as u64);
                self.spawn_accum_ms = total;
                let ghost step_g: int = match old(self).options.spawn_interval_ms {
                    RangedOption::FixedValue(c) => if c == 0 { 1int } else { c as int },
                    _ => 1int,
                };
                loop
                    invariant
                        step_g >= 1,
                        !(self.options.spawn_interval_ms is Unset),
                        self.position == old(self).position,
                        self.options == old(self).options,
                        particles@.len() >= old(particles)@.len(),
                        self.options.particle_count != 0
                            ==> particles@.len() - old(particles)@.len()
                                == old(self).remaining_particle_count
                                    - self.remaining_particle_count,
                        self.options.particle_count == 0
                            ==> self.remaining_particle_count
                                == old(self).remaining_particle_count,
                        self.options.spawn_interval_ms matches RangedOption::FixedValue(c)
                            ==> (if c == 0 { 1int } else { c as int }) == step_g
                                && self.spawn_accum_ms
                                    + (particles@.len() - old(particles)@.len()) * step_g
                                    == fx::add64u(old(self).spawn_accum_ms as int,
                                        elapsed_ms as int),
                        self.spawn_accum_ms
                            <= fx::add64u(old(self).spawn_accum_ms as int, elapsed_ms as int),
                        fx::add64u(old(self).spawn_accum_ms as int, elapsed_ms as int)
                            - self.spawn_accum_ms
                            <= (particles@.len() - old(particles)@.len())
                                * max_step(self.options.spawn_interval_ms),
                        fx::add64u(old(self).spawn_accum_ms as int, elapsed_ms as int)
                            - self.spawn_accum_ms
                            >= (particles@.len() - old(particles)@.len())
                                * min_step(self.options.spawn_interval_ms),
                        forall |i: int| 0 <= i < old(particles)@.len()
                            ==> particles@[i] == old(particles)@[i],
                        forall |i: int| old(particles)@.len() <= i < particles@.len()
                            ==> emitted_from(old(self).options, old(self).position,
                                #[trigger] particles@[i]),
                    ensures
                        self.position == old(self).position,
                        self.options == old(self).options,
                        particles@.len() >= old(particles)@.len(),
                        self.options.particle_count != 0
                            ==> particles@.len() - old(particles)@.len()
                                == old(self).remaining_particle_count
                                    - self.remaining_particle_count
                                && self.remaining_particle_count > 0,
                        self.options.particle_count == 0
                            ==> self.remaining_particle_count
                                == old(self).remaining_particle_count,
                        self.options.spawn_interval_ms matches RangedOption::FixedValue(c)
                            ==> ({
                                let total_g = fx::add64u(old(self).spawn_accum_ms as int,
                                    elapsed_ms as int);
                                let n = particles@.len() - old(particles)@.len();
                                n == total_g / step_g
                                    && self.spawn_accum_ms == total_g - n * step_g
                            }),
                        self.spawn_accum_ms
                            <= fx::add64u(old(self).spawn_accum_ms as int, elapsed_ms as int),
                        self.spawn_accum_ms < max_step(self.options.spawn_interval_ms),
                        fx::add64u(old(self).spawn_accum_ms as int, elapsed_ms as int)
                            - self.spawn_accum_ms
                            <= (particles@.len() - old(particles)@.len())
                                * max_step(self.options.spawn_interval_ms),
                        fx::add64u(old(self).spawn_accum_ms as int, elapsed_ms as int)
                            - self.spawn_accum_ms
                            >= (particles@.len() - old(particles)@.len())
                                * min_step(self.options.spawn_interval_ms),
                        forall |i: int| 0 <= i < old(particles)@.len()
                            ==> particles@[i] == old(particles)@[i],
                        forall |i: int| old(particles)@.len() <= i < particles@.len()
                            ==> emitted_from(old(self).options, old(self).position,
                                #[trigger] particles@[i]),
                    decreases self.spawn_accum_ms,
                {
                    if self.options.particle_count != 0
                        && self.remaining_particle_count == 0 {
                        proof {
                            lemma_streaming_exhausted(
                                old(self).options.spawn_interval_ms,
                                step_g,
                                particles@.len() - old(particles)@.len(),
                                self.spawn_accum_ms as int,
                                fx::add64u(old(self).spawn_accum_ms as int, elapsed_ms as int),
                            );
                        }
                        return false;
                    }
                    let c: u32 = self.options.spawn_interval_ms.sample(0);
                    let step: u64 = if c == 0 { 1 } else { c as u64 };
                    if self.spawn_accum_ms < step {
                        proof {
                            assert(step <= max_step(self.options.spawn_interval_ms));
                            lemma_streaming_drained(
                                old(self).options.spawn_interval_ms,
                                step_g,
                                particles@.len() - old(particles)@.len(),
                                self.spawn_accum_ms as int,
                                fx::add64u(old(self).spawn_accum_ms as int, elapsed_ms as int),
                            );
                        }
                        break;
                    }
                    let ghost n_prev: int = particles@.len() - old(particles)@.len();
                    self.emit(particles);
                    self.spawn_accum_ms = self.spawn_accum_ms - step;
                    proof {
                        let ms = max_step(self.options.spawn_interval_ms);
                        let mns = min_step(self.options.spawn_interval_ms);
                        assert(mns <= step as int <= ms);
                        assert((n_prev + 1) * step_g == n_prev * step_g + step_g)
                            by (nonlinear_arith);
                        assert((n_prev + 1) * ms == n_prev * ms + ms) by (nonlinear_arith);
                        assert((n_prev + 1) * mns == n_prev * mns + mns) by (nonlinear_arith);
                    }
                }
                true
            },
        }
    }
}

/// For a fixed cadence: when the budget ran out after `n` spawns, `n` is no
/// more than the number of whole cadence intervals in the accumulated time.
proof fn lemma_streaming_exhausted(o: RangedOption<u32>, step: int, n: int, acc: int, total: int)
    requires
        o matches RangedOption::FixedValue(c) ==> (if c == 0 { 1int } else { c as int }) == step
            && acc + n * step == total,
        step >= 1,
        n >= 0,
        acc >= 0,
    ensures
        o matches RangedOption::FixedValue(c) ==> n <= total / step
            && acc == total - n * step,
{
    if o is FixedValue {
        vstd::arithmetic::div_mod::lemma_div_is_ordered(n * step, total, step);
        vstd::arithmetic::div_mod::lemma_div_by_multiple(n, step);
    }
}

/// For a fixed cadence: when less than one cadence interval is left in the
/// accumulator, the spawn count is exactly the number of whole intervals.
proof fn lemma_streaming_drained(o: RangedOption<u32>, step: int, n: int, acc: int, total: int)
    requires
        o matches RangedOption::FixedValue(c) ==> (if c == 0 { 1int } else { c as int }) == step
            && acc + n * step == total
            && acc < step,
        step >= 1,
        n >= 0,
        acc >= 0,
    ensures
        o matches RangedOption::FixedValue(c) ==> n == total / step
            && acc == total - n * step,
{
    if o is FixedValue {
        vstd::arithmetic::div_mod::lemma_fundamental_div_mod_converse_div(
            total, step, n, acc);
    }
}

} // verus!
