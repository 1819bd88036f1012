//! Core of a real-time 2D particle-effects simulator: emitters spawn
//! short-lived particles with randomized initial parameters, which are then
//! integrated frame-by-frame under gravity and drag and interpolated in color
//! over their lifetime.
//!
//! Numeric model: the simulator works in fixed-point integers throughout.
//! Continuous quantities (positions, velocities, drag coefficients, gravity)
//! are held in thousandths of a unit ("milli-units"), angles in thousandths of
//! a degree, and time in whole milliseconds injected by the caller, so that
//! every state transition is a deterministic, verifiable function of its
//! inputs plus the drawn random values.

pub mod color;
pub mod emitter;
pub mod fx;
pub mod fps_counter;
pub mod particle;
pub mod renderer;
pub mod sampler;
pub mod trig;
pub mod vec2;
