//! Orbital mechanics and adaptive-precision rendering core of a celestial-body
//! simulator, in exact integer units.
//!
//! Angles are counted in fractions of a turn (`TURN` units per revolution), lengths
//! in micro-units of the simulation's length unit, time in microseconds, and sines
//! and cosines as fixed-point values with `TRIG_ONE` standing for 1.
pub mod units;
pub mod kepler;
pub mod body;
pub mod frames;
pub mod clock;
pub mod trail;
pub mod view;
pub mod system;
pub mod info;
pub mod catalog;
pub mod blocks;
