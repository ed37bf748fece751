//! Adaptive terminal-dashboard core: height-bucketed layout profiles,
//! sign-driven styling of fixed-point deltas, frame composition into a
//! tree of draw commands, raster-to-cell image blitting, and the tick
//! scheduler's state machine.
//!
//! Everything here is pure: the terminal backend, the HTTP quote source
//! and the JSON decoding live outside and hand this crate plain values.

pub mod blit;
pub mod compose;
pub mod geom;
pub mod layout;
pub mod num;
pub mod quote;
pub mod sched;
pub mod style;

pub use num::FixedNum;
