//! Per-tick physics kernel for a stack of vertically falling, squash-and-stretch
//! "slime" cells arranged in columns of an abstract board.
//!
//! All physical quantities are fixed-point numbers: an `i64` holding thousandths
//! of a unit, saturating at `FX_MAX`. The kernel never stores cell data itself;
//! it reads and writes cells through the board capability traits in [`board`].

pub mod board;
pub mod cell;
pub mod fixed;

pub use board::{Direction, JiggleImpulsable, JigglePropagation, JigglyBoard, MutSlime};
pub use cell::{PhysicsProperties, SlimePropsIn, SlimePropsOut, SlimeState};
