//! A walker on the plane that moves once per frame, either by a biased random
//! step or by a smooth drift that follows coherent noise.
//!
//! Every quantity is a fixed-point number held in an integer that counts
//! millionths (see [`fixed::SCALE`]), so that the motion is exact and can be
//! stated over the integers.

pub mod fixed;
pub mod mode;
pub mod motion;
pub mod remap;
mod rng;
pub mod step;
