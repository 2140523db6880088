//! Iteration adapters for indexable and callable objects, and a seedable
//! random engine with a reproducible Mersenne Twister mode.

pub mod iter;
pub mod random;
