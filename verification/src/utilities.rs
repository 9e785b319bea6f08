//! Physics and interpolation helpers that consume transform positions:
//! they compute target positions for nodes each step, but take no part in
//! hierarchy propagation.

pub mod math;
pub mod second_order_dynamics;
pub mod spring;
pub mod verlet;
