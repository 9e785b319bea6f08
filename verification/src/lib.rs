//! A small 3D scene engine with verified spatial logic.
//!
//! The engine keeps a tree of game objects, each carrying a world-space
//! transform (position, rotation, scale) and a shape tag.  Edits applied to a
//! node propagate through its subtree so that world-space positions stay
//! consistent, and spatial queries (point containment, ray intersection)
//! read the resulting transforms.
//!
//! All geometry is carried out over a fixed-point scalar with sixteen
//! fractional bits, so every operation has an exact mathematical meaning
//! that the contracts state and the proofs establish.

pub mod collision;
pub mod fixed;
pub mod game_object;
pub mod quat;
pub mod raycast;
pub mod shapes;
pub mod transform;
pub mod trig;
pub mod utilities;
pub mod vec3;

pub use fixed::Fx;
pub use game_object::GameObject;
pub use quat::Quaternion;
pub use shapes::ShapeKind;
pub use transform::Transform;
pub use vec3::Vec3;
pub use vec3::Vec4;
