//! Verified gameplay controllers for a 3D scene: a debug camera rig and a kinematic character
//! controller.
//!
//! The controllers decide and compute; they touch no scene. A host samples the input and the
//! clock once per tick, hands them over as plain values, and applies what comes back: to the
//! camera's transform and field of view, and to the collision resolver that moves the
//! character and reports whether it stands on the ground.
//!
//! Every quantity is a fixed-point number, see [`fixed`]. In every frame `x` points right, `y`
//! up and `z` back. Orientations stay with the host: where a movement depends on one, the
//! controllers give it in the frame of the camera or of the character, and the host turns it
//! into the world's frame.
pub mod camera;
pub mod character;
pub mod fixed;
pub mod vector;
