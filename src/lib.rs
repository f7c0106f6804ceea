//! Skeletal rig of a two-character ragdoll: the fixed skeleton, local to world
//! propagation of per-part transforms, the rest pose of each character, and
//! the mapping from normalized hand controls to shoulder and elbow angles.
pub mod skeleton;
pub mod part;
pub mod body;
pub mod player;
pub mod rest;
pub mod control;
pub mod state;
