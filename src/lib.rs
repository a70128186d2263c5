//! Core of an interactive 2D vector-shape editor: path construction from
//! pointer input, z-order bookkeeping for overlapping shapes, direct
//! manipulation of a shape's transform, and origin recentering.
//!
//! All coordinates are integers in world units; angles are binary angles
//! (a full turn is `FULL_TURN` units); rotations of vectors go through a
//! fixed-point `Frame` that the host computes from an angle.

pub mod geometry;
pub mod helpers;
pub mod editor;
pub mod custom_shape;
pub mod overlap_order;
pub mod shape_transformation;
pub mod keyboard_input;
pub mod tools;
