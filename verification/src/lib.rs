//! Exact geometric algebra for a minimal renderer: vectors, points, surface
//! normals and axis-aligned bounding boxes over machine integers, with the
//! algebraic laws the shading pipeline relies on proved once and for all.

pub mod bounds;
pub mod model;
pub mod normal;
pub mod point;
pub mod vector;
