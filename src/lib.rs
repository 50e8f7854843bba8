//! Verified decision rules for directed, time-stamped 2D segments: which
//! side of a segment's line a point falls on, which component an index
//! selects, and which endpoint a derived segment is anchored at.

pub mod anchor;
pub mod component;
pub mod side;
