//! Recognition of two-finger pinch and pan gestures from a stream of pointer
//! events, over fixed-point coordinates.

pub mod geometry;
pub mod event;
pub mod tracker;
pub mod gesture;
pub mod recognizer;
pub mod behaviour;
