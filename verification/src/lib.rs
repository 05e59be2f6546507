//! A discrete-state cellular automaton on an irregular point cloud spread
//! over the surface of a sphere. Each point holds one of three materials;
//! a step recomputes every point's five nearest neighbours and applies a
//! fixed transition table to the neighbour tallies, updating all points
//! synchronously from one pre-step snapshot.

pub mod engine;
pub mod generate;
pub mod geometry;
pub mod laws;
pub mod material;
pub mod playback;
pub mod point;
