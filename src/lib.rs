//! The deterministic core of a tick-based 2D game: Q16.16 fixed-point math, a
//! generational entity registry with sparse-set component tables, a fixed-timestep
//! clock that decouples simulation ticks from the frame rate, and the per-frame
//! batching rules of a renderer that groups draws by transform and grows its
//! buffers geometrically.

pub mod flint;
pub mod vec2;
pub mod entity;
pub mod sparse_set;
pub mod morph;
pub mod color;
pub mod timestep;
pub mod batch;
pub mod components;
pub mod systems;
pub mod forge;
pub mod commands;
pub mod cosmos;
