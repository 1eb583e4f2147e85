//! A voxel world of blocks that form redstone circuits.
//!
//! Blocks sit in a sparse grid of integer cells. Some of them emit power,
//! dust carries it from cell to cell and loses one level per hop, lamps and
//! torches react to it, buttons give it for a while. Every change to the
//! world is a request: requests are queued, applied once per frame, and what
//! follows from them is worked off in ticks, at once or at a later step of
//! the clock.
//!
//! The modules, from the bottom up:
//!
//! - [`block_position`]: cells and offsets;
//! - [`blocks`]: the kinds of block, the power each emits, and how each
//!   reacts to being placed, to a change next to it and to its tick;
//! - [`grid`]: the blocks by position, and the power that reaches a cell;
//! - [`redstone`]: the shapes of dust, delays, the scheduler and the clock;
//! - [`changes`]: the requests and their queue;
//! - [`render`]: the sets of positions that wait for a look at their
//!   surroundings or for being drawn again;
//! - [`materials`]: which texture and shade a piece of dust has;
//! - [`world`]: the world as one value, and a frame as a function on it;
//! - [`systems`]: the passes of a frame over the parts of the world;
//! - [`interactions`]: what a click asks for;
//! - [`simulation`]: the world behind an interface of a few calls;
//! - [`laws`]: what holds of all this, whatever the world looks like;
//! - [`collections`]: the hashed set and map of the engine, whose behaviour
//!   is taken on trust.
//!
//! Every function states what it does over the values in [`world`] and the
//! views of the types, and is proved to do so.

pub mod block_position;
pub mod blocks;
pub mod changes;
pub mod collections;
pub mod grid;
pub mod interactions;
pub mod laws;
pub mod materials;
pub mod redstone;
pub mod render;
pub mod simulation;
pub mod systems;
pub mod world;

pub use block_position::BlockPos;
pub use blocks::BlockType;
pub use grid::{BlockData, Grid};
pub use simulation::World;
