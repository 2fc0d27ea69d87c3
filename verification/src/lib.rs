//! Verified bookkeeping for Direct3D 12 programs: descriptor heap layout,
//! descriptions of resources and pipeline states, fence counting, frame
//! pacing, and what a sample decides about its window, its keys and the
//! command lists of a frame.
//!
//! Nothing here talks to the graphics driver. Every value that the driver
//! hands out is taken as a plain number, and everything the driver is to be
//! given is returned as one. Objects of the driver that are only kept, such
//! as command allocators and command lists, are kept as values of a type
//! that the caller chooses.

pub mod command_queue;
pub mod descriptor_heaps;
pub mod device;
pub mod frames;
pub mod input;
pub mod pipeline_states;
pub mod rendering;
pub mod resources;
pub mod sample;
pub mod swap_chain;
pub mod texture;
pub mod timer;
