//! Orchestration core of a GPU compute simulation whose parameters come from an
//! asset file, are uploaded to device memory once, and are consumed each frame by
//! a compute pass.
//!
//! The crate holds no GPU, window or file handle. Every phase of a frame is a
//! function over an explicit context; what has to reach the device is recorded
//! as plain data, in order, for a backend to carry out.
//!
//! A frame runs its phases in a fixed order, none of which waits for anything:
//!
//! 1. [`world::extract_slime`] copies the current handle to the render side;
//! 2. [`world::prepare_assets`] gives every new record a buffer on the device
//!    and uploads the record's bytes ([`record::Slime::to_bytes`]);
//! 3. [`bind_group::queue_bind_group`] builds the bind group over the buffer
//!    of the current record, or skips the frame while there is none;
//! 4. [`node::SlimeNode::update`] asks the pipeline cache whether the pipeline
//!    is compiled, and moves from loading to updating once it is;
//! 5. [`node::SlimeNode::run`] records the compute pass: one dispatch once the
//!    node is updating, none before.
//!
//! [`App::update`] runs the five in that order. [`SlimeComputePlugin::build`]
//! sets up what they work on, and [`SlimeLoader::load`] decides what a load
//! publishes.

pub mod app;
pub mod asset;
pub mod bind_group;
pub mod device;
pub mod graph;
pub mod loader;
pub mod node;
pub mod pipeline;
pub mod record;
pub mod world;

pub use app::{App, SlimeComputePlugin};
pub use loader::SlimeLoader;
pub use pipeline::SlimePipeline;
