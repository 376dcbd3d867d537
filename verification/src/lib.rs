//! Core of a static site generator: front-matter splitting, metadata
//! defaulting, template resolution and rendering, directory mirroring and
//! asset resolution, with machine-checked contracts. File and directory
//! I/O stays outside; this crate computes every decision the pipeline makes.

pub mod assets;
pub mod errors;
pub mod loader;
pub mod meta;
pub mod paths;
pub mod pipeline;
pub mod registry;
pub mod renderer;
pub mod split;
pub mod walker;
