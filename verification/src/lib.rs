//! Generation of mock implementations for traits and foreign function blocks.
pub mod args;
pub mod expand;
pub mod foreign;
pub mod laws;
pub mod model;
pub mod placement;
pub mod recorder;
pub mod registry;
pub mod syntax;
pub mod templates;
pub mod tokens;
pub mod traits;
