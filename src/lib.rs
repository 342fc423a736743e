//! Locates the `clice` language server on the editor's search path and builds
//! the command line that starts it.

pub mod extension;
mod host;
pub mod laws;
pub mod path;
pub mod resolver;
