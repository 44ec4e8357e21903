//! Native-shell logic of a desktop markdown viewer: the menu mirror, the
//! routing of menu activations, the file-type association toggle and the
//! command-line launcher installer, as verified decisions over plain values.

pub mod text;
pub mod menu;
pub mod state;
pub mod assoc;
pub mod install;
pub mod path;
pub mod router;

pub use path::FileResult;
