//! Process and module handles, and the resolution rules over them.
//!
//! The operating-system queries themselves (enumerating modules, reading a
//! module's base name, resolving an exported symbol) happen outside this
//! library; their plain results — handles, names, addresses — are handed to
//! the functions here, which hold the resolution rules.

pub mod module;
pub mod process;

pub use module::Module;
pub use process::{ModuleInfo, Process};
