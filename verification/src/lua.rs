//! The host-facing surface: module and function handles as a script engine
//! sees them, and the verified half of dynamic invocation.

pub mod win_api;
pub mod win_function;
pub mod win_module;

pub use win_api::WinApi;
pub use win_function::{Invocation, WinFunction, MAX_INVOCATION_ARGS};
pub use win_module::WinModule;
