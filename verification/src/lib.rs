//! Dynamic native-layout and invocation library.
//!
//! Describes native data layouts at runtime (primitive and struct type
//! descriptors), constructs typed values with address-stable backing cells,
//! lays struct instances out in tiered, address-stable byte buffers, and
//! prepares arity-dispatched calls of functions addressed only by a raw
//! machine address.

pub mod encoding;
pub mod error;
pub mod lua;
pub mod render;
pub mod types;
pub mod win;

pub use error::Error;
