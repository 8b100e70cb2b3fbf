//! Host side of a bridge into a managed .NET runtime: request marshaling,
//! response decoding, payload layout, and the one-time hosting lifecycle.

pub mod error;
pub mod host;
pub mod layout;
pub mod lifecycle;
pub mod marshal;
