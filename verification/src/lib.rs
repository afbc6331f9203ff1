//! Interval algebra over an ordered element type.

pub mod endpoint;
pub mod endpoint_laws;
pub mod interval;
pub mod interval_laws;
pub mod ops;

pub use endpoint::Endpoint;
pub use interval::Interval;
