//! Verified core of a small helper layer for a GL-style renderer.
//!
//! The heart of the crate is the line-strip expansion: turning a polyline
//! into a flat buffer of per-segment quad vertex records ready for a vertex
//! buffer upload. Around it stand the decision rules of the helper layer:
//! how a shader compile or program link outcome becomes a result, and how a
//! driver error code is classified for the diagnostic poll. The unverifiable
//! driver calls themselves live outside this crate.

pub mod diag;
pub mod error;
pub mod geometry;
pub mod shader;

pub use diag::DriverError;
pub use error::GlError;
pub use geometry::Point;
pub use geometry::expand_path_to_quads;
