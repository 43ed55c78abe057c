use vstd::prelude::*;

verus! {

/// The ways an operation of this crate can fail.
///
/// `CompileError` and `LinkError` carry the driver's diagnostic log.
/// `IOError` carries a description of why a shader source could not be read.
/// `OutOfRange` and `InvalidArgument` report violated bounds of the
/// line-expansion routine: a segment count that exceeds the available
/// points, and a negative segment count, respectively.
#[derive(Debug, PartialEq, Eq)]
pub enum GlError {
    CompileError(String),
    LinkError(String),
    IOError(String),
    OutOfRange,
    InvalidArgument,
}

} // verus!
