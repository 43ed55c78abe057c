use vstd::prelude::*;

verus! {

/// Driver error code meaning "no pending error"; polling stops here.
pub const GL_NO_ERROR: u32 = 0;

/// Driver error code for an enum argument out of range.
pub const GL_INVALID_ENUM: u32 = 0x0500;

/// Driver error code for a numeric argument out of range.
pub const GL_INVALID_VALUE: u32 = 0x0501;

/// Driver error code for an operation illegal in the current state.
pub const GL_INVALID_OPERATION: u32 = 0x0502;

/// Driver error code for memory exhaustion.
pub const GL_OUT_OF_MEMORY: u32 = 0x0505;

/// Driver error code for an operation on an incomplete framebuffer.
pub const GL_INVALID_FRAMEBUFFER_OPERATION: u32 = 0x0506;

/// How many pending error codes one diagnostic poll will drain at most,
/// so that a driver which never clears its error state cannot hang the
/// caller.
pub const MAX_ERROR_DRAIN: u32 = 64;

/// A classified driver error, as reported by the diagnostic poll.
///
/// These are informational only: they are logged, never used for control
/// flow. A code outside the known set is kept as `Unrecognized`.
#[derive(Clone, Copy, PartialEq, Eq, Structural, Debug)]
pub enum DriverError {
    InvalidOperation,
    InvalidEnum,
    InvalidValue,
    OutOfMemory,
    InvalidFramebufferOperation,
    Unrecognized,
}

impl DriverError {
    /// The human-readable tag printed for this error; empty for a code the
    /// classification does not recognize.
    pub fn tag(&self) -> (r: String)
        ensures
            self is InvalidOperation ==> r@ == "INVALID_OPERATION"@,
            self is InvalidEnum ==> r@ == "INVALID_ENUM"@,
            self is InvalidValue ==> r@ == "INVALID_VALUE"@,
            self is OutOfMemory ==> r@ == "OUT_OF_MEMORY"@,
            self is InvalidFramebufferOperation ==> r@ == "INVALID_FRAMEBUFFER_OPERATION"@,
            self is Unrecognized ==> r@ == ""@,
    {
        match self {
            DriverError::InvalidOperation => String::from_str("INVALID_OPERATION"),
            DriverError::InvalidEnum => String::from_str("INVALID_ENUM"),
            DriverError::InvalidValue => String::from_str("INVALID_VALUE"),
            DriverError::OutOfMemory => String::from_str("OUT_OF_MEMORY"),
            DriverError::InvalidFramebufferOperation => String::from_str(
                "INVALID_FRAMEBUFFER_OPERATION",
            ),
            DriverError::Unrecognized => String::from_str(""),
        }
    }
}

/// Classifies one polled driver error code.
///
/// `None` means the driver reported no pending error and the poll must
/// stop; any other code classifies to the matching `DriverError`, with
/// unknown codes kept as `Unrecognized` so that draining continues.
pub fn classify_gl_error(code: u32) -> (r: Option<DriverError>)
    ensures
        r is None <==> code == GL_NO_ERROR,
        code == GL_INVALID_OPERATION ==> r == Some(DriverError::InvalidOperation),
        code == GL_INVALID_ENUM ==> r == Some(DriverError::InvalidEnum),
        code == GL_INVALID_VALUE ==> r == Some(DriverError::InvalidValue),
        code == GL_OUT_OF_MEMORY ==> r == Some(DriverError::OutOfMemory),
        code == GL_INVALID_FRAMEBUFFER_OPERATION ==> r == Some(
            DriverError::InvalidFramebufferOperation,
        ),
        code != GL_NO_ERROR && code != GL_INVALID_OPERATION && code != GL_INVALID_ENUM && code
            != GL_INVALID_VALUE && code != GL_OUT_OF_MEMORY && code
            != GL_INVALID_FRAMEBUFFER_OPERATION ==> r == Some(DriverError::Unrecognized),
{
    if code == GL_NO_ERROR {
        None
    } else if code == GL_INVALID_OPERATION {
        Some(DriverError::InvalidOperation)
    } else if code == GL_INVALID_ENUM {
        Some(DriverError::InvalidEnum)
    } else if code == GL_INVALID_VALUE {
        Some(DriverError::InvalidValue)
    } else if code == GL_OUT_OF_MEMORY {
        Some(DriverError::OutOfMemory)
    } else if code == GL_INVALID_FRAMEBUFFER_OPERATION {
        Some(DriverError::InvalidFramebufferOperation)
    } else {
        Some(DriverError::Unrecognized)
    }
}

} // verus!
