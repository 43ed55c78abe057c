use vstd::prelude::*;

use crate::error::GlError;

verus! {

/// Driver status value meaning a compile or link step succeeded.
pub const GL_STATUS_TRUE: i32 = 1;

/// Driver enum value naming a vertex shader object.
pub const GL_VERTEX_SHADER: u32 = 0x8B31;

/// Driver enum value naming a fragment shader object.
pub const GL_FRAGMENT_SHADER: u32 = 0x8B30;

/// The two shader stages this helper layer compiles.
#[derive(Clone, Copy, PartialEq, Eq, Structural, Debug)]
pub enum ShaderKind {
    Vertex,
    Fragment,
}

impl ShaderKind {
    /// The driver enum value for this stage, as handed to the shader
    /// creation call.
    pub fn gl_enum(&self) -> (r: u32)
        ensures
            self is Vertex ==> r == GL_VERTEX_SHADER,
            self is Fragment ==> r == GL_FRAGMENT_SHADER,
    {
        match self {
            ShaderKind::Vertex => GL_VERTEX_SHADER,
            ShaderKind::Fragment => GL_FRAGMENT_SHADER,
        }
    }
}

/// Decides the result of a shader compilation: the driver-reported status
/// becomes `Ok` with the shader handle exactly when it equals
/// `GL_STATUS_TRUE`, and otherwise the diagnostic log becomes a
/// `CompileError`. The handle must not be used after a failure.
pub fn compile_outcome(shader: u32, status: i32, log: String) -> (r: Result<u32, GlError>)
    ensures
        status == GL_STATUS_TRUE ==> r == Ok::<u32, GlError>(shader),
        status != GL_STATUS_TRUE ==> r == Err::<u32, GlError>(GlError::CompileError(log)),
{
    if status == GL_STATUS_TRUE {
        Ok(shader)
    } else {
        Err(GlError::CompileError(log))
    }
}

/// Decides the result of a program link, as `compile_outcome` does for a
/// compilation, with the log carried as a `LinkError` instead.
pub fn link_outcome(program: u32, status: i32, log: String) -> (r: Result<u32, GlError>)
    ensures
        status == GL_STATUS_TRUE ==> r == Ok::<u32, GlError>(program),
        status != GL_STATUS_TRUE ==> r == Err::<u32, GlError>(GlError::LinkError(log)),
{
    if status == GL_STATUS_TRUE {
        Ok(program)
    } else {
        Err(GlError::LinkError(log))
    }
}

/// Appends the two shader handles of a freshly linked program to the
/// caller's ownership list, vertex first, so they can be released later.
pub fn record_shaders(shaders: &mut Vec<u32>, vs: u32, fs: u32)
    ensures
        final(shaders)@ == old(shaders)@.push(vs).push(fs),
{
    shaders.push(vs);
    shaders.push(fs);
}

} // verus!
