//! A GPU resource handle: a tagged (kind, native handle) pair.
//!
//! A resource is created empty (handle 0, kind `Invalid`), allocated lazily on
//! first use, and released exactly once by its owner.

use vstd::prelude::*;

verus! {

/// The role a native GPU object plays. `Invalid` marks a resource that has
/// not been allocated (or has already been released).
#[derive(Copy, Debug, Clone, PartialEq, Eq, Structural)]
pub enum Type {
    Invalid,
    IndexBuffer,
    ArrayBuffer,
    UniformBuffer,
    Framebuffer,
    Texture,
}

impl Default for Type {
    fn default() -> (t: Type)
        ensures
            t == Type::Invalid,
    {
        Type::Invalid
    }
}

/// An owned native handle together with the role it was allocated for.
/// Handle 0 means unallocated; a released resource returns to that state.
#[derive(Copy, Debug, Clone, PartialEq, Eq, Structural)]
pub struct GPUResource {
    pub handle: u32,
    pub resource_type: Type,
}

impl Default for GPUResource {
    fn default() -> (r: GPUResource)
        ensures
            r == (GPUResource { handle: 0, resource_type: Type::Invalid }),
    {
        GPUResource { handle: 0, resource_type: Type::Invalid }
    }
}

} // verus!
