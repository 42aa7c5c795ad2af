//! Attribute value objects: capability flags, GL versions, and the pair
//! of both that a caller requests of a context.

use vstd::prelude::*;

verus! {

/// Capabilities requested of a context's pixel format: presence of
/// alpha, depth and stencil channels.
#[derive(Clone, Copy, PartialEq, Eq, Structural, Debug)]
pub struct ContextAttributeFlags {
    /// An alpha channel is requested.
    pub alpha: bool,
    /// A depth buffer is requested.
    pub depth: bool,
    /// A stencil buffer is requested.
    pub stencil: bool,
}

impl ContextAttributeFlags {
    /// No capabilities requested.
    pub fn empty() -> (r: ContextAttributeFlags)
        ensures
            !r.alpha,
            !r.depth,
            !r.stencil,
    {
        ContextAttributeFlags {
            alpha: false,
            depth: false,
            stencil: false,
        }
    }
}

/// An OpenGL version, as a major/minor pair.
#[derive(Clone, Copy, PartialEq, Eq, Structural, Debug)]
pub struct GLVersion {
    /// Major version number.
    pub major: u8,
    /// Minor version number.
    pub minor: u8,
}

impl GLVersion {
    /// Packs a major/minor pair into a version value.
    pub fn new(major: u8, minor: u8) -> (r: GLVersion)
        ensures
            r.major == major,
            r.minor == minor,
    {
        GLVersion { major, minor }
    }
}

/// Everything a caller requests of a context: capability flags and the
/// targeted GL version.
#[derive(Clone, Copy, PartialEq, Eq, Structural, Debug)]
pub struct ContextAttributes {
    /// Requested capability flags.
    pub flags: ContextAttributeFlags,
    /// Requested GL version.
    pub version: GLVersion,
}

} // verus!
