//! Surface values as the context core sees them: the owning-context
//! identity, the native drawable, and the reported surface information.
//!
//! Surfaces are created and destroyed by the surface subsystem; this
//! core only holds a surface while it is bound to a context and hands
//! ownership back to the caller on unbind.

use vstd::prelude::*;

use crate::context::ContextID;

verus! {

/// The native drawable a surface renders to: an off-screen GLX pixmap
/// (with its backing X pixmap) or an on-screen window.
#[derive(Clone, Copy, PartialEq, Eq, Structural, Debug)]
pub enum SurfaceDrawables {
    /// Off-screen rendering to a GLX pixmap.
    Pixmap {
        /// The GLX pixmap handle.
        glx_pixmap: u64,
        /// The backing X pixmap handle.
        pixmap: u64,
    },
    /// On-screen rendering to a window.
    Window {
        /// The window handle.
        window: u64,
    },
}

impl SurfaceDrawables {
    /// The handle handed to the native make-current entry point.
    pub open spec fn spec_handle(self) -> u64 {
        match self {
            SurfaceDrawables::Pixmap { glx_pixmap, .. } => glx_pixmap,
            SurfaceDrawables::Window { window } => window,
        }
    }
}

/// A surface extent in pixels.
#[derive(Clone, Copy, PartialEq, Eq, Structural, Debug)]
pub struct SurfaceSize {
    /// Width in pixels.
    pub width: i32,
    /// Height in pixels.
    pub height: i32,
}

/// A surface's own identity, derived from its native drawable handle.
#[derive(Clone, Copy, PartialEq, Eq, Structural, Debug)]
pub struct SurfaceID(pub u64);

/// A drawing surface.  The surface subsystem owns its pixel storage;
/// the context core holds the value while it is bound and enforces
/// that it is only ever bound to the context it was created for.
#[derive(Clone, Copy, PartialEq, Eq, Structural, Debug)]
pub struct Surface {
    /// Identity of the context the surface was created for.
    pub context_id: ContextID,
    /// The native drawable the surface renders to.
    pub drawables: SurfaceDrawables,
    /// The surface's extent.
    pub size: SurfaceSize,
}

/// What is reported about a surface: its extent, its own identity and
/// its owning context's identity.
#[derive(Clone, Copy, PartialEq, Eq, Structural, Debug)]
pub struct SurfaceInfo {
    /// The surface's extent.
    pub size: SurfaceSize,
    /// The surface's own identity.
    pub id: SurfaceID,
    /// Identity of the context the surface was created for.
    pub context_id: ContextID,
}

/// The information reported for `s`.
pub open spec fn spec_surface_info(s: Surface) -> SurfaceInfo {
    SurfaceInfo {
        size: s.size,
        id: SurfaceID(s.drawables.spec_handle()),
        context_id: s.context_id,
    }
}

} // verus!
