//! The Current-Context Switch: resolving which native drawable a
//! context renders to, detaching the thread's current context, and
//! planning the flush that precedes unbinding.
//!
//! The native make-current entry point runs in the unverified shell;
//! this module decides its exact arguments and interprets its status.

use vstd::prelude::*;

use crate::context::Context;
use crate::context::Framebuffer;
use crate::device::Device;
use crate::error::Error;
use crate::surface::SurfaceDrawables;

verus! {

/// The exact arguments the native make-current entry point is to be
/// invoked with: display, drawable and context handles.
#[derive(Clone, Copy, PartialEq, Eq, Structural, Debug)]
pub struct MakeCurrentRequest {
    /// The native display handle.
    pub display: u64,
    /// The native drawable handle; zero detaches.
    pub glx_drawable: u64,
    /// The native context handle; zero detaches.
    pub glx_context: u64,
}

/// The drawable a context renders to: the bound surface's drawable
/// when bound, the scratch drawable when unbound.  Meaningful only for
/// a non-external binding state.
pub open spec fn spec_current_drawable(c: Context) -> u64 {
    match c.framebuffer {
        Framebuffer::Bound(s) => s.drawables.spec_handle(),
        _ => c.dummy_glx_pixmap,
    }
}

impl Device {
    /// Resolves the native make-current invocation for `context`: the
    /// bound surface's drawable when bound, the scratch drawable when
    /// unbound.  On an adopted context it always fails with
    /// `ExternalRenderTarget` and no invocation is produced — the real
    /// render target is unknown and must never be overwritten.  The
    /// shell performs the returned request and feeds the reported
    /// status to [`make_current_result`].
    pub fn make_context_current(&self, context: &Context) -> (r: Result<MakeCurrentRequest, Error>)
        requires
            !context.spec_is_destroyed(),
        ensures
            context.framebuffer is External ==> r == Err::<MakeCurrentRequest, Error>(
                Error::ExternalRenderTarget,
            ),
            !(context.framebuffer is External) ==> r == Ok::<MakeCurrentRequest, Error>(
                MakeCurrentRequest {
                    display: self.display,
                    glx_drawable: spec_current_drawable(*context),
                    glx_context: context.native_context.spec_glx_context(),
                },
            ),
    {
        let glx_drawable = match context.framebuffer {
            Framebuffer::Bound(s) => match s.drawables {
                SurfaceDrawables::Pixmap { glx_pixmap, .. } => glx_pixmap,
                SurfaceDrawables::Window { window } => window,
            },
            Framebuffer::Unbound => context.dummy_glx_pixmap,
            Framebuffer::External => {
                return Err(Error::ExternalRenderTarget);
            },
        };
        Ok(
            MakeCurrentRequest {
                display: self.display,
                glx_drawable,
                glx_context: context.native_context.glx_context(),
            },
        )
    }

    /// The native invocation that detaches the thread's current
    /// context: null drawable and null context.
    pub fn make_no_context_current(&self) -> (r: MakeCurrentRequest)
        ensures
            r == (MakeCurrentRequest { display: self.display, glx_drawable: 0, glx_context: 0 }),
    {
        MakeCurrentRequest { display: self.display, glx_drawable: 0, glx_context: 0 }
    }
}

/// Interprets the status the native make-current entry point reported:
/// success exactly when the native call succeeded, `MakeCurrentFailed`
/// otherwise.
pub fn make_current_result(ok: bool) -> (r: Result<(), Error>)
    ensures
        r is Ok <==> ok,
        !ok ==> r == Err::<(), Error>(Error::MakeCurrentFailed),
{
    if ok {
        Ok(())
    } else {
        Err(Error::MakeCurrentFailed)
    }
}

/// The flush owed before unbinding: make the context current, and —
/// only when the bound drawable is an off-screen pixmap — flush
/// pending commands and present the pixmap by a buffer swap.  An
/// on-screen window needs no presentation here, and an unbound
/// context nothing beyond the make-current.
#[derive(Clone, Copy, PartialEq, Eq, Structural, Debug)]
pub struct FlushPlan {
    /// The make-current invocation to perform first.
    pub make_current: MakeCurrentRequest,
    /// The GLX pixmap to flush and present; absent when nothing is
    /// owed a swap.
    pub swap_glx_pixmap: Option<u64>,
}

impl Device {
    /// Plans the flush of the bound surface's pending rendering.  On
    /// an adopted context it fails with `ExternalRenderTarget` (the
    /// caller unbinding swallows this, as unbinding must proceed).
    /// Otherwise the plan makes the context current and, exactly when
    /// the bound drawable is an off-screen pixmap, flushes and
    /// presents that pixmap.
    pub fn flush_context_surface(&self, context: &Context) -> (r: Result<FlushPlan, Error>)
        requires
            !context.spec_is_destroyed(),
        ensures
            context.framebuffer is External ==> r == Err::<FlushPlan, Error>(
                Error::ExternalRenderTarget,
            ),
            !(context.framebuffer is External) ==> ({
                &&& r matches Ok(p) && p.make_current == (
                MakeCurrentRequest {
                    display: self.display,
                    glx_drawable: spec_current_drawable(*context),
                    glx_context: context.native_context.spec_glx_context(),
                }) && p.swap_glx_pixmap == (match context.framebuffer {
                    Framebuffer::Bound(s) => match s.drawables {
                        SurfaceDrawables::Pixmap { glx_pixmap, .. } => Some(glx_pixmap),
                        SurfaceDrawables::Window { .. } => None::<u64>,
                    },
                    _ => None::<u64>,
                })
            }),
    {
        let make_current = match self.make_context_current(context) {
            Ok(req) => req,
            Err(e) => {
                return Err(e);
            },
        };
        let swap_glx_pixmap = match context.framebuffer {
            Framebuffer::Bound(s) => match s.drawables {
                SurfaceDrawables::Pixmap { glx_pixmap, .. } => Some(glx_pixmap),
                SurfaceDrawables::Window { .. } => None,
            },
            _ => None,
        };
        Ok(FlushPlan { make_current, swap_glx_pixmap })
    }
}

} // verus!
