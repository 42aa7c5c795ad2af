//! The Framebuffer Binding State Machine: attaching a surface to an
//! unbound context, detaching it again with ownership handed back to
//! the caller, and reading back what is bound.

use vstd::prelude::*;

use crate::context::Context;
use crate::context::Framebuffer;
use crate::context::spec_with_framebuffer;
use crate::device::Device;
use crate::error::Error;
use crate::surface::spec_surface_info;
use crate::surface::Surface;
use crate::surface::SurfaceInfo;
use crate::surface::SurfaceDrawables;
use crate::surface::SurfaceID;

verus! {

/// The bind transition: from `Unbound`, with a surface owned by this
/// very context, to `Bound`; every failure leaves the state untouched.
/// An identity mismatch is rejected before any state is examined;
/// an adopted context rejects binding outright; a bound context
/// rejects a second surface.
pub open spec fn spec_bind_surface(c: Context, s: Surface) -> (Context, Result<(), Error>) {
    if s.context_id != c.id {
        (c, Err(Error::IncompatibleSurface))
    } else {
        match c.framebuffer {
            Framebuffer::Unbound => (
                spec_with_framebuffer(c, Framebuffer::Bound(s)),
                Ok(()),
            ),
            Framebuffer::Bound(_) => (c, Err(Error::SurfaceAlreadyBound)),
            Framebuffer::External => (c, Err(Error::ExternalRenderTarget)),
        }
    }
}

/// The unbind transition: from `Bound(s)` to `Unbound`, handing `s`
/// back; already unbound is a success that returns nothing; an adopted
/// context rejects unbinding, untouched.
pub open spec fn spec_unbind_surface(c: Context) -> (Context, Result<Option<Surface>, Error>) {
    match c.framebuffer {
        Framebuffer::Unbound => (c, Ok(None)),
        Framebuffer::Bound(s) => (spec_with_framebuffer(c, Framebuffer::Unbound), Ok(Some(s))),
        Framebuffer::External => (c, Err(Error::ExternalRenderTarget)),
    }
}

/// Law: binding a surface to a freshly unbound context and unbinding
/// again both succeed, hand back the identical surface value, and
/// leave the context exactly as it began — unbound.
pub proof fn lemma_bind_then_unbind_round_trip(c: Context, s: Surface)
    requires
        c.framebuffer is Unbound,
        s.context_id == c.id,
    ensures
        ({
            let (c1, r1) = spec_bind_surface(c, s);
            let (c2, r2) = spec_unbind_surface(c1);
            r1 == Ok::<(), Error>(()) && r2 == Ok::<Option<Surface>, Error>(Some(s)) && c2 == c
        }),
{
}

impl Device {
    /// Attaches `surface` to `context`.  Succeeds exactly when the
    /// surface was created for this very context and the context is
    /// unbound; fails with `IncompatibleSurface` on an identity
    /// mismatch (checked before any state change), with
    /// `SurfaceAlreadyBound` when a surface is already attached, and
    /// with `ExternalRenderTarget` on an adopted context.  No failure
    /// mutates the context.
    pub fn bind_surface_to_context(&self, context: &mut Context, surface: Surface) -> (r: Result<
        (),
        Error,
    >)
        ensures
            (*final(context), r) == spec_bind_surface(*old(context), surface),
            r is Ok <==> surface.context_id == old(context).id && old(context).framebuffer
                is Unbound,
            r is Ok ==> final(context).framebuffer == Framebuffer::Bound(surface),
            r is Err ==> *final(context) == *old(context),
            surface.context_id != old(context).id ==> r == Err::<(), Error>(
                Error::IncompatibleSurface,
            ),
            surface.context_id == old(context).id && old(context).framebuffer is Bound ==> r
                == Err::<(), Error>(Error::SurfaceAlreadyBound),
            surface.context_id == old(context).id && old(context).framebuffer is External ==> r
                == Err::<(), Error>(Error::ExternalRenderTarget),
    {
        if context.id.0 != surface.context_id.0 {
            return Err(Error::IncompatibleSurface);
        }
        match context.framebuffer {
            Framebuffer::Unbound => {
                context.framebuffer = Framebuffer::Bound(surface);
                Ok(())
            },
            Framebuffer::Bound(_) => Err(Error::SurfaceAlreadyBound),
            Framebuffer::External => Err(Error::ExternalRenderTarget),
        }
    }

    /// Detaches and returns the bound surface, transferring its
    /// ownership back to the caller; returns nothing when the context
    /// was already unbound, and fails with `ExternalRenderTarget`,
    /// untouched, on an adopted context.  The caller flushes pending
    /// rendering first (see `flush_context_surface`); a flush failure
    /// is swallowed, since unbinding must still proceed.
    pub fn unbind_surface_from_context(&self, context: &mut Context) -> (r: Result<
        Option<Surface>,
        Error,
    >)
        ensures
            (*final(context), r) == spec_unbind_surface(*old(context)),
            old(context).framebuffer is Unbound ==> r == Ok::<Option<Surface>, Error>(None)
                && *final(context) == *old(context),
            old(context).framebuffer matches Framebuffer::Bound(s) ==> r == Ok::<Option<Surface>, Error>(
                Some(s),
            ) && *final(context) == spec_with_framebuffer(*old(context), Framebuffer::Unbound),
            old(context).framebuffer is External ==> r == Err::<Option<Surface>, Error>(
                Error::ExternalRenderTarget,
            ) && *final(context) == *old(context),
    {
        match context.framebuffer {
            Framebuffer::Unbound => Ok(None),
            Framebuffer::Bound(s) => {
                context.framebuffer = Framebuffer::Unbound;
                Ok(Some(s))
            },
            Framebuffer::External => Err(Error::ExternalRenderTarget),
        }
    }

    /// What is reported about `surface`: its extent, its own identity
    /// (derived from its native drawable handle) and its owning
    /// context's identity.
    pub fn surface_info(&self, surface: &Surface) -> (r: SurfaceInfo)
        ensures
            r == spec_surface_info(*surface),
    {
        let handle = match surface.drawables {
            SurfaceDrawables::Pixmap { glx_pixmap, .. } => glx_pixmap,
            SurfaceDrawables::Window { window } => window,
        };
        SurfaceInfo { size: surface.size, id: SurfaceID(handle), context_id: surface.context_id }
    }

    /// Reports the bound surface: nothing when unbound, the surface's
    /// information when bound, and `ExternalRenderTarget` on an
    /// adopted context.
    pub fn context_surface_info(&self, context: &Context) -> (r: Result<Option<SurfaceInfo>, Error>)
        ensures
            context.framebuffer is Unbound ==> r == Ok::<Option<SurfaceInfo>, Error>(None),
            context.framebuffer matches Framebuffer::Bound(s) ==> r == Ok::<Option<SurfaceInfo>, Error>(
                Some(spec_surface_info(s)),
            ),
            context.framebuffer is External ==> r == Err::<Option<SurfaceInfo>, Error>(
                Error::ExternalRenderTarget,
            ),
    {
        match context.framebuffer {
            Framebuffer::Unbound => Ok(None),
            Framebuffer::Bound(s) => Ok(Some(self.surface_info(&s))),
            Framebuffer::External => Err(Error::ExternalRenderTarget),
        }
    }
}

} // verus!
