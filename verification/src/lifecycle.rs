//! The Context Lifecycle Manager: creating contexts, adopting a
//! context that is already current on the thread, and the explicit,
//! idempotent destroy operation that is the only sanctioned way to
//! release a context.
//!
//! The native entry points themselves run in the unverified shell; it
//! hands their raw outcomes in as plain values and carries out the
//! releases listed in the returned [`DestroyWork`].

use vstd::prelude::*;

use crate::attributes::GLVersion;
use crate::context::Context;
use crate::context::ContextDescriptor;
use crate::context::ContextID;
use crate::context::ContextIdAllocator;
use crate::context::Framebuffer;
use crate::context::NativeContext;
use crate::context::spec_with_framebuffer;
use crate::config::FbConfig;
use crate::device::Device;
use crate::error::Error;
use crate::surface::Surface;

verus! {

/// Key: the major GL version requested of the native context-creation
/// entry point (GLX_ARB_create_context).
pub const GLX_CONTEXT_MAJOR_VERSION_ARB: i32 = 0x2091;
/// Key: the minor GL version requested of the native context-creation
/// entry point (GLX_ARB_create_context).
pub const GLX_CONTEXT_MINOR_VERSION_ARB: i32 = 0x2092;

/// The edge length of the scratch drawable allocated with every
/// context and used while no surface is bound.
pub const DUMMY_PIXMAP_SIZE: i32 = 16;

/// The native context-creation request for `version`: key/value pairs
/// in the exact order the native API expects, terminated by a zero
/// sentinel.
pub open spec fn spec_context_creation_attributes(version: GLVersion) -> Seq<i32> {
    seq![
        GLX_CONTEXT_MAJOR_VERSION_ARB, version.major as i32,
        GLX_CONTEXT_MINOR_VERSION_ARB, version.minor as i32,
        0,
    ]
}

/// Builds the zero-terminated key/value array handed to the native
/// context-creation entry point for `version`.
pub fn context_creation_attributes(version: &GLVersion) -> (r: Vec<i32>)
    ensures
        r@ == spec_context_creation_attributes(*version),
{
    let r: Vec<i32> = vec![
        GLX_CONTEXT_MAJOR_VERSION_ARB, version.major as i32,
        GLX_CONTEXT_MINOR_VERSION_ARB, version.minor as i32,
        0,
    ];
    proof {
        assert(r@ =~= spec_context_creation_attributes(*version));
    }
    r
}

/// What the native layer produced while creating a context: the handle
/// the creation entry point returned (zero for null, meaning failure)
/// and, on success, the scratch drawable allocated against the
/// context's configuration.
#[derive(Clone, Copy, PartialEq, Eq, Structural, Debug)]
pub struct NativeCreationResult {
    /// The native context handle; zero when creation failed.
    pub glx_context: u64,
    /// The scratch GLX pixmap.
    pub dummy_glx_pixmap: u64,
    /// The X pixmap backing the scratch drawable.
    pub dummy_pixmap: u64,
}

/// What the native layer read from the thread's current GLX state when
/// adopting a context: the current display and context handles, the GL
/// version the driver reported, the configuration identifier the
/// context was created with, and the scratch drawable allocated
/// against that configuration.
#[derive(Clone, Copy, PartialEq, Eq, Structural, Debug)]
pub struct CurrentNativeState {
    /// The current native display handle.
    pub display: u64,
    /// The current native context handle.
    pub glx_context: u64,
    /// Major GL version the driver reported.
    pub major_gl_version: u8,
    /// Minor GL version the driver reported.
    pub minor_gl_version: u8,
    /// The configuration identifier read back from the context.
    pub glx_fb_config_id: u64,
    /// The scratch GLX pixmap.
    pub dummy_glx_pixmap: u64,
    /// The X pixmap backing the scratch drawable.
    pub dummy_pixmap: u64,
}

/// The native releases a completed destroy owes: the scratch pixmap to
/// release and the context handle owed a native destroy call.  Zero
/// handles mean no native work at all.
#[derive(Clone, Copy, PartialEq, Eq, Structural, Debug)]
pub struct DestroyWork {
    /// The scratch GLX pixmap to destroy; zero when none is owed.
    pub dummy_glx_pixmap: u64,
    /// The native context handle to destroy; zero when the handle was
    /// borrowed or the context was already destroyed.
    pub glx_context: u64,
}

impl DestroyWork {
    /// No native work at all.
    pub open spec fn spec_is_empty(self) -> bool {
        &&& self.dummy_glx_pixmap == 0
        &&& self.glx_context == 0
    }

    /// Whether the destroy decision owes no native work.
    pub fn is_empty(&self) -> (r: bool)
        ensures
            r == self.spec_is_empty(),
    {
        self.dummy_glx_pixmap == 0 && self.glx_context == 0
    }
}

/// The first half of the destroy transition: on a live context, the
/// still-bound surface is detached and handed out for the surface
/// subsystem to destroy; nothing else changes, and the context stays
/// live until [`spec_finish_destroy_context`] learns that the surface
/// destroy succeeded.  On an already-destroyed context: no change, no
/// surface.
pub open spec fn spec_destroy_context(c: Context) -> (Context, Option<Surface>) {
    if c.spec_is_destroyed() {
        (c, None)
    } else {
        let surface = match c.framebuffer {
            Framebuffer::Bound(s) => Some(s),
            _ => None,
        };
        (spec_with_framebuffer(c, Framebuffer::Unbound), surface)
    }
}

/// The second half of the destroy transition, fed the outcome of the
/// surface destroy.  Only on success does the context reach the
/// destroyed state: its scratch pixmap is cleared, its handle marked
/// destroyed, and the work lists the scratch pixmap and — for an owned
/// handle only — the native context handle.  On failure the context
/// stays live (the surface already detached), nothing is released, and
/// a later destroy completes the remaining teardown.  On an
/// already-destroyed context: no change, no work.
pub open spec fn spec_finish_destroy_context(c: Context, surface_destroyed: bool) -> (
    Context,
    DestroyWork,
) {
    if !surface_destroyed || c.spec_is_destroyed() {
        (c, DestroyWork { dummy_glx_pixmap: 0, glx_context: 0 })
    } else {
        let destroyed = Context {
            native_context: if c.native_context.spec_is_owned() {
                NativeContext::Owned { glx_context: 0 }
            } else {
                NativeContext::Borrowed { glx_context: 0 }
            },
            dummy_glx_pixmap: 0,
            ..c
        };
        let work = DestroyWork {
            dummy_glx_pixmap: c.dummy_glx_pixmap,
            glx_context: if c.native_context.spec_is_owned() {
                c.native_context.spec_glx_context()
            } else {
                0
            },
        };
        (destroyed, work)
    }
}

/// A whole successful destroy: detach, surface destroyed, completed.
pub open spec fn spec_completed_destroy(c: Context) -> (Context, Option<Surface>, DestroyWork) {
    let (c1, surface) = spec_destroy_context(c);
    let (c2, work) = spec_finish_destroy_context(c1, true);
    (c2, surface, work)
}

/// Law: destruction is idempotent.  After a completed destroy, a
/// second destroy succeeds, changes nothing, detaches no surface and
/// owes no native work.
pub proof fn lemma_destroy_context_idempotent(c: Context)
    ensures
        ({
            let (c1, _s1, _w1) = spec_completed_destroy(c);
            let (c2, s2, w2) = spec_completed_destroy(c1);
            c2 == c1 && s2 is None && w2.spec_is_empty()
        }),
{
}

/// Law: a failed surface destroy leaves the context undestroyed and
/// nothing released, with the surface already detached; retrying the
/// destroy then detaches no surface a second time and completes the
/// remaining teardown — the scratch pixmap and, for an owned handle,
/// exactly one native destroy of the context handle.
pub proof fn lemma_destroy_context_retry_after_surface_failure(c: Context)
    requires
        !c.spec_is_destroyed(),
    ensures
        ({
            let (c1, _s1) = spec_destroy_context(c);
            let (c2, w1) = spec_finish_destroy_context(c1, false);
            let (c3, s2, w2) = spec_completed_destroy(c2);
            &&& c2 == c1 && !c2.spec_is_destroyed() && w1.spec_is_empty()
            &&& s2 is None
            &&& c3.spec_is_destroyed()
            &&& w2.dummy_glx_pixmap == c.dummy_glx_pixmap
            &&& w2.glx_context == (if c.native_context.spec_is_owned() {
                c.native_context.spec_glx_context()
            } else {
                0
            })
        }),
{
}

impl Device {
    /// Wraps the outcome of the native creation entry point into a
    /// context.  Fails with `ContextCreationFailed` exactly when the
    /// native call returned a null handle; otherwise the context owns
    /// the handle, starts unbound against the descriptor's
    /// configuration, and receives the next process-unique identity.
    /// The caller holds the process-wide creation lock around the
    /// native call and this assembly, so identities stay monotonic.
    pub fn create_context(
        &self,
        descriptor: &ContextDescriptor,
        created: NativeCreationResult,
        ids: &mut ContextIdAllocator,
    ) -> (r: Result<Context, Error>)
        requires
            old(ids).next < u64::MAX,
        ensures
            created.glx_context == 0 ==> r == Err::<Context, Error>(Error::ContextCreationFailed)
                && *final(ids) == *old(ids),
            created.glx_context != 0 ==> final(ids).next == old(ids).next + 1 && r == Ok::<
                Context,
                Error,
            >(
                Context {
                    native_context: NativeContext::Owned { glx_context: created.glx_context },
                    id: ContextID(old(ids).next),
                    framebuffer: Framebuffer::Unbound,
                    gl_version: descriptor.gl_version,
                    pixmap_glx_fb_config_id: descriptor.pixmap_glx_fb_config_id,
                    dummy_glx_pixmap: created.dummy_glx_pixmap,
                    dummy_pixmap: created.dummy_pixmap,
                },
            ),
    {
        if created.glx_context == 0 {
            return Err(Error::ContextCreationFailed);
        }
        let id = ids.allocate();
        Ok(
            Context {
                native_context: NativeContext::Owned { glx_context: created.glx_context },
                id,
                framebuffer: Framebuffer::Unbound,
                gl_version: descriptor.gl_version,
                pixmap_glx_fb_config_id: descriptor.pixmap_glx_fb_config_id,
                dummy_glx_pixmap: created.dummy_glx_pixmap,
                dummy_pixmap: created.dummy_pixmap,
            },
        )
    }

    /// Wraps the context that is current on the calling thread.  Fails
    /// with `NoCurrentContext` exactly when no native display is
    /// current.  The produced context borrows the native handle (it is
    /// never passed to the native destroy entry point) and starts in
    /// the external binding state, since its real render target is
    /// opaque to this library.  `configs` is the configuration
    /// snapshot read from the current display and becomes the device's
    /// own.  The caller must keep the native display alive for the
    /// context's lifetime, and holds the creation lock around the
    /// native reads and this assembly.
    pub fn from_current_context(
        current: Option<CurrentNativeState>,
        configs: Vec<FbConfig>,
        ids: &mut ContextIdAllocator,
    ) -> (r: Result<(Device, Context), Error>)
        requires
            old(ids).next < u64::MAX,
            current matches Some(s) ==> s.glx_context != 0,
        ensures
            current is None ==> r == Err::<(Device, Context), Error>(Error::NoCurrentContext)
                && *final(ids) == *old(ids),
            current matches Some(s) ==> ({
                &&& final(ids).next == old(ids).next + 1
                &&& r matches Ok(dc) && dc.0.display == s.display && dc.0.configs@ == configs@
                    && dc.1 == (
                Context {
                native_context: NativeContext::Borrowed { glx_context: s.glx_context },
                id: ContextID(old(ids).next),
                framebuffer: Framebuffer::External,
                gl_version: GLVersion { major: s.major_gl_version, minor: s.minor_gl_version },
                pixmap_glx_fb_config_id: s.glx_fb_config_id,
                dummy_glx_pixmap: s.dummy_glx_pixmap,
                dummy_pixmap: s.dummy_pixmap,
                })
            }),
    {
        match current {
            None => Err(Error::NoCurrentContext),
            Some(s) => {
                let id = ids.allocate();
                let device = Device { display: s.display, configs };
                let context = Context {
                    native_context: NativeContext::Borrowed { glx_context: s.glx_context },
                    id,
                    framebuffer: Framebuffer::External,
                    gl_version: GLVersion { major: s.major_gl_version, minor: s.minor_gl_version },
                    pixmap_glx_fb_config_id: s.glx_fb_config_id,
                    dummy_glx_pixmap: s.dummy_glx_pixmap,
                    dummy_pixmap: s.dummy_pixmap,
                };
                Ok((device, context))
            },
        }
    }

    /// Begins the explicit destroy operation, the only sanctioned way
    /// to release a context.  Detaches and returns the still-bound
    /// surface, which the surface subsystem destroys first; everything
    /// else is untouched and the context stays live until
    /// [`Device::finish_destroy_context`] learns that the surface
    /// destroy succeeded, so a failure there leaves the context
    /// retryable with no release lost.  On an already-destroyed
    /// context: no change, no surface.
    pub fn destroy_context(&self, context: &mut Context) -> (surface: Option<Surface>)
        ensures
            (*final(context), surface) == spec_destroy_context(*old(context)),
            final(context).spec_is_destroyed() == old(context).spec_is_destroyed(),
            old(context).spec_is_destroyed() ==> *final(context) == *old(context) && surface
                is None,
            !old(context).spec_is_destroyed() ==> *final(context) == spec_with_framebuffer(
                *old(context),
                Framebuffer::Unbound,
            ) && surface == (match old(context).framebuffer {
                Framebuffer::Bound(s) => Some(s),
                _ => None::<Surface>,
            }),
    {
        if context.native_context.is_destroyed() {
            return None;
        }
        let surface = match context.framebuffer {
            Framebuffer::Bound(s) => Some(s),
            _ => None,
        };
        context.framebuffer = Framebuffer::Unbound;
        surface
    }

    /// Completes the destroy begun by [`Device::destroy_context`],
    /// told whether the surface subsystem destroyed the detached
    /// surface (`true` also when none was bound).  Only on success is
    /// the context marked destroyed, its scratch pixmap cleared, and
    /// the owed native releases returned: the scratch pixmap and — for
    /// an owned handle only — exactly one native destroy of the
    /// context handle.  On failure nothing changes and nothing is
    /// owed: the caller propagates the surface error and a later
    /// destroy completes the remaining teardown.  On an
    /// already-destroyed context: no change, no work.
    pub fn finish_destroy_context(
        &self,
        context: &mut Context,
        surface_destroyed: bool,
    ) -> (work: DestroyWork)
        ensures
            (*final(context), work) == spec_finish_destroy_context(
                *old(context),
                surface_destroyed,
            ),
            !surface_destroyed ==> *final(context) == *old(context) && work.spec_is_empty(),
            old(context).spec_is_destroyed() ==> *final(context) == *old(context)
                && work.spec_is_empty(),
            surface_destroyed && !old(context).spec_is_destroyed()
                ==> final(context).spec_is_destroyed() && work.dummy_glx_pixmap == old(
                context,
            ).dummy_glx_pixmap,
    {
        if !surface_destroyed || context.native_context.is_destroyed() {
            return DestroyWork { dummy_glx_pixmap: 0, glx_context: 0 };
        }
        let dummy_glx_pixmap = context.dummy_glx_pixmap;
        context.dummy_glx_pixmap = 0;
        let native = context.native_context.destroy();
        let glx_context = match native {
            Some(handle) => handle,
            None => 0,
        };
        DestroyWork { dummy_glx_pixmap, glx_context }
    }

    /// Re-derives the descriptor a context was created against: its
    /// configuration identifier paired with its GL version.  A pure
    /// read with no side effects.
    pub fn context_descriptor(&self, context: &Context) -> (r: ContextDescriptor)
        ensures
            r == (ContextDescriptor {
                pixmap_glx_fb_config_id: context.pixmap_glx_fb_config_id,
                gl_version: context.gl_version,
            }),
    {
        ContextDescriptor {
            pixmap_glx_fb_config_id: context.pixmap_glx_fb_config_id,
            gl_version: context.gl_version,
        }
    }

    /// The context's process-unique identity.
    pub fn context_id(&self, context: &Context) -> (r: ContextID)
        ensures
            r == context.id,
    {
        context.id
    }
}

} // verus!
