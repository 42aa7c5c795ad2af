//! Context values: the process-unique identity and its allocator, the
//! owned-versus-borrowed native handle capability, the framebuffer
//! binding state, and the context and descriptor types themselves.

use vstd::prelude::*;

use crate::attributes::GLVersion;
use crate::surface::Surface;

verus! {

/// The process-unique identity of a context.
#[derive(Clone, Copy, PartialEq, Eq, Structural, Debug)]
pub struct ContextID(pub u64);

/// The shared counter that assigns context identities, with the ghost
/// trace of every identity it has handed out.  The caller keeps one
/// allocator per process behind a lock and holds that lock across
/// every allocation, so identities are strictly increasing and never
/// reused, whatever the interleaving of creating threads.
#[derive(Clone, Copy)]
pub struct ContextIdAllocator {
    /// The identity the next allocation hands out.
    pub next: u64,
    /// The identities handed out so far, in allocation order.
    pub handed_out: Ghost<Seq<u64>>,
}

impl ContextIdAllocator {
    /// The allocator's invariant: the trace holds exactly the
    /// identities below the counter, in order.  Established by
    /// [`ContextIdAllocator::new`] and preserved by every allocation.
    pub open spec fn wf(self) -> bool {
        &&& self.handed_out@.len() == self.next
        &&& forall|i: int| 0 <= i < self.handed_out@.len() ==> self.handed_out@[i] == i
    }

    /// A fresh allocator, starting at identity zero with an empty
    /// trace.
    pub fn new() -> (r: ContextIdAllocator)
        ensures
            r.next == 0,
            r.handed_out@ == Seq::<u64>::empty(),
            r.wf(),
    {
        let r = ContextIdAllocator { next: 0, handed_out: Ghost(Seq::empty()) };
        proof {
            assert(r.handed_out@.len() == 0);
        }
        r
    }

    /// Hands out the next identity, advances the counter, and records
    /// the identity in the trace.
    pub fn allocate(&mut self) -> (id: ContextID)
        requires
            old(self).next < u64::MAX,
        ensures
            id.0 == old(self).next,
            final(self).next == old(self).next + 1,
            final(self).handed_out@ == old(self).handed_out@.push(id.0),
            old(self).wf() ==> final(self).wf(),
    {
        let id = ContextID(self.next);
        proof {
            self.handed_out@ = self.handed_out@.push(id.0);
        }
        self.next = self.next + 1;
        id
    }
}

/// Law: the identities an allocator has handed out are pairwise
/// distinct, strictly increasing in allocation order, and consecutive
/// from zero with no gaps.  Context creation holds a process-wide
/// lock across "read, assign, increment", so the identities assigned
/// by contexts created concurrently from any number of threads are a
/// prefix of this trace, for any interleaving.
pub proof fn lemma_handed_out_ids_distinct_and_consecutive(a: ContextIdAllocator)
    requires
        a.wf(),
    ensures
        forall|i: int, j: int|
            0 <= i < a.handed_out@.len() && 0 <= j < a.handed_out@.len() && i != j
                ==> a.handed_out@[i] != a.handed_out@[j],
        forall|i: int, j: int|
            0 <= i < j < a.handed_out@.len() ==> a.handed_out@[i] < a.handed_out@[j],
        forall|i: int| 0 <= i < a.handed_out@.len() ==> a.handed_out@[i] == i,
{
}

/// The capability over the native rendering-context handle.  An owned
/// handle was created by this library and must be released by exactly
/// one native destroy call; a borrowed handle pre-existed (the context
/// was adopted) and must never be passed to the native destroy entry
/// point.  A zero handle marks the capability destroyed.
#[derive(Clone, Copy, PartialEq, Eq, Structural, Debug)]
pub enum NativeContext {
    /// This library created the native context and owes it a native
    /// destroy call.
    Owned {
        /// The native context handle; zero once destroyed.
        glx_context: u64,
    },
    /// The native context is owned elsewhere; destruction only clears
    /// this local reference.
    Borrowed {
        /// The native context handle; zero once destroyed.
        glx_context: u64,
    },
}

impl NativeContext {
    /// The raw native context handle.
    pub open spec fn spec_glx_context(self) -> u64 {
        match self {
            NativeContext::Owned { glx_context } => glx_context,
            NativeContext::Borrowed { glx_context } => glx_context,
        }
    }

    /// Whether the capability has been destroyed.
    pub open spec fn spec_is_destroyed(self) -> bool {
        self.spec_glx_context() == 0
    }

    /// Whether this capability owns the native context.
    pub open spec fn spec_is_owned(self) -> bool {
        self matches NativeContext::Owned { .. }
    }

    /// The raw native context handle.
    pub fn glx_context(&self) -> (r: u64)
        requires
            !self.spec_is_destroyed(),
        ensures
            r == self.spec_glx_context(),
    {
        match self {
            NativeContext::Owned { glx_context } => *glx_context,
            NativeContext::Borrowed { glx_context } => *glx_context,
        }
    }

    /// Whether the capability has been destroyed.
    pub fn is_destroyed(&self) -> (r: bool)
        ensures
            r == self.spec_is_destroyed(),
    {
        match self {
            NativeContext::Owned { glx_context } => *glx_context == 0,
            NativeContext::Borrowed { glx_context } => *glx_context == 0,
        }
    }

    /// Marks the capability destroyed and returns the handle that is
    /// owed a native destroy call: the held handle for an owned
    /// capability, nothing for a borrowed one.
    pub fn destroy(&mut self) -> (native: Option<u64>)
        requires
            !old(self).spec_is_destroyed(),
        ensures
            final(self).spec_is_destroyed(),
            final(self).spec_is_owned() == old(self).spec_is_owned(),
            native == (if old(self).spec_is_owned() {
                Some(old(self).spec_glx_context())
            } else {
                None::<u64>
            }),
    {
        match self {
            NativeContext::Owned { glx_context } => {
                let handle = *glx_context;
                *glx_context = 0;
                Some(handle)
            },
            NativeContext::Borrowed { glx_context } => {
                *glx_context = 0;
                None
            },
        }
    }
}

/// The framebuffer binding state of a context.
#[derive(Clone, Copy, PartialEq, Eq, Structural, Debug)]
pub enum Framebuffer {
    /// No surface is attached; rendering goes to the scratch drawable.
    Unbound,
    /// The context exclusively owns the bound surface.
    Bound(Surface),
    /// The context was adopted and its render target is externally
    /// managed; binding operations on it always fail.
    External,
}

/// A rendering context: the native handle capability, the
/// process-unique identity, the framebuffer binding, the resolved GL
/// version, the pixel-format identifier it was created with, and the
/// scratch drawable used while no surface is bound.
///
/// A context must reach the destroyed state through the explicit
/// destroy operation before its value is released; discarding an
/// undestroyed context is a programming error, and the unverified
/// shell's guard objects fail loudly on it.
#[derive(Clone, Copy, PartialEq, Eq, Structural, Debug)]
pub struct Context {
    /// The native handle capability.
    pub native_context: NativeContext,
    /// The process-unique identity, assigned once and never reused.
    pub id: ContextID,
    /// The framebuffer binding state.
    pub framebuffer: Framebuffer,
    /// The GL version the context was created with (or, for an adopted
    /// context, the version read back from the driver).
    pub gl_version: GLVersion,
    /// The native identifier of the pixel-format configuration the
    /// context was created against.
    pub pixmap_glx_fb_config_id: u64,
    /// The scratch GLX pixmap used as the drawable while no surface is
    /// bound; zero once destroyed.
    pub dummy_glx_pixmap: u64,
    /// The X pixmap backing the scratch drawable.
    pub dummy_pixmap: u64,
}

impl Context {
    /// Whether the context has been destroyed.
    pub open spec fn spec_is_destroyed(self) -> bool {
        self.native_context.spec_is_destroyed()
    }
}

/// `c` with its framebuffer binding replaced by `fb` and every other
/// field unchanged.
pub open spec fn spec_with_framebuffer(c: Context, fb: Framebuffer) -> Context {
    Context { framebuffer: fb, ..c }
}

/// An opaque, copyable description of a context configuration: the
/// native pixel-format identifier paired with the requested GL version.
/// Two descriptors are interchangeable exactly when both fields match.
#[derive(Clone, Copy, PartialEq, Eq, Structural, Debug)]
pub struct ContextDescriptor {
    /// The native identifier of the selected pixel-format
    /// configuration.
    pub pixmap_glx_fb_config_id: u64,
    /// The GL version contexts created from this descriptor target.
    pub gl_version: GLVersion,
}

} // verus!
