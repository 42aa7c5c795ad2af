//! Tests of the Context Lifecycle Manager: identity assignment,
//! creation, adoption, and idempotent destruction.

use glx_context::attributes::GLVersion;
use glx_context::context::Context;
use glx_context::context::ContextDescriptor;
use glx_context::context::ContextID;
use glx_context::context::ContextIdAllocator;
use glx_context::context::Framebuffer;
use glx_context::context::NativeContext;
use glx_context::device::Device;
use glx_context::error::Error;
use glx_context::lifecycle::CurrentNativeState;
use glx_context::lifecycle::context_creation_attributes;
use glx_context::lifecycle::NativeCreationResult;
use glx_context::surface::Surface;
use glx_context::surface::SurfaceDrawables;
use glx_context::surface::SurfaceSize;

fn device() -> Device {
    Device {
        display: 42,
        configs: vec![],
    }
}

fn descriptor() -> ContextDescriptor {
    ContextDescriptor {
        pixmap_glx_fb_config_id: 33,
        gl_version: GLVersion::new(3, 2),
    }
}

fn created() -> NativeCreationResult {
    NativeCreationResult {
        glx_context: 500,
        dummy_glx_pixmap: 71,
        dummy_pixmap: 72,
    }
}

#[test]
fn allocator_assigns_distinct_consecutive_ids() {
    let mut ids = ContextIdAllocator::new();
    let n = 16;
    let mut seen: Vec<u64> = Vec::new();
    for _ in 0..n {
        let ContextID(v) = ids.allocate();
        seen.push(v);
    }
    for i in 0..n {
        assert_eq!(seen[i], i as u64);
    }
    for i in 0..n {
        for j in 0..n {
            if i != j {
                assert_ne!(seen[i], seen[j]);
            }
        }
    }
}

#[test]
fn creation_attributes_exact_layout() {
    let r = context_creation_attributes(&GLVersion::new(4, 1));
    assert_eq!(r, vec![0x2091, 4, 0x2092, 1, 0]);
    assert_eq!(r[0], x11::glx::arb::GLX_CONTEXT_MAJOR_VERSION_ARB);
    assert_eq!(r[2], x11::glx::arb::GLX_CONTEXT_MINOR_VERSION_ARB);
}

#[test]
fn create_context_starts_unbound_with_next_identity() {
    let dev = device();
    let mut ids = ContextIdAllocator::new();
    let first = dev.create_context(&descriptor(), created(), &mut ids).unwrap();
    let second = dev.create_context(&descriptor(), created(), &mut ids).unwrap();
    assert_eq!(first.id, ContextID(0));
    assert_eq!(second.id, ContextID(1));
    assert_eq!(first.framebuffer, Framebuffer::Unbound);
    assert_eq!(
        first.native_context,
        NativeContext::Owned { glx_context: 500 }
    );
    assert_eq!(first.gl_version, GLVersion::new(3, 2));
    assert_eq!(first.pixmap_glx_fb_config_id, 33);
    assert_eq!(first.dummy_glx_pixmap, 71);
    assert_eq!(first.dummy_pixmap, 72);
}

#[test]
fn create_context_null_handle_fails() {
    let dev = device();
    let mut ids = ContextIdAllocator::new();
    let r = dev.create_context(
        &descriptor(),
        NativeCreationResult {
            glx_context: 0,
            dummy_glx_pixmap: 0,
            dummy_pixmap: 0,
        },
        &mut ids,
    );
    assert_eq!(r, Err(Error::ContextCreationFailed));
    // A failed creation consumes no identity.
    assert_eq!(ids.allocate(), ContextID(0));
}

#[test]
fn from_current_context_without_display_fails() {
    let mut ids = ContextIdAllocator::new();
    let r = Device::from_current_context(None, vec![], &mut ids);
    assert_eq!(r, Err(Error::NoCurrentContext));
}

#[test]
fn from_current_context_adopts_borrowed_external() {
    let mut ids = ContextIdAllocator::new();
    let state = CurrentNativeState {
        display: 77,
        glx_context: 900,
        major_gl_version: 4,
        minor_gl_version: 6,
        glx_fb_config_id: 12,
        dummy_glx_pixmap: 51,
        dummy_pixmap: 52,
    };
    let (dev, ctx) = Device::from_current_context(Some(state), vec![], &mut ids).unwrap();
    assert_eq!(dev.display, 77);
    assert_eq!(ctx.id, ContextID(0));
    assert_eq!(
        ctx.native_context,
        NativeContext::Borrowed { glx_context: 900 }
    );
    assert_eq!(ctx.framebuffer, Framebuffer::External);
    assert_eq!(ctx.gl_version, GLVersion::new(4, 6));
    assert_eq!(ctx.pixmap_glx_fb_config_id, 12);
}

#[test]
fn destroy_context_is_idempotent() {
    let dev = device();
    let mut ids = ContextIdAllocator::new();
    let mut ctx = dev.create_context(&descriptor(), created(), &mut ids).unwrap();
    assert!(dev.destroy_context(&mut ctx).is_none());
    let work = dev.finish_destroy_context(&mut ctx, true);
    assert_eq!(work.glx_context, 500);
    assert_eq!(work.dummy_glx_pixmap, 71);
    assert!(ctx.native_context.is_destroyed());
    let after_first = ctx;
    // Second destroy: succeeds, changes nothing, owes no native work.
    assert!(dev.destroy_context(&mut ctx).is_none());
    let work2 = dev.finish_destroy_context(&mut ctx, true);
    assert!(work2.is_empty());
    assert_eq!(ctx, after_first);
}

#[test]
fn destroy_retry_after_surface_failure_completes_teardown() {
    let dev = device();
    let mut ids = ContextIdAllocator::new();
    let mut ctx = dev.create_context(&descriptor(), created(), &mut ids).unwrap();
    let surface = Surface {
        context_id: ctx.id,
        drawables: SurfaceDrawables::Pixmap {
            glx_pixmap: 81,
            pixmap: 82,
        },
        size: SurfaceSize {
            width: 64,
            height: 64,
        },
    };
    dev.bind_surface_to_context(&mut ctx, surface).unwrap();
    let detached = dev.destroy_context(&mut ctx);
    assert_eq!(detached, Some(surface));
    // The surface subsystem failed: the context stays live, nothing
    // is released, and the destroy can be retried.
    let work = dev.finish_destroy_context(&mut ctx, false);
    assert!(work.is_empty());
    assert!(!ctx.native_context.is_destroyed());
    assert_eq!(ctx.dummy_glx_pixmap, 71);
    assert_eq!(ctx.framebuffer, Framebuffer::Unbound);
    // The retry detaches nothing further and completes the remaining
    // teardown, destroying the native handle exactly once.
    assert!(dev.destroy_context(&mut ctx).is_none());
    let work2 = dev.finish_destroy_context(&mut ctx, true);
    assert_eq!(work2.dummy_glx_pixmap, 71);
    assert_eq!(work2.glx_context, 500);
    assert!(ctx.native_context.is_destroyed());
}

#[test]
fn destroy_context_releases_bound_surface() {
    let dev = device();
    let mut ids = ContextIdAllocator::new();
    let mut ctx = dev.create_context(&descriptor(), created(), &mut ids).unwrap();
    let surface = Surface {
        context_id: ctx.id,
        drawables: SurfaceDrawables::Pixmap {
            glx_pixmap: 81,
            pixmap: 82,
        },
        size: SurfaceSize {
            width: 64,
            height: 64,
        },
    };
    dev.bind_surface_to_context(&mut ctx, surface).unwrap();
    let detached = dev.destroy_context(&mut ctx);
    assert_eq!(detached, Some(surface));
    assert_eq!(ctx.framebuffer, Framebuffer::Unbound);
    let work = dev.finish_destroy_context(&mut ctx, true);
    assert_eq!(work.dummy_glx_pixmap, 71);
    assert_eq!(ctx.dummy_glx_pixmap, 0);
}

#[test]
fn destroy_borrowed_context_owes_no_native_destroy() {
    let dev = device();
    let mut ids = ContextIdAllocator::new();
    let state = CurrentNativeState {
        display: 77,
        glx_context: 900,
        major_gl_version: 4,
        minor_gl_version: 0,
        glx_fb_config_id: 12,
        dummy_glx_pixmap: 51,
        dummy_pixmap: 52,
    };
    let (_, mut ctx) = Device::from_current_context(Some(state), vec![], &mut ids).unwrap();
    assert!(dev.destroy_context(&mut ctx).is_none());
    let work = dev.finish_destroy_context(&mut ctx, true);
    // The adopted handle is borrowed: only the scratch pixmap is released.
    assert_eq!(work.glx_context, 0);
    assert_eq!(work.dummy_glx_pixmap, 51);
    assert!(ctx.native_context.is_destroyed());
}

#[test]
fn context_descriptor_is_pure_read() {
    let dev = device();
    let mut ids = ContextIdAllocator::new();
    let ctx = dev.create_context(&descriptor(), created(), &mut ids).unwrap();
    let d = dev.context_descriptor(&ctx);
    assert_eq!(d, descriptor());
    let copy: Context = ctx;
    assert_eq!(ctx, copy);
}

#[test]
fn context_id_reports_identity() {
    let dev = device();
    let mut ids = ContextIdAllocator::new();
    let ctx = dev.create_context(&descriptor(), created(), &mut ids).unwrap();
    assert_eq!(dev.context_id(&ctx), ctx.id);
}
