//! Tests of the Framebuffer Binding State Machine.

use glx_context::attributes::GLVersion;
use glx_context::context::Context;
use glx_context::context::ContextID;
use glx_context::context::Framebuffer;
use glx_context::context::NativeContext;
use glx_context::device::Device;
use glx_context::error::Error;
use glx_context::surface::Surface;
use glx_context::surface::SurfaceDrawables;
use glx_context::surface::SurfaceID;
use glx_context::surface::SurfaceSize;

fn device() -> Device {
    Device {
        display: 42,
        configs: vec![],
    }
}

fn unbound_context(id: u64) -> Context {
    Context {
        native_context: NativeContext::Owned { glx_context: 500 },
        id: ContextID(id),
        framebuffer: Framebuffer::Unbound,
        gl_version: GLVersion::new(3, 2),
        pixmap_glx_fb_config_id: 33,
        dummy_glx_pixmap: 71,
        dummy_pixmap: 72,
    }
}

fn external_context(id: u64) -> Context {
    Context {
        framebuffer: Framebuffer::External,
        native_context: NativeContext::Borrowed { glx_context: 900 },
        ..unbound_context(id)
    }
}

fn surface_for(id: u64) -> Surface {
    Surface {
        context_id: ContextID(id),
        drawables: SurfaceDrawables::Pixmap {
            glx_pixmap: 81,
            pixmap: 82,
        },
        size: SurfaceSize {
            width: 256,
            height: 128,
        },
    }
}

#[test]
fn bind_then_unbind_returns_identical_surface() {
    let dev = device();
    let mut ctx = unbound_context(3);
    let before = ctx;
    let surface = surface_for(3);
    dev.bind_surface_to_context(&mut ctx, surface).unwrap();
    assert_eq!(ctx.framebuffer, Framebuffer::Bound(surface));
    let back = dev.unbind_surface_from_context(&mut ctx).unwrap();
    assert_eq!(back, Some(surface));
    assert_eq!(ctx.framebuffer, Framebuffer::Unbound);
    assert_eq!(ctx, before);
}

#[test]
fn bind_incompatible_surface_fails_and_leaves_state() {
    let dev = device();
    let mut ctx = unbound_context(3);
    let before = ctx;
    let foreign = surface_for(4);
    let r = dev.bind_surface_to_context(&mut ctx, foreign);
    assert_eq!(r, Err(Error::IncompatibleSurface));
    assert_eq!(ctx, before);
}

#[test]
fn bind_on_bound_context_fails_and_leaves_state() {
    let dev = device();
    let mut ctx = unbound_context(3);
    dev.bind_surface_to_context(&mut ctx, surface_for(3)).unwrap();
    let before = ctx;
    let r = dev.bind_surface_to_context(&mut ctx, surface_for(3));
    assert_eq!(r, Err(Error::SurfaceAlreadyBound));
    assert_eq!(ctx, before);
}

#[test]
fn bind_on_external_context_fails_and_leaves_state() {
    let dev = device();
    let mut ctx = external_context(3);
    let before = ctx;
    let r = dev.bind_surface_to_context(&mut ctx, surface_for(3));
    assert_eq!(r, Err(Error::ExternalRenderTarget));
    assert_eq!(ctx, before);
}

#[test]
fn unbind_on_unbound_context_returns_none() {
    let dev = device();
    let mut ctx = unbound_context(3);
    let r = dev.unbind_surface_from_context(&mut ctx);
    assert_eq!(r, Ok(None));
    assert_eq!(ctx.framebuffer, Framebuffer::Unbound);
}

#[test]
fn unbind_on_external_context_fails() {
    let dev = device();
    let mut ctx = external_context(3);
    let before = ctx;
    let r = dev.unbind_surface_from_context(&mut ctx);
    assert_eq!(r, Err(Error::ExternalRenderTarget));
    assert_eq!(ctx, before);
}

#[test]
fn surface_info_reports_identity_size_and_owner() {
    let dev = device();
    let surface = surface_for(3);
    let info = dev.surface_info(&surface);
    assert_eq!(info.context_id, ContextID(3));
    assert_eq!(info.id, SurfaceID(81));
    assert_eq!(
        info.size,
        SurfaceSize {
            width: 256,
            height: 128
        }
    );
}

#[test]
fn context_surface_info_in_each_state() {
    let dev = device();
    let mut ctx = unbound_context(3);
    assert_eq!(dev.context_surface_info(&ctx), Ok(None));
    let surface = surface_for(3);
    dev.bind_surface_to_context(&mut ctx, surface).unwrap();
    let info = dev.context_surface_info(&ctx).unwrap().unwrap();
    assert_eq!(info.id, SurfaceID(81));
    let external = external_context(9);
    assert_eq!(
        dev.context_surface_info(&external),
        Err(Error::ExternalRenderTarget)
    );
}
