//! End-to-end walk through the whole lifecycle: match a configuration,
//! create a context, bind, make current, unbind, destroy.

use glx_context::attributes::ContextAttributeFlags;
use glx_context::attributes::ContextAttributes;
use glx_context::attributes::GLVersion;
use glx_context::config::FbConfig;
use glx_context::context::ContextID;
use glx_context::context::ContextIdAllocator;
use glx_context::context::Framebuffer;
use glx_context::device::Device;
use glx_context::lifecycle::NativeCreationResult;
use glx_context::surface::Surface;
use glx_context::surface::SurfaceDrawables;
use glx_context::surface::SurfaceSize;

#[test]
fn full_lifecycle_alpha_depth_no_stencil() {
    // A device offering two configurations; only the second satisfies
    // "alpha and depth present, stencil absent".
    let with_stencil = FbConfig {
        id: 20,
        red_size: 8,
        green_size: 8,
        blue_size: 8,
        alpha_size: 8,
        depth_size: 24,
        stencil_size: 8,
        supports_pixmap: true,
        supports_window: true,
        x_renderable: true,
        true_color: true,
        rgba_renderable: true,
        double_buffered: true,
        stereo: false,
        bind_to_texture_rectangle: true,
    };
    let wanted = FbConfig {
        stencil_size: 0,
        id: 21,
        ..with_stencil
    };
    let dev = Device {
        display: 1000,
        configs: vec![with_stencil, wanted],
    };

    let attributes = ContextAttributes {
        flags: ContextAttributeFlags {
            alpha: true,
            depth: true,
            stencil: false,
        },
        version: GLVersion::new(3, 3),
    };
    let descriptor = dev.create_context_descriptor(&attributes).unwrap();
    assert_eq!(descriptor.pixmap_glx_fb_config_id, 21);

    let reported = dev.context_descriptor_attributes(&descriptor);
    assert_eq!(reported, attributes);

    let mut ids = ContextIdAllocator::new();
    let mut ctx = dev
        .create_context(
            &descriptor,
            NativeCreationResult {
                glx_context: 600,
                dummy_glx_pixmap: 61,
                dummy_pixmap: 62,
            },
            &mut ids,
        )
        .unwrap();
    assert_eq!(ctx.framebuffer, Framebuffer::Unbound);

    let surface = Surface {
        context_id: dev.context_id(&ctx),
        drawables: SurfaceDrawables::Pixmap {
            glx_pixmap: 63,
            pixmap: 64,
        },
        size: SurfaceSize {
            width: 640,
            height: 480,
        },
    };
    dev.bind_surface_to_context(&mut ctx, surface).unwrap();

    let req = dev.make_context_current(&ctx).unwrap();
    assert_eq!(req.glx_drawable, 63);
    assert_eq!(req.glx_context, 600);

    // Unbinding first flushes the bound pixmap, then hands the very
    // surface back.
    let plan = dev.flush_context_surface(&ctx).unwrap();
    assert_eq!(plan.swap_glx_pixmap, Some(63));
    let back = dev.unbind_surface_from_context(&mut ctx).unwrap();
    assert_eq!(back, Some(surface));
    assert_eq!(ctx.framebuffer, Framebuffer::Unbound);

    assert!(dev.destroy_context(&mut ctx).is_none());
    let work = dev.finish_destroy_context(&mut ctx, true);
    assert_eq!(work.glx_context, 600);
    assert_eq!(work.dummy_glx_pixmap, 61);
    assert!(ctx.native_context.is_destroyed());
    assert_eq!(ctx.id, ContextID(0));

    // A destroyed context is not reused; a second destroy stays silent.
    assert!(dev.destroy_context(&mut ctx).is_none());
    assert!(dev.finish_destroy_context(&mut ctx, true).is_empty());
}
