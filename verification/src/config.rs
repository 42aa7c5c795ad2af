//! The Config Matcher: selects a native framebuffer configuration for a
//! set of requested context attributes, and resolves a configuration
//! back to the attributes it offers.
//!
//! The native windowing layer is modelled by a snapshot of the
//! configurations a display offers ([`FbConfig`]); the selection
//! criteria are stated once, as [`spec_config_matches`], and the native
//! request encoding them is built by [`config_request_attributes`] as
//! the exact zero-terminated key/value array the GLX protocol expects.

use vstd::prelude::*;

use crate::attributes::ContextAttributeFlags;
use crate::attributes::ContextAttributes;

verus! {

// GLX attribute keys and token values, as the GLX protocol defines
// them.  The values follow the Khronos GLX registry; the keys for the
// texture-from-pixmap request are tokens of the
// GLX_EXT_texture_from_pixmap extension.
/// Key: minimum red channel depth.
pub const GLX_RED_SIZE: i32 = 8;
/// Key: minimum green channel depth.
pub const GLX_GREEN_SIZE: i32 = 9;
/// Key: minimum blue channel depth.
pub const GLX_BLUE_SIZE: i32 = 10;
/// Key: alpha channel depth.
pub const GLX_ALPHA_SIZE: i32 = 11;
/// Key: depth buffer depth.
pub const GLX_DEPTH_SIZE: i32 = 12;
/// Key: stencil buffer depth.
pub const GLX_STENCIL_SIZE: i32 = 13;
/// Key: double buffering.
pub const GLX_DOUBLEBUFFER: i32 = 5;
/// Key: stereo buffering.
pub const GLX_STEREO: i32 = 6;
/// Key: mask of drawable kinds the configuration supports.
pub const GLX_DRAWABLE_TYPE: i32 = 0x8010;
/// Key: whether the configuration has an associated X visual.
pub const GLX_X_RENDERABLE: i32 = 0x8012;
/// Key: the visual type of the associated X visual.
pub const GLX_X_VISUAL_TYPE: i32 = 0x22;
/// Key: mask of supported render types.
pub const GLX_RENDER_TYPE: i32 = 0x8011;
/// Key: the unique identifier of a framebuffer configuration.
pub const GLX_FBCONFIG_ID: i32 = 0x8013;
/// Drawable-type bit: off-screen pixmap rendering.
pub const GLX_PIXMAP_BIT: i32 = 0x2;
/// Drawable-type bit: on-screen window rendering.
pub const GLX_WINDOW_BIT: i32 = 0x1;
/// Render-type bit: RGBA rendering.
pub const GLX_RGBA_BIT: i32 = 0x1;
/// Visual type token: true color.
pub const GLX_TRUE_COLOR: i32 = 0x8002;
/// Key: the configuration supports binding as an RGBA texture
/// (GLX_EXT_texture_from_pixmap).
pub const GLX_BIND_TO_TEXTURE_RGBA_EXT: i32 = 0x20D1;
/// Key: mask of texture targets a pixmap can be bound to
/// (GLX_EXT_texture_from_pixmap).
pub const GLX_BIND_TO_TEXTURE_TARGETS_EXT: i32 = 0x20D3;
/// Texture-target bit: rectangle textures
/// (GLX_EXT_texture_from_pixmap).
pub const GLX_TEXTURE_RECTANGLE_BIT_EXT: i32 = 0x4;
/// The X protocol's boolean true.
pub const X_TRUE: i32 = 1;
/// The X protocol's boolean false.
pub const X_FALSE: i32 = 0;

/// Channel depth requested for the red, green and blue channels.
pub const RGB_CHANNEL_BITS: i32 = 8;
/// Alpha channel depth requested when an alpha channel is asked for.
pub const ALPHA_CHANNEL_BITS: i32 = 8;
/// Depth-buffer depth requested when a depth buffer is asked for.
pub const DEPTH_BUFFER_BITS: i32 = 24;
/// Stencil-buffer depth requested when a stencil buffer is asked for.
pub const STENCIL_BUFFER_BITS: i32 = 8;

/// The attributes of one native framebuffer configuration, as read back
/// from the windowing system when the device is opened.
#[derive(Clone, Copy, PartialEq, Eq, Structural, Debug)]
pub struct FbConfig {
    /// The configuration's unique native identifier (GLX_FBCONFIG_ID).
    pub id: u64,
    /// Red channel depth in bits.
    pub red_size: i32,
    /// Green channel depth in bits.
    pub green_size: i32,
    /// Blue channel depth in bits.
    pub blue_size: i32,
    /// Alpha channel depth in bits.
    pub alpha_size: i32,
    /// Depth buffer depth in bits.
    pub depth_size: i32,
    /// Stencil buffer depth in bits.
    pub stencil_size: i32,
    /// The drawable-type mask contains the pixmap bit.
    pub supports_pixmap: bool,
    /// The drawable-type mask contains the window bit.
    pub supports_window: bool,
    /// The configuration has an associated X visual.
    pub x_renderable: bool,
    /// The associated visual is a true-color visual.
    pub true_color: bool,
    /// The render-type mask contains the RGBA bit.
    pub rgba_renderable: bool,
    /// The configuration is double-buffered.
    pub double_buffered: bool,
    /// The configuration is stereo-buffered.
    pub stereo: bool,
    /// Pixmaps of this configuration can be bound as RGBA rectangle
    /// textures (GLX_EXT_texture_from_pixmap).
    pub bind_to_texture_rectangle: bool,
}

/// The alpha channel depth the selection criteria demand for `flags`.
pub open spec fn spec_requested_alpha_size(flags: ContextAttributeFlags) -> i32 {
    if flags.alpha { ALPHA_CHANNEL_BITS } else { 0 }
}

/// The depth-buffer depth the selection criteria demand for `flags`.
pub open spec fn spec_requested_depth_size(flags: ContextAttributeFlags) -> i32 {
    if flags.depth { DEPTH_BUFFER_BITS } else { 0 }
}

/// The stencil-buffer depth the selection criteria demand for `flags`.
pub open spec fn spec_requested_stencil_size(flags: ContextAttributeFlags) -> i32 {
    if flags.stencil { STENCIL_BUFFER_BITS } else { 0 }
}

/// The selection criteria: a configuration is acceptable for `flags`
/// exactly when it offers full 8-bit RGB channels; an alpha, depth or
/// stencil channel exactly when the corresponding flag requests one;
/// both pixmap and window rendering; a true-color X visual; RGBA
/// rendering; no stereo; double buffering (required unconditionally as
/// a deliberate workaround for driver synchronization issues with
/// single-buffered pixmaps, not as a general requirement); and binding
/// as a rectangle texture.
pub open spec fn spec_config_matches(c: FbConfig, flags: ContextAttributeFlags) -> bool {
    &&& c.red_size >= RGB_CHANNEL_BITS
    &&& c.green_size >= RGB_CHANNEL_BITS
    &&& c.blue_size >= RGB_CHANNEL_BITS
    &&& (if flags.alpha { c.alpha_size >= ALPHA_CHANNEL_BITS } else { c.alpha_size == 0 })
    &&& (if flags.depth { c.depth_size >= DEPTH_BUFFER_BITS } else { c.depth_size == 0 })
    &&& (if flags.stencil { c.stencil_size >= STENCIL_BUFFER_BITS } else { c.stencil_size == 0 })
    &&& c.supports_pixmap
    &&& c.supports_window
    &&& c.x_renderable
    &&& c.true_color
    &&& c.rgba_renderable
    &&& !c.stereo
    &&& c.double_buffered
    &&& c.bind_to_texture_rectangle
}

/// Whether `configs` offers at least one acceptable configuration.
pub open spec fn spec_has_matching_config(
    configs: Seq<FbConfig>,
    flags: ContextAttributeFlags,
) -> bool {
    exists|i: int| 0 <= i < configs.len() && spec_config_matches(configs[i], flags)
}

/// `j` is the first acceptable configuration's position in `configs`.
pub open spec fn spec_is_first_match(
    configs: Seq<FbConfig>,
    flags: ContextAttributeFlags,
    j: int,
) -> bool {
    &&& 0 <= j < configs.len()
    &&& spec_config_matches(configs[j], flags)
    &&& forall|k: int| 0 <= k < j ==> !spec_config_matches(configs[k], flags)
}

/// The position of the first acceptable configuration (meaningful only
/// when one exists).
pub open spec fn spec_first_match(configs: Seq<FbConfig>, flags: ContextAttributeFlags) -> int {
    choose|j: int| spec_is_first_match(configs, flags, j)
}

/// When some configuration is acceptable, a first acceptable one
/// exists, and [`spec_first_match`] denotes it.
pub proof fn lemma_first_match_exists(configs: Seq<FbConfig>, flags: ContextAttributeFlags)
    requires
        spec_has_matching_config(configs, flags),
    ensures
        spec_is_first_match(configs, flags, spec_first_match(configs, flags)),
{
    let w = choose|i: int| 0 <= i < configs.len() && spec_config_matches(configs[i], flags);
    lemma_first_match_below(configs, flags, w);
    let j = choose|j: int| spec_is_first_match(configs, flags, j);
    assert(spec_is_first_match(configs, flags, j));
}

/// Below any acceptable position there is a first acceptable position.
proof fn lemma_first_match_below(configs: Seq<FbConfig>, flags: ContextAttributeFlags, w: int)
    requires
        0 <= w < configs.len(),
        spec_config_matches(configs[w], flags),
    ensures
        exists|j: int| spec_is_first_match(configs, flags, j),
    decreases w,
{
    if forall|k: int| 0 <= k < w ==> !spec_config_matches(configs[k], flags) {
        assert(spec_is_first_match(configs, flags, w));
    } else {
        let k = choose|k: int| 0 <= k < w && spec_config_matches(configs[k], flags);
        lemma_first_match_below(configs, flags, k);
    }
}

/// At most one position is the first acceptable one.
pub proof fn lemma_first_match_unique(
    configs: Seq<FbConfig>,
    flags: ContextAttributeFlags,
    j1: int,
    j2: int,
)
    requires
        spec_is_first_match(configs, flags, j1),
        spec_is_first_match(configs, flags, j2),
    ensures
        j1 == j2,
{
}

/// Whether the configuration `c` satisfies the selection criteria for
/// `flags`.
pub fn config_matches(c: &FbConfig, flags: &ContextAttributeFlags) -> (r: bool)
    ensures
        r == spec_config_matches(*c, *flags),
{
    c.red_size >= RGB_CHANNEL_BITS && c.green_size >= RGB_CHANNEL_BITS
        && c.blue_size >= RGB_CHANNEL_BITS
        && (if flags.alpha { c.alpha_size >= ALPHA_CHANNEL_BITS } else { c.alpha_size == 0 })
        && (if flags.depth { c.depth_size >= DEPTH_BUFFER_BITS } else { c.depth_size == 0 })
        && (if flags.stencil { c.stencil_size >= STENCIL_BUFFER_BITS } else { c.stencil_size == 0 })
        && c.supports_pixmap && c.supports_window && c.x_renderable && c.true_color
        && c.rgba_renderable && !c.stereo && c.double_buffered && c.bind_to_texture_rectangle
}

/// The native configuration-selection request for `flags`: key/value
/// pairs in the exact order and pairing the native API expects,
/// terminated by a zero sentinel.
pub open spec fn spec_config_request_attributes(flags: ContextAttributeFlags) -> Seq<i32> {
    seq![
        GLX_RED_SIZE, RGB_CHANNEL_BITS,
        GLX_GREEN_SIZE, RGB_CHANNEL_BITS,
        GLX_BLUE_SIZE, RGB_CHANNEL_BITS,
        GLX_ALPHA_SIZE, spec_requested_alpha_size(flags),
        GLX_DEPTH_SIZE, spec_requested_depth_size(flags),
        GLX_STENCIL_SIZE, spec_requested_stencil_size(flags),
        GLX_DRAWABLE_TYPE, GLX_PIXMAP_BIT | GLX_WINDOW_BIT,
        GLX_X_RENDERABLE, X_TRUE,
        GLX_X_VISUAL_TYPE, GLX_TRUE_COLOR,
        GLX_RENDER_TYPE, GLX_RGBA_BIT,
        GLX_STEREO, X_FALSE,
        GLX_BIND_TO_TEXTURE_RGBA_EXT, X_TRUE,
        GLX_BIND_TO_TEXTURE_TARGETS_EXT, GLX_TEXTURE_RECTANGLE_BIT_EXT,
        GLX_DOUBLEBUFFER, X_TRUE,
        0,
    ]
}

/// Builds the native configuration-selection request for `attributes`:
/// the zero-terminated key/value array handed to the native
/// configuration query.
pub fn config_request_attributes(attributes: &ContextAttributes) -> (r: Vec<i32>)
    ensures
        r@ == spec_config_request_attributes(attributes.flags),
{
    let flags = attributes.flags;
    let alpha_size: i32 = if flags.alpha { ALPHA_CHANNEL_BITS } else { 0 };
    let depth_size: i32 = if flags.depth { DEPTH_BUFFER_BITS } else { 0 };
    let stencil_size: i32 = if flags.stencil { STENCIL_BUFFER_BITS } else { 0 };
    let r: Vec<i32> = vec![
        GLX_RED_SIZE, RGB_CHANNEL_BITS,
        GLX_GREEN_SIZE, RGB_CHANNEL_BITS,
        GLX_BLUE_SIZE, RGB_CHANNEL_BITS,
        GLX_ALPHA_SIZE, alpha_size,
        GLX_DEPTH_SIZE, depth_size,
        GLX_STENCIL_SIZE, stencil_size,
        GLX_DRAWABLE_TYPE, GLX_PIXMAP_BIT | GLX_WINDOW_BIT,
        GLX_X_RENDERABLE, X_TRUE,
        GLX_X_VISUAL_TYPE, GLX_TRUE_COLOR,
        GLX_RENDER_TYPE, GLX_RGBA_BIT,
        GLX_STEREO, X_FALSE,
        GLX_BIND_TO_TEXTURE_RGBA_EXT, X_TRUE,
        GLX_BIND_TO_TEXTURE_TARGETS_EXT, GLX_TEXTURE_RECTANGLE_BIT_EXT,
        GLX_DOUBLEBUFFER, X_TRUE,
        0,
    ];
    proof {
        assert(r@ =~= spec_config_request_attributes(flags));
    }
    r
}

/// `j` is the first position in `configs` whose configuration carries
/// the native identifier `id`.
pub open spec fn spec_is_first_config_with_id(configs: Seq<FbConfig>, id: u64, j: int) -> bool {
    &&& 0 <= j < configs.len()
    &&& configs[j].id == id
    &&& forall|k: int| 0 <= k < j ==> configs[k].id != id
}

/// Whether some configuration in `configs` carries the identifier `id`.
pub open spec fn spec_has_config_with_id(configs: Seq<FbConfig>, id: u64) -> bool {
    exists|i: int| 0 <= i < configs.len() && configs[i].id == id
}

/// The position of the first configuration carrying `id` (meaningful
/// only when one exists).
pub open spec fn spec_first_config_with_id(configs: Seq<FbConfig>, id: u64) -> int {
    choose|j: int| spec_is_first_config_with_id(configs, id, j)
}

/// When some configuration carries `id`, a first one does, and
/// [`spec_first_config_with_id`] denotes it.
pub proof fn lemma_first_config_with_id_exists(configs: Seq<FbConfig>, id: u64)
    requires
        spec_has_config_with_id(configs, id),
    ensures
        spec_is_first_config_with_id(configs, id, spec_first_config_with_id(configs, id)),
{
    let w = choose|i: int| 0 <= i < configs.len() && configs[i].id == id;
    lemma_first_config_with_id_below(configs, id, w);
    let j = choose|j: int| spec_is_first_config_with_id(configs, id, j);
    assert(spec_is_first_config_with_id(configs, id, j));
}

/// Below any position carrying `id` there is a first one.
proof fn lemma_first_config_with_id_below(configs: Seq<FbConfig>, id: u64, w: int)
    requires
        0 <= w < configs.len(),
        configs[w].id == id,
    ensures
        exists|j: int| spec_is_first_config_with_id(configs, id, j),
    decreases w,
{
    if forall|k: int| 0 <= k < w ==> configs[k].id != id {
        assert(spec_is_first_config_with_id(configs, id, w));
    } else {
        let k = choose|k: int| 0 <= k < w && configs[k].id == id;
        lemma_first_config_with_id_below(configs, id, k);
    }
}

/// Resolves a native configuration identifier to the first
/// configuration in `configs` that carries it, or `None` when no
/// configuration does.
pub fn get_fb_config_from_id(configs: &Vec<FbConfig>, id: u64) -> (r: Option<FbConfig>)
    ensures
        r is Some <==> spec_has_config_with_id(configs@, id),
        r matches Some(c) ==> spec_is_first_config_with_id(
            configs@,
            id,
            spec_first_config_with_id(configs@, id),
        ) && c == configs@[spec_first_config_with_id(configs@, id)],
{
    let n = configs.len();
    let mut i: usize = 0;
    while i < n
        invariant
            0 <= i <= n,
            n == configs@.len(),
            forall|k: int| 0 <= k < i ==> configs@[k].id != id,
        decreases n - i,
    {
        if configs[i].id == id {
            proof {
                assert(spec_is_first_config_with_id(configs@, id, i as int));
                lemma_first_config_with_id_exists(configs@, id);
                lemma_first_config_with_id_unique(
                    configs@,
                    id,
                    i as int,
                    spec_first_config_with_id(configs@, id),
                );
            }
            return Some(configs[i]);
        }
        i += 1;
    }
    None
}

/// At most one position is the first carrying `id`.
pub proof fn lemma_first_config_with_id_unique(
    configs: Seq<FbConfig>,
    id: u64,
    j1: int,
    j2: int,
)
    requires
        spec_is_first_config_with_id(configs, id, j1),
        spec_is_first_config_with_id(configs, id, j2),
    ensures
        j1 == j2,
{
}

} // verus!
