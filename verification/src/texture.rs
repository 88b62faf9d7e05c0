//! Textures: decoding image bytes and describing GPU textures/samplers.
//!
//! Encoded image bytes (JPEG, PNG, ...) are decoded through the image
//! crate into plain RGBA8 data; everything after the decode — the texture
//! descriptor, the upload layout, the sampler, the bind group layout — is
//! decided here and pinned by contract.  The host creates the GPU objects
//! from the returned [`Texture`] description and uploads `pixels` with the
//! stated row pitch.

use vstd::prelude::*;

use crate::pipeline::{BindGroupLayoutPlan, BindingKind, BindingPlan, Visibility};
use crate::surface::SurfaceConfig;

verus! {

/// An image decoded to tightly packed 8-bit RGBA rows.
pub struct DecodedImage {
    pub width: u32,
    pub height: u32,
    /// Row-major RGBA data: four bytes per pixel, rows back to back.
    pub pixels: Vec<u8>,
}

impl DecodedImage {
    pub open spec fn wf(&self) -> bool {
        self.pixels@.len() == 4 * self.width * self.height
    }
}

/// What the image crate decodes the given bytes to — `None` when they are
/// not a decodable image, else the decoded dimensions and RGBA8 rows.
/// Decoding is a function of the bytes alone, so the result carries a
/// name; what the name denotes on given bytes only the decoder knows.
pub uninterp spec fn spec_decode(bytes: Seq<u8>) -> Option<DecodedImage>;

/// Relies on `image::load_from_memory` to decode the bytes (guessing the
/// format), and on `DynamicImage::dimensions` and `to_rgba8` to read the
/// decoded size and convert the pixels to RGBA8.  The returned buffer of an
/// `RgbaImage` holds exactly `width * height` four-byte pixels.  Any decode
/// error becomes `None`.
#[verifier::external_body]
fn decode_rgba8(bytes: &[u8]) -> (r: Option<DecodedImage>)
    ensures
        (r is Some) == (spec_decode(bytes@) is Some),
        r matches Some(d) ==> (spec_decode(bytes@) matches Some(s) && d.width == s.width
            && d.height == s.height && d.pixels@ == s.pixels@ && d.wf()),
{
    match image::load_from_memory(bytes) {
        Ok(img) => {
            let (width, height) = image::GenericImageView::dimensions(&img);
            let pixels = img.to_rgba8().into_raw();
            Some(DecodedImage { width, height, pixels })
        },
        Err(_) => None,
    }
}

/// Why a texture could not be described.
#[derive(Clone, Copy, Debug, PartialEq, Eq, Structural)]
pub enum TextureError {
    /// The bytes could not be decoded as an image.
    DecodeFailed,
    /// The decoded image is so wide that its byte row pitch does not fit
    /// the upload layout's 32-bit field.
    RowPitchOverflow,
}

/// Pixel format of a GPU texture created by this renderer.
#[derive(Clone, Copy, Debug, PartialEq, Eq, Structural)]
pub enum TextureFormatPlan {
    Rgba8UnormSrgb,
    Depth32Float,
}

/// How texture coordinates outside the edge are treated.
#[derive(Clone, Copy, Debug, PartialEq, Eq, Structural)]
pub enum AddressMode {
    ClampToEdge,
}

/// How a sampler filters between texels or mip levels.
#[derive(Clone, Copy, Debug, PartialEq, Eq, Structural)]
pub enum FilterMode {
    Nearest,
    Linear,
}

/// Comparison applied by a comparison sampler.
#[derive(Clone, Copy, Debug, PartialEq, Eq, Structural)]
pub enum CompareFunction {
    LessEqual,
}

/// A sampler description.  Level-of-detail clamps are whole numbers here;
/// the host widens them to the API's scalar type.
#[derive(Clone, Copy, Debug, PartialEq, Eq, Structural)]
pub struct SamplerPlan {
    pub address_mode_u: AddressMode,
    pub address_mode_v: AddressMode,
    pub address_mode_w: AddressMode,
    pub mag_filter: FilterMode,
    pub min_filter: FilterMode,
    pub mipmap_filter: FilterMode,
    pub compare: Option<CompareFunction>,
    pub lod_min_clamp: u32,
    pub lod_max_clamp: u32,
}

/// Which usages a texture is created with.
#[derive(Clone, Copy, Debug, PartialEq, Eq, Structural)]
pub struct TextureUsagePlan {
    pub texture_binding: bool,
    pub copy_dst: bool,
    pub render_attachment: bool,
}

/// A texture to create: its descriptor, the data to upload into it (if
/// any) with the upload layout, and its sampler.
pub struct Texture {
    pub label: String,
    pub width: u32,
    pub height: u32,
    pub format: TextureFormatPlan,
    pub mip_level_count: u32,
    pub sample_count: u32,
    pub usage: TextureUsagePlan,
    /// RGBA8 data to upload, for sampled textures; depth textures upload
    /// nothing.
    pub pixels: Option<Vec<u8>>,
    /// Bytes per row of the upload, for textures with data.
    pub bytes_per_row: u32,
    /// Rows per image of the upload, for textures with data.
    pub rows_per_image: u32,
    pub sampler: SamplerPlan,
}

impl Texture {
    /// A sampled texture built from a decoded image `d`: sRGB RGBA8, one
    /// mip level, one sample, bound and copied to, with `d`'s pixels laid
    /// out four bytes per pixel, and the diffuse sampler (clamped at the
    /// edges, linear magnify, nearest minify and mipmap).
    pub open spec fn is_diffuse_from(&self, d: DecodedImage) -> bool {
        &&& self.width == d.width
        &&& self.height == d.height
        &&& self.format == TextureFormatPlan::Rgba8UnormSrgb
        &&& self.mip_level_count == 1
        &&& self.sample_count == 1
        &&& self.usage == (TextureUsagePlan {
            texture_binding: true,
            copy_dst: true,
            render_attachment: false,
        })
        &&& self.pixels matches Some(p) && p@ == d.pixels@
        &&& self.bytes_per_row == 4 * d.width
        &&& self.rows_per_image == d.height
        &&& self.sampler == diffuse_sampler()
    }

    /// A depth texture matching a surface configuration: 32-bit float
    /// depth, the configuration's size, render-attachment plus binding
    /// usage, nothing to upload, and the depth sampler (clamped, linear
    /// filtering, less-equal comparison).
    pub open spec fn is_depth_for(&self, config: SurfaceConfig) -> bool {
        &&& self.width == config.width
        &&& self.height == config.height
        &&& self.format == TextureFormatPlan::Depth32Float
        &&& self.mip_level_count == 1
        &&& self.sample_count == 1
        &&& self.usage == (TextureUsagePlan {
            texture_binding: true,
            copy_dst: false,
            render_attachment: true,
        })
        &&& self.pixels is None
        &&& self.sampler == depth_sampler()
    }

    /// Describes the sampled texture for decoded image bytes.
    ///
    /// Returns `Ok` exactly when the bytes decode as an image whose row
    /// pitch fits the upload layout, and the description then mirrors the
    /// decoded image; bytes that fail to decode are exactly the
    /// recoverable [`TextureError::DecodeFailed`], never a crash of the
    /// render loop.
    pub fn from_bytes(bytes: &[u8], label: &str) -> (r: Result<Texture, TextureError>)
        ensures
            spec_decode(bytes@) is None ==> r == Err::<Texture, TextureError>(
                TextureError::DecodeFailed,
            ),
            spec_decode(bytes@) matches Some(d) ==> (4 * d.width <= u32::MAX ==> (r matches Ok(t)
                && t.is_diffuse_from(d) && t.label@ == label@)),
            spec_decode(bytes@) matches Some(d) ==> (4 * d.width > u32::MAX ==> r == Err::<
                Texture,
                TextureError,
            >(TextureError::RowPitchOverflow)),
    {
        match decode_rgba8(bytes) {
            Some(d) => Texture::from_image(d, label),
            None => Err(TextureError::DecodeFailed),
        }
    }

    /// Describes the sampled texture for an already decoded image.
    ///
    /// Returns `Ok` exactly when the image's four-byte row pitch fits in
    /// 32 bits; the description then mirrors the decoded image's
    /// dimensions and carries its pixels.
    pub fn from_image(d: DecodedImage, label: &str) -> (r: Result<Texture, TextureError>)
        requires
            d.wf(),
        ensures
            4 * d.width <= u32::MAX ==> (r matches Ok(t) && t.is_diffuse_from(d) && t.label@
                == label@),
            4 * d.width > u32::MAX ==> r == Err::<Texture, TextureError>(
                TextureError::RowPitchOverflow,
            ),
    {
        if d.width > u32::MAX / 4 {
            return Err(TextureError::RowPitchOverflow);
        }
        let bytes_per_row: u32 = 4 * d.width;
        Ok(
            Texture {
                label: label.to_string(),
                width: d.width,
                height: d.height,
                format: TextureFormatPlan::Rgba8UnormSrgb,
                mip_level_count: 1,
                sample_count: 1,
                usage: TextureUsagePlan {
                    texture_binding: true,
                    copy_dst: true,
                    render_attachment: false,
                },
                bytes_per_row,
                rows_per_image: d.height,
                pixels: Some(d.pixels),
                sampler: diffuse_sampler_plan(),
            },
        )
    }

    /// The bind group layout every sampled texture is exposed through:
    /// binding 0 is the sampled 2D float filterable texture, binding 1 the
    /// filtering sampler, both visible to the fragment stage only.
    pub fn get_texture_bind_group_layout() -> (r: BindGroupLayoutPlan)
        ensures
            r.entries@ =~= spec_texture_bindings(),
    {
        let mut entries: Vec<BindingPlan> = Vec::new();
        entries.push(
            BindingPlan {
                binding: 0,
                visibility: Visibility::Fragment,
                kind: BindingKind::Texture2dFloatFilterable,
            },
        );
        entries.push(
            BindingPlan {
                binding: 1,
                visibility: Visibility::Fragment,
                kind: BindingKind::FilteringSampler,
            },
        );
        BindGroupLayoutPlan { entries }
    }

    /// Describes the depth texture for the current surface configuration.
    /// Depth textures must be recreated whenever the surface is resized,
    /// since their dimensions must match the swapchain's.
    pub fn create_depth_texture(config: &SurfaceConfig, label: &str) -> (r: Texture)
        ensures
            r.is_depth_for(*config),
            r.label@ == label@,
    {
        Texture {
            label: label.to_string(),
            width: config.width,
            height: config.height,
            format: TextureFormatPlan::Depth32Float,
            mip_level_count: 1,
            sample_count: 1,
            usage: TextureUsagePlan {
                texture_binding: true,
                copy_dst: false,
                render_attachment: true,
            },
            bytes_per_row: 0,
            rows_per_image: 0,
            pixels: None,
            sampler: depth_sampler_plan(),
        }
    }
}

/// The bindings of the sampled-texture bind group: the texture at
/// binding 0, the filtering sampler at binding 1, fragment-stage only.
pub open spec fn spec_texture_bindings() -> Seq<BindingPlan> {
    seq![
        BindingPlan {
            binding: 0,
            visibility: Visibility::Fragment,
            kind: BindingKind::Texture2dFloatFilterable,
        },
        BindingPlan { binding: 1, visibility: Visibility::Fragment, kind: BindingKind::FilteringSampler },
    ]
}

/// The sampler of sampled (diffuse) textures: clamped at the edges,
/// linear magnification, nearest minification and mipmap selection, no
/// comparison, and the default level-of-detail clamp.
pub fn diffuse_sampler_plan() -> (r: SamplerPlan)
    ensures
        r == diffuse_sampler(),
{
    SamplerPlan {
        address_mode_u: AddressMode::ClampToEdge,
        address_mode_v: AddressMode::ClampToEdge,
        address_mode_w: AddressMode::ClampToEdge,
        mag_filter: FilterMode::Linear,
        min_filter: FilterMode::Nearest,
        mipmap_filter: FilterMode::Nearest,
        compare: None,
        lod_min_clamp: 0,
        lod_max_clamp: 32,
    }
}

pub open spec fn diffuse_sampler() -> SamplerPlan {
    SamplerPlan {
        address_mode_u: AddressMode::ClampToEdge,
        address_mode_v: AddressMode::ClampToEdge,
        address_mode_w: AddressMode::ClampToEdge,
        mag_filter: FilterMode::Linear,
        min_filter: FilterMode::Nearest,
        mipmap_filter: FilterMode::Nearest,
        compare: None,
        lod_min_clamp: 0,
        lod_max_clamp: 32,
    }
}

/// The sampler of depth textures: clamped at the edges, linear filtering,
/// nearest mipmap selection, and a less-equal comparison for depth tests.
pub fn depth_sampler_plan() -> (r: SamplerPlan)
    ensures
        r == depth_sampler(),
{
    SamplerPlan {
        address_mode_u: AddressMode::ClampToEdge,
        address_mode_v: AddressMode::ClampToEdge,
        address_mode_w: AddressMode::ClampToEdge,
        mag_filter: FilterMode::Linear,
        min_filter: FilterMode::Linear,
        mipmap_filter: FilterMode::Nearest,
        compare: Some(CompareFunction::LessEqual),
        lod_min_clamp: 0,
        lod_max_clamp: 100,
    }
}

pub open spec fn depth_sampler() -> SamplerPlan {
    SamplerPlan {
        address_mode_u: AddressMode::ClampToEdge,
        address_mode_v: AddressMode::ClampToEdge,
        address_mode_w: AddressMode::ClampToEdge,
        mag_filter: FilterMode::Linear,
        min_filter: FilterMode::Linear,
        mipmap_filter: FilterMode::Nearest,
        compare: Some(CompareFunction::LessEqual),
        lod_min_clamp: 0,
        lod_max_clamp: 100,
    }
}

} // verus!
