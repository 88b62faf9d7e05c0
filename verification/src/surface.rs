//! Choosing and maintaining the swapchain configuration.
//!
//! The windowing host queries the adapter for the surface's capabilities
//! and hands them to the core as plain lists; the core decides the
//! configuration: which reported format to use (the first sRGB-capable
//! one, else the first reported), the first reported present and alpha
//! modes, and the window's current size.  The host applies the decision by
//! indexing into the capability lists it queried.

use vstd::prelude::*;

use crate::FrameSize;

verus! {

/// What the adapter reports for a surface, reduced to what the choice of a
/// configuration reads: for each reported texture format, whether it is
/// sRGB-capable, and how many present and alpha modes were reported.
/// Element `i` of `format_srgb` stands for format `i` of the adapter's
/// list, in the adapter's order.
#[derive(Debug)]
pub struct SurfaceCaps {
    pub format_srgb: Vec<bool>,
    pub present_mode_count: usize,
    pub alpha_mode_count: usize,
}

impl SurfaceCaps {
    /// The adapter reports at least one entry of each capability; a
    /// surface for which it reports none cannot be configured at all.
    pub open spec fn is_reported(&self) -> bool {
        self.format_srgb@.len() > 0 && self.present_mode_count > 0 && self.alpha_mode_count > 0
    }
}

/// Index of the format the core picks from a reported list: the first
/// sRGB-capable entry, or entry 0 when none is sRGB-capable.
pub open spec fn spec_chosen_format(format_srgb: Seq<bool>) -> int {
    if exists|i: int| 0 <= i < format_srgb.len() && format_srgb[i] {
        choose|i: int|
            0 <= i < format_srgb.len() && format_srgb[i] && forall|j: int|
                0 <= j < i ==> !format_srgb[j]
    } else {
        0
    }
}

/// Picks the surface format: the first sRGB-capable format of the
/// adapter's list, falling back to the first reported format.
pub fn choose_format_index(format_srgb: &Vec<bool>) -> (r: usize)
    requires
        format_srgb@.len() > 0,
    ensures
        r < format_srgb@.len(),
        r == spec_chosen_format(format_srgb@),
        format_srgb@[r as int] == exists|i: int| 0 <= i < format_srgb@.len() && format_srgb@[i],
        forall|j: int| 0 <= j < r ==> !format_srgb@[j],
{
    let n = format_srgb.len();
    let mut k: usize = 0;
    while k < n
        invariant
            k <= n,
            n == format_srgb@.len(),
            forall|j: int| 0 <= j < k ==> !format_srgb@[j],
        decreases n - k,
    {
        if format_srgb[k] {
            proof {
                let w = spec_chosen_format(format_srgb@);
                assert(0 <= w < format_srgb@.len() && format_srgb@[w] && forall|j: int|
                    0 <= j < w ==> !format_srgb@[j]) by {
                    assert(format_srgb@[k as int]);
                };
                if w < k {
                    assert(!format_srgb@[w]);
                }
                if k < w {
                    assert(!format_srgb@[k as int]);
                }
            }
            return k;
        }
        k = k + 1;
    }
    proof {
        if exists|i: int| 0 <= i < format_srgb@.len() && format_srgb@[i] {
            let i = choose|i: int| 0 <= i < format_srgb@.len() && format_srgb@[i];
            assert(!format_srgb@[i]);
        }
    }
    0
}

/// The swapchain configuration the core settles on, as choices over the
/// adapter's reported capability lists.  The texture usage is always
/// render-attachment, the view format list stays empty, and at most two
/// frames may be in flight.
#[derive(Clone, Copy, Debug, PartialEq, Eq, Structural)]
pub struct SurfaceConfig {
    /// Index into the adapter's reported format list.
    pub format_index: usize,
    /// Whether the chosen format is sRGB-capable.
    pub format_is_srgb: bool,
    pub width: u32,
    pub height: u32,
    /// Index into the adapter's reported present-mode list.
    pub present_mode_index: usize,
    /// Index into the adapter's reported alpha-mode list.
    pub alpha_mode_index: usize,
    /// Upper bound on frames queued ahead of presentation.
    pub desired_maximum_frame_latency: u32,
    /// The swapchain images are created for render-attachment use.
    pub usage_render_attachment: bool,
    /// No additional view formats are declared for the swapchain images.
    pub view_formats_empty: bool,
}

impl SurfaceConfig {
    /// What `configure` establishes: the stored size mirrors the last
    /// known drawable window size.
    pub open spec fn mirrors(&self, size: FrameSize) -> bool {
        self.width == size.width && self.height == size.height && size.is_drawable()
    }
}

/// Builds the initial swapchain configuration for a drawable window size:
/// sRGB-preferring format, the first reported present and alpha modes, the
/// window's size, and a frame latency of two.
pub fn configure_surface(caps: &SurfaceCaps, size: FrameSize) -> (r: SurfaceConfig)
    requires
        caps.is_reported(),
        size.is_drawable(),
    ensures
        r.mirrors(size),
        r.format_index < caps.format_srgb@.len(),
        r.format_index == spec_chosen_format(caps.format_srgb@),
        r.format_is_srgb == exists|i: int|
            0 <= i < caps.format_srgb@.len() && caps.format_srgb@[i],
        r.present_mode_index == 0,
        r.alpha_mode_index == 0,
        r.desired_maximum_frame_latency == 2,
        r.usage_render_attachment,
        r.view_formats_empty,
{
    let format_index = choose_format_index(&caps.format_srgb);
    let format_is_srgb = caps.format_srgb[format_index];
    SurfaceConfig {
        format_index,
        format_is_srgb,
        width: size.width,
        height: size.height,
        present_mode_index: 0,
        alpha_mode_index: 0,
        desired_maximum_frame_latency: 2,
        usage_render_attachment: true,
        view_formats_empty: true,
    }
}

/// What the core asks of the GPU instance the host creates first: every
/// available backend may be used.
#[derive(Clone, Copy, Debug, PartialEq, Eq, Structural)]
pub struct InstanceRequest {
    pub all_backends: bool,
}

pub fn instance_request() -> (r: InstanceRequest)
    ensures
        r.all_backends,
{
    InstanceRequest { all_backends: true }
}

/// Preference the core asks of the adapter request: a high-performance
/// adapter compatible with the window's surface, never the fallback one.
#[derive(Clone, Copy, Debug, PartialEq, Eq, Structural)]
pub struct AdapterRequest {
    pub high_performance: bool,
    pub require_compatible_surface: bool,
    pub force_fallback_adapter: bool,
}

pub fn adapter_request() -> (r: AdapterRequest)
    ensures
        r.high_performance,
        r.require_compatible_surface,
        !r.force_fallback_adapter,
{
    AdapterRequest {
        high_performance: true,
        require_compatible_surface: true,
        force_fallback_adapter: false,
    }
}

/// What the core asks of the device request: no optional features, and the
/// default limit set (a constrained, downlevel set is only for restricted
/// targets, which this host does not build for).
#[derive(Clone, Copy, Debug, PartialEq, Eq, Structural)]
pub struct DeviceRequest {
    pub require_no_features: bool,
    pub downlevel_limits: bool,
}

pub fn device_request() -> (r: DeviceRequest)
    ensures
        r.require_no_features,
        !r.downlevel_limits,
{
    DeviceRequest { require_no_features: true, downlevel_limits: false }
}

} // verus!
