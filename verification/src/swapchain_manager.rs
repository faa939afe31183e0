//! The swapchain manager: owns the presentable image chain, the render-pass
//! description and the per-image framebuffers, and recreates them when the
//! surface extent becomes stale.
//!
//! The driver-owned objects (images, views, GPU render pass, GPU
//! framebuffers) are opaque handles; this module tracks what the
//! presentation pipeline actually decides on: how many images exist, which
//! generation they belong to, which render pass each framebuffer is bound
//! to, and which extent and format the chain was built for. All
//! swapchain-derived entities of one generation are created together and
//! invalidated together.

use vstd::prelude::*;

use crate::extent::Extent;

verus! {

/// A composite-alpha mode the surface supports.
#[derive(Clone, Copy, Debug, PartialEq, Eq, Structural)]
pub enum CompositeAlpha {
    Opaque,
    PreMultiplied,
    PostMultiplied,
    Inherit,
}

/// What the device reports about the surface: the minimum image count the
/// driver will negotiate and the supported composite-alpha modes, in the
/// driver's preference order.
#[derive(Clone, Debug)]
pub struct SurfaceCapabilities {
    pub min_image_count: u32,
    pub supported_composite_alpha: Vec<CompositeAlpha>,
}

/// The parameters a swapchain is built with: the negotiated image count,
/// the chosen image format (an opaque driver-reported format id), the
/// chosen composite-alpha mode and the extent it is valid for.
#[derive(Clone, Copy, Debug, PartialEq, Eq, Structural)]
pub struct SwapchainConfig {
    pub image_count: u32,
    pub format: u32,
    pub composite_alpha: CompositeAlpha,
    pub extent: Extent,
}

/// A broken environment: the device reports no usable surface parameters.
/// These conditions abort startup; they are never retried.
#[derive(Clone, Copy, Debug, PartialEq, Eq, Structural)]
pub enum ConfigError {
    /// The surface supports no composite-alpha mode.
    NoSupportedCompositeAlpha,
    /// The device reports no compatible surface format.
    NoSupportedFormat,
}

/// Picks the swapchain parameters exactly as the presentation pipeline
/// negotiates them: the minimum supported image count, the first supported
/// composite-alpha mode, and the first reported compatible format.
/// Fails if and only if the device reports no composite-alpha mode or no
/// format.
pub fn negotiate_config(
    caps: &SurfaceCapabilities,
    formats: &Vec<u32>,
    extent: Extent,
) -> (r: Result<SwapchainConfig, ConfigError>)
    ensures
        r is Ok <==> caps.supported_composite_alpha@.len() > 0 && formats@.len() > 0,
        r matches Ok(c) ==> c == (SwapchainConfig {
            image_count: caps.min_image_count,
            format: formats@[0],
            composite_alpha: caps.supported_composite_alpha@[0],
            extent,
        }),
        caps.supported_composite_alpha@.len() == 0 ==> r == Err::<SwapchainConfig, ConfigError>(
            ConfigError::NoSupportedCompositeAlpha,
        ),
        caps.supported_composite_alpha@.len() > 0 && formats@.len() == 0 ==> r
            == Err::<SwapchainConfig, ConfigError>(ConfigError::NoSupportedFormat),
{
    if caps.supported_composite_alpha.len() == 0 {
        return Err(ConfigError::NoSupportedCompositeAlpha);
    }
    if formats.len() == 0 {
        return Err(ConfigError::NoSupportedFormat);
    }
    let composite_alpha = caps.supported_composite_alpha[0];
    let format = formats[0];
    Ok(SwapchainConfig { image_count: caps.min_image_count, format, composite_alpha, extent })
}

/// The render-pass description: one color attachment with clear-then-store
/// semantics, format equal to the swapchain's image format, one sample.
/// The generation number identifies the GPU render pass this description
/// stands for; framebuffers record which render pass they are bound to.
#[derive(Clone, Copy, Debug, PartialEq, Eq, Structural)]
pub struct RenderPass {
    pub format: u32,
    pub generation: u64,
    pub clear_load: bool,
    pub store: bool,
    pub samples: u32,
}

/// One framebuffer: the binding of the render pass to swapchain image
/// `image_index`'s view. Its lifetime is tied to the swapchain generation
/// that produced it.
#[derive(Clone, Copy, Debug, PartialEq, Eq, Structural)]
pub struct Framebuffer {
    pub image_index: usize,
    pub generation: u64,
    pub render_pass_generation: u64,
}

/// The outcome of a recreation attempt.
#[derive(Clone, Copy, Debug, PartialEq, Eq, Structural)]
pub enum RecreateOutcome {
    /// New images are available; the caller must rebuild dependent command
    /// buffers before using them.
    Recreated { image_count: usize },
    /// The requested extent is currently unsupported by the surface (a
    /// zero-area size during a resize drag); nothing was touched, and the
    /// caller must retry next frame.
    Skipped,
}

/// Builds one framebuffer per swapchain image, each bound to the render
/// pass identified by `render_pass_generation` and belonging to swapchain
/// generation `generation`.
pub fn get_framebuffers(
    image_count: usize,
    generation: u64,
    render_pass_generation: u64,
) -> (r: Vec<Framebuffer>)
    ensures
        r@.len() == image_count,
        forall|i: int| 0 <= i < image_count ==> r@[i] == (Framebuffer {
            image_index: i as usize,
            generation,
            render_pass_generation,
        }),
{
    let mut framebuffers: Vec<Framebuffer> = Vec::new();
    let mut i: usize = 0;
    while i < image_count
        invariant
            i <= image_count,
            framebuffers@.len() == i,
            forall|j: int| 0 <= j < i ==> framebuffers@[j] == (Framebuffer {
                image_index: j as usize,
                generation,
                render_pass_generation,
            }),
        decreases image_count - i,
    {
        framebuffers.push(Framebuffer { image_index: i, generation, render_pass_generation });
        i = i + 1;
    }
    framebuffers
}

/// The swapchain and everything derived from it, one generation at a time.
pub struct SwapchainManager {
    /// The current swapchain generation; recreation bumps it, and every
    /// entity derived from this swapchain carries it.
    pub generation: u64,
    /// The negotiated number of presentable images; fixed for the life of
    /// the manager (recreation keeps the creation parameters but the
    /// extent).
    pub image_count: usize,
    /// The extent the current generation was built for.
    pub extent: Extent,
    /// The driver-reported image format id the chain was built with.
    pub format: u32,
    /// The render pass shared by every generation (the format does not
    /// change mid-run, so recreation reuses it).
    pub render_pass: RenderPass,
    /// One framebuffer per image of the current generation.
    pub framebuffers: Vec<Framebuffer>,
}

impl SwapchainManager {
    /// All swapchain-derived entities belong to one generation: one
    /// framebuffer per image, in image order, every one bound to the
    /// manager's render pass, whose format equals the swapchain's.
    pub open spec fn wf(self) -> bool {
        &&& self.image_count > 0
        &&& self.framebuffers@.len() == self.image_count
        &&& forall|i: int| 0 <= i < self.framebuffers@.len() ==> #[trigger] self.framebuffers@[i]
            == (Framebuffer {
            image_index: i as usize,
            generation: self.generation,
            render_pass_generation: self.render_pass.generation,
        })
        &&& self.render_pass.format == self.format
        &&& self.render_pass.clear_load
        &&& self.render_pass.store
        &&& self.render_pass.samples == 1
    }

    /// Everything observable about the manager is as it was.
    pub open spec fn unchanged(self, other: SwapchainManager) -> bool {
        &&& self.generation == other.generation
        &&& self.image_count == other.image_count
        &&& self.extent == other.extent
        &&& self.format == other.format
        &&& self.render_pass == other.render_pass
        &&& self.framebuffers@ == other.framebuffers@
    }

    /// Builds generation zero from the negotiated configuration: the
    /// swapchain, a matching render pass, and one framebuffer per image.
    pub fn new(config: &SwapchainConfig) -> (r: SwapchainManager)
        requires
            config.image_count > 0,
        ensures
            r.wf(),
            r.generation == 0,
            r.image_count == config.image_count as usize,
            r.extent == config.extent,
            r.format == config.format,
            r.render_pass.generation == 0,
    {
        let image_count = config.image_count as usize;
        let render_pass = RenderPass {
            format: config.format,
            generation: 0,
            clear_load: true,
            store: true,
            samples: 1,
        };
        let framebuffers = get_framebuffers(image_count, 0, 0);
        SwapchainManager {
            generation: 0,
            image_count,
            extent: config.extent,
            format: config.format,
            render_pass,
            framebuffers,
        }
    }

    /// Rebuilds the swapchain against the new extent, reusing the existing
    /// render pass (the format does not change mid-run) and rebuilding the
    /// framebuffers. A zero-area extent cannot be presented to: the attempt
    /// is skipped, everything is left exactly as it was, and the caller
    /// retries next frame. After a successful recreation there are exactly
    /// as many framebuffers as images, all of the new generation.
    pub fn recreate(&mut self, extent: Extent) -> (r: RecreateOutcome)
        requires
            old(self).wf(),
            old(self).generation < u64::MAX,
        ensures
            final(self).wf(),
            extent.zero_area() ==> r is Skipped && final(self).unchanged(*old(self)),
            !extent.zero_area() ==> {
                &&& r == (RecreateOutcome::Recreated { image_count: old(self).image_count })
                &&& final(self).generation == old(self).generation + 1
                &&& final(self).image_count == old(self).image_count
                &&& final(self).extent == extent
                &&& final(self).format == old(self).format
                &&& final(self).render_pass == old(self).render_pass
                &&& final(self).framebuffers@.len() == old(self).image_count
            },
    {
        if extent.is_zero_area() {
            return RecreateOutcome::Skipped;
        }
        let new_generation = self.generation + 1;
        let framebuffers = get_framebuffers(
            self.image_count,
            new_generation,
            self.render_pass.generation,
        );
        self.generation = new_generation;
        self.extent = extent;
        self.framebuffers = framebuffers;
        RecreateOutcome::Recreated { image_count: self.image_count }
    }
}

/// Law: whatever sequence of recreations produced a well-formed manager,
/// there is exactly one framebuffer per swapchain image — `new` establishes
/// this and every `recreate` preserves it, so it holds immediately after
/// every successful recreation.
pub proof fn lemma_framebuffers_match_images(m: SwapchainManager)
    requires
        m.wf(),
    ensures
        m.framebuffers@.len() == m.image_count,
        forall|i: int|
            0 <= i < m.framebuffers@.len() ==> (#[trigger] m.framebuffers@[i]).generation
                == m.generation && m.framebuffers@[i].render_pass_generation
                == m.render_pass.generation,
{
}

} // verus!
