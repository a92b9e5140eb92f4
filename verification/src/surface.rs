//! What a display surface advertises, and the parameters of the chain that
//! is built for it.

use vstd::prelude::*;
use crate::error::RenderError;

verus! {

/// How the compositor treats the alpha channel of a presented image.
#[derive(Debug, Clone, Copy, PartialEq, Eq, Structural)]
pub enum CompositeAlpha {
    Opaque,
    PreMultiplied,
    PostMultiplied,
    Inherit,
}

/// The pixel dimensions of a surface or of the images of a chain.
#[derive(Debug, Clone, Copy, PartialEq, Eq, Structural)]
pub struct Extent {
    pub width: u32,
    pub height: u32,
}

/// The limits of a surface that the choice of a chain's parameters reads.
#[derive(Debug, Clone, Copy, PartialEq, Eq, Structural)]
pub struct SurfaceCapabilities {
    /// The least number of images that a chain for the surface must have.
    pub min_image_count: u32,
    /// The supported alpha-compositing modes, as the device's flag bits.
    pub supported_composite_alpha: u32,
}

/// What the images of a chain are used for.
#[derive(Debug, Clone, Copy, PartialEq, Eq, Structural)]
pub enum ImageUsage {
    /// The images are rendered into as color attachments.
    ColorAttachment,
}

/// The parameters that a chain is created with.
#[derive(Debug, Clone, Copy, PartialEq, Eq, Structural)]
pub struct SwapchainCreateInfo {
    pub min_image_count: u32,
    pub image_format: Option<u32>,
    pub image_extent: Extent,
    pub image_usage: ImageUsage,
    pub composite_alpha: CompositeAlpha,
}

/// The layout of the render pass that hosts the recorded work: one color
/// attachment in the chain's format.
#[derive(Debug, Clone, Copy, PartialEq, Eq, Structural)]
pub struct RenderPass {
    pub format: u32,
    pub samples: u32,
    pub clear_on_load: bool,
    pub store_on_end: bool,
}

/// The flag bit of the first mode, in the order opaque, pre-multiplied,
/// post-multiplied, inherit, that `supported` holds.
pub open spec fn first_alpha_bit(supported: u32) -> Option<u32> {
    if supported & 1 != 0 {
        Some(1u32)
    } else if supported & 2 != 0 {
        Some(2u32)
    } else if supported & 4 != 0 {
        Some(4u32)
    } else if supported & 8 != 0 {
        Some(8u32)
    } else {
        None
    }
}

/// The mode that a flag bit stands for.
pub open spec fn alpha_of_bit(bit: u32) -> Option<CompositeAlpha> {
    if bit == 1 {
        Some(CompositeAlpha::Opaque)
    } else if bit == 2 {
        Some(CompositeAlpha::PreMultiplied)
    } else if bit == 4 {
        Some(CompositeAlpha::PostMultiplied)
    } else if bit == 8 {
        Some(CompositeAlpha::Inherit)
    } else {
        None
    }
}

/// The first supported alpha-compositing mode of a surface, if it has one.
pub open spec fn first_alpha(supported: u32) -> Option<CompositeAlpha> {
    match first_alpha_bit(supported) {
        Some(bit) => alpha_of_bit(bit),
        None => None,
    }
}

/// Wraps vulkano's conversion `CompositeAlphas::from` of ash's
/// `CompositeAlphaFlagsKHR` and the `into_iter` of the resulting set, of which
/// the first item is taken; the flag bits go in and come out through ash's
/// `from_raw` and `as_raw`.
///
/// Believed, not proved: the conversion keeps the four known bits of
/// `supported` and drops the others, and the iterator yields the modes that
/// the set holds in the order opaque, pre-multiplied, post-multiplied,
/// inherit, each standing for its own flag bit. So the result is the lowest
/// of the four bits that `supported` holds, and `None` where it holds none.
#[verifier::external_body]
fn first_supported_alpha(supported: u32) -> (r: Option<u32>)
    ensures
        r == first_alpha_bit(supported),
{
    let flags = ash::vk::CompositeAlphaFlagsKHR::from_raw(supported);
    let modes = vulkano::swapchain::CompositeAlphas::from(flags);
    modes.into_iter().next().map(|mode| ash::vk::CompositeAlphaFlagsKHR::from(mode).as_raw())
}

impl CompositeAlpha {
    /// The mode of a flag bit; `None` for anything but one of the four bits.
    pub fn from_bit(bit: u32) -> (r: Option<CompositeAlpha>)
        ensures
            r == alpha_of_bit(bit),
    {
        if bit == 1 {
            Some(CompositeAlpha::Opaque)
        } else if bit == 2 {
            Some(CompositeAlpha::PreMultiplied)
        } else if bit == 4 {
            Some(CompositeAlpha::PostMultiplied)
        } else if bit == 8 {
            Some(CompositeAlpha::Inherit)
        } else {
            None
        }
    }
}

impl RenderPass {
    /// The single-attachment layout for `format`: cleared when the pass
    /// begins, stored when it ends, one sample per pixel.
    pub open spec fn single_color_spec(format: u32) -> RenderPass {
        RenderPass { format, samples: 1, clear_on_load: true, store_on_end: true }
    }

    /// Executable form of [`RenderPass::single_color_spec`].
    pub fn single_color(format: u32) -> (r: RenderPass)
        ensures
            r == RenderPass::single_color_spec(format),
    {
        RenderPass { format, samples: 1, clear_on_load: true, store_on_end: true }
    }
}

/// The parameters chosen for a surface: one image more than the least count,
/// the first advertised format if there is one, the surface's size, use as
/// color attachment, and the first supported alpha-compositing mode. There is no choice where no mode
/// is supported or the least count is already the largest number.
pub open spec fn chosen_info(caps: SurfaceCapabilities, formats: Seq<u32>, extent: Extent) -> Option<
    SwapchainCreateInfo,
> {
    match first_alpha(caps.supported_composite_alpha) {
        Some(alpha) if caps.min_image_count < u32::MAX => Some(
            SwapchainCreateInfo {
                min_image_count: (caps.min_image_count + 1) as u32,
                image_format: if formats.len() > 0 {
                    Some(formats[0])
                } else {
                    None
                },
                image_extent: extent,
                image_usage: ImageUsage::ColorAttachment,
                composite_alpha: alpha,
            },
        ),
        _ => None,
    }
}

impl SwapchainCreateInfo {
    /// Chooses the parameters of the chain for a surface with the limits
    /// `caps`, the advertised `formats` and the pixel size `extent`.
    pub fn for_surface(caps: &SurfaceCapabilities, formats: &Vec<u32>, extent: Extent) -> (r: Result<
        SwapchainCreateInfo,
        RenderError,
    >)
        ensures
            match chosen_info(*caps, formats@, extent) {
                Some(info) => r == Ok::<SwapchainCreateInfo, RenderError>(info),
                None => r == Err::<SwapchainCreateInfo, RenderError>(RenderError::Config),
            },
    {
        let alpha = match first_supported_alpha(caps.supported_composite_alpha) {
            Some(bit) => CompositeAlpha::from_bit(bit),
            None => None,
        };
        match alpha {
            Some(composite_alpha) => {
                if caps.min_image_count == u32::MAX {
                    return Err(RenderError::Config);
                }
                let image_format: Option<u32> = if formats.len() > 0 {
                    Some(formats[0])
                } else {
                    None
                };
                Ok(
                    SwapchainCreateInfo {
                        min_image_count: caps.min_image_count + 1,
                        image_format,
                        image_extent: extent,
                        image_usage: ImageUsage::ColorAttachment,
                        composite_alpha,
                    },
                )
            },
            None => Err(RenderError::Config),
        }
    }
}

/// A surface that supports some known alpha-compositing mode and whose least
/// image count leaves room for one more always gets a chain configuration.
pub proof fn lemma_supported_surface_has_info(caps: SurfaceCapabilities, formats: Seq<u32>, extent: Extent)
    requires
        caps.supported_composite_alpha & 15 != 0,
        caps.min_image_count < u32::MAX,
    ensures
        chosen_info(caps, formats, extent) is Some,
        chosen_info(caps, formats, extent)->Some_0.min_image_count == caps.min_image_count + 1,
        chosen_info(caps, formats, extent)->Some_0.min_image_count >= 1,
{
    let s = caps.supported_composite_alpha;
    assert(s & 15 != 0 ==> (s & 1 != 0 || s & 2 != 0 || s & 4 != 0 || s & 8 != 0)) by (bit_vector);
}

} // verus!
