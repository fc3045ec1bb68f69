//! The presentation configuration of the surface: how it is chosen from what
//! the surface offers, and how a resize changes it.

use vstd::prelude::*;

verus! {

/// The number of frames that may wait for presentation.
pub const FRAME_LATENCY: u32 = 2;

/// How frames are handed to the display.
#[derive(Clone, Copy, Debug, PartialEq, Eq)]
pub enum PresentMode {
    /// Wait for the display, in the best way the surface has.
    AutoVsync,
    /// Do not wait for the display, in the best way the surface has.
    AutoNoVsync,
    /// A queue of frames, shown one per refresh.
    Fifo,
    /// As `Fifo`, but a late frame is shown at once.
    FifoRelaxed,
    /// Show each frame at once.
    Immediate,
    /// Keep only the newest frame for the next refresh.
    Mailbox,
}

/// What the surface offers, as far as the choice of a configuration reads
/// it.
#[derive(Debug, PartialEq, Eq)]
pub struct SurfaceCapabilities {
    /// For each texture format that the surface offers, in the surface's
    /// order, whether it is an sRGB format.
    pub formats_srgb: Vec<bool>,
    /// The number of alpha modes that the surface offers.
    pub alpha_modes: usize,
}

/// The configuration of the surface. A format or an alpha mode is named by
/// its place among those that the surface offers.
#[derive(Clone, Copy, Debug, PartialEq, Eq)]
pub struct SurfaceConfiguration {
    /// The place of the texture format.
    pub format: usize,
    /// The place of the alpha mode.
    pub alpha_mode: usize,
    /// The width of the surface in pixels.
    pub width: u32,
    /// The height of the surface in pixels.
    pub height: u32,
    /// How frames are handed to the display.
    pub present_mode: PresentMode,
    /// The number of frames that may wait for presentation.
    pub desired_maximum_frame_latency: u32,
}

/// Place `i` holds the first sRGB format among `formats_srgb`.
pub open spec fn is_first_srgb(formats_srgb: Seq<bool>, i: int) -> bool {
    &&& 0 <= i < formats_srgb.len()
    &&& formats_srgb[i]
    &&& forall|j: int| 0 <= j < i ==> !formats_srgb[j]
}

/// The place of the format to use: the first sRGB format, or the first
/// format of all where none is sRGB.
pub open spec fn chosen_format(formats_srgb: Seq<bool>) -> int {
    if exists|i: int| is_first_srgb(formats_srgb, i) {
        choose|i: int| is_first_srgb(formats_srgb, i)
    } else {
        0
    }
}

/// There is at most one first sRGB format.
pub proof fn lemma_first_srgb_unique(formats_srgb: Seq<bool>, i: int, j: int)
    requires
        is_first_srgb(formats_srgb, i),
        is_first_srgb(formats_srgb, j),
    ensures
        i == j,
{
    if i < j {
        assert(!formats_srgb[i]);
    } else if j < i {
        assert(!formats_srgb[j]);
    }
}

/// The place of the format to use: the first sRGB format that the surface
/// offers, or its first format of all where none is sRGB.
pub fn choose_format(formats_srgb: &Vec<bool>) -> (place: usize)
    requires
        formats_srgb@.len() > 0,
    ensures
        place == chosen_format(formats_srgb@),
        place < formats_srgb@.len(),
        is_first_srgb(formats_srgb@, place as int) || (place == 0 && forall|j: int|
            0 <= j < formats_srgb@.len() ==> !formats_srgb@[j]),
{
    let mut i: usize = 0;
    while i < formats_srgb.len()
        invariant
            i <= formats_srgb@.len(),
            forall|j: int| 0 <= j < i ==> !formats_srgb@[j],
        decreases formats_srgb@.len() - i,
    {
        if formats_srgb[i] {
            proof {
                assert(is_first_srgb(formats_srgb@, i as int));
                lemma_first_srgb_unique(
                    formats_srgb@,
                    i as int,
                    chosen_format(formats_srgb@),
                );
            }
            return i;
        }
        i = i + 1;
    }
    0
}

/// The configuration for a surface of the given size that offers
/// `capabilities`: its first sRGB format, or its first format where none is
/// sRGB; its first alpha mode; frames presented without waiting for the
/// display.
pub open spec fn configuration_spec(
    width: u32,
    height: u32,
    capabilities: SurfaceCapabilities,
) -> SurfaceConfiguration {
    SurfaceConfiguration {
        format: chosen_format(capabilities.formats_srgb@) as usize,
        alpha_mode: 0,
        width,
        height,
        present_mode: PresentMode::AutoNoVsync,
        desired_maximum_frame_latency: FRAME_LATENCY,
    }
}

/// The size of the window and the configuration of its surface.
#[derive(Clone, Copy, Debug, PartialEq, Eq)]
pub struct Context {
    width: u32,
    height: u32,
    config: SurfaceConfiguration,
}

impl Context {
    /// The size of the window: width and height in pixels.
    pub closed spec fn size_spec(&self) -> (u32, u32) {
        (self.width, self.height)
    }

    /// The configuration of the surface.
    pub closed spec fn config_spec(&self) -> SurfaceConfiguration {
        self.config
    }

    /// The context of a window of the given size whose surface offers
    /// `capabilities`, of which there must be at least one format and one
    /// alpha mode.
    pub fn new(width: u32, height: u32, capabilities: &SurfaceCapabilities) -> (context: Context)
        requires
            capabilities.formats_srgb@.len() > 0,
            capabilities.alpha_modes > 0,
        ensures
            context.size_spec() == (width, height),
            context.config_spec() == configuration_spec(width, height, *capabilities),
    {
        let config = Context::create_surface_config(width, height, capabilities);
        Context { width, height, config }
    }

    /// The configuration for a surface of the given size that offers
    /// `capabilities`.
    pub fn create_surface_config(
        width: u32,
        height: u32,
        capabilities: &SurfaceCapabilities,
    ) -> (config: SurfaceConfiguration)
        requires
            capabilities.formats_srgb@.len() > 0,
            capabilities.alpha_modes > 0,
        ensures
            config == configuration_spec(width, height, *capabilities),
            config.format < capabilities.formats_srgb@.len(),
            config.alpha_mode < capabilities.alpha_modes,
    {
        SurfaceConfiguration {
            format: choose_format(&capabilities.formats_srgb),
            alpha_mode: 0,
            width,
            height,
            present_mode: PresentMode::AutoNoVsync,
            desired_maximum_frame_latency: FRAME_LATENCY,
        }
    }

    /// Takes the window's new size. Where both sides are positive, the size
    /// and the configuration's width and height become the new ones, and the
    /// answer is `true`: the surface is to be configured again. A size with a
    /// side of zero changes nothing, and the answer is `false`.
    pub fn resize(&mut self, width: u32, height: u32) -> (configure: bool)
        ensures
            configure == (width > 0 && height > 0),
            configure ==> final(self).size_spec() == (width, height),
            configure ==> final(self).config_spec() == (SurfaceConfiguration {
                width,
                height,
                ..old(self).config_spec()
            }),
            !configure ==> *final(self) == *old(self),
    {
        if width > 0 && height > 0 {
            self.width = width;
            self.height = height;
            self.config.width = width;
            self.config.height = height;
            true
        } else {
            false
        }
    }

    /// The size of the window: width and height in pixels.
    pub fn size(&self) -> (size: (u32, u32))
        ensures
            size == self.size_spec(),
    {
        (self.width, self.height)
    }

    /// The configuration of the surface.
    pub fn config(&self) -> (config: &SurfaceConfiguration)
        ensures
            *config == self.config_spec(),
    {
        &self.config
    }
}

} // verus!
