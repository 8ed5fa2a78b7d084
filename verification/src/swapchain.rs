//! Swapchain planning: choosing the extent, image count, sharing mode and
//! present mode for a presentation surface, and the model of a live swapchain
//! (its images, views and the currently acquired image).

use vstd::prelude::*;

verus! {

/// Height value by which a surface reports that it has no fixed extent and
/// the application must choose one.
pub const UNDEFINED_EXTENT: u32 = 0xffff_ffff;

/// Capabilities reported by the presentation surface.
#[derive(Debug, Clone, Copy, PartialEq, Eq, Structural)]
pub struct SurfaceCaps {
    /// Fewest images the surface supports.
    pub min_image_count: u32,
    /// Most images the surface supports; zero means no limit.
    pub max_image_count: u32,
    /// Current surface width.
    pub current_width: u32,
    /// Current surface height; `UNDEFINED_EXTENT` when the platform leaves
    /// the size to the application.
    pub current_height: u32,
}

#[derive(Debug, Clone, Copy, PartialEq, Eq, Structural)]
pub struct Extent2D {
    pub width: u32,
    pub height: u32,
}

/// How the swapchain images are shared between queues.
#[derive(Debug, Clone, Copy, PartialEq, Eq, Structural)]
pub enum SharingMode {
    Exclusive,
    Concurrent,
}

/// Presentation mode of the surface.
#[derive(Debug, Clone, Copy, PartialEq, Eq, Structural)]
pub enum PresentMode {
    Mailbox,
    Fifo,
}

/// Everything a swapchain is created from.
#[derive(Debug, Clone, Copy, PartialEq, Eq, Structural)]
pub struct SwapchainPlan {
    pub format: u32,
    pub extent: Extent2D,
    pub image_count: u32,
    pub sharing: SharingMode,
    pub present_mode: PresentMode,
}

/// The extent the swapchain is built with: the surface's own extent, or the
/// configured resolution when the surface reports none.
pub open spec fn chosen_extent(caps: SurfaceCaps, res_width: u32, res_height: u32) -> Extent2D {
    if caps.current_height == UNDEFINED_EXTENT {
        Extent2D { width: res_width, height: res_height }
    } else {
        Extent2D { width: caps.current_width, height: caps.current_height }
    }
}

/// One image more than the surface minimum, capped by the maximum when the
/// surface has one.
pub open spec fn chosen_image_count(caps: SurfaceCaps) -> u32 {
    if caps.max_image_count == 0 {
        (caps.min_image_count + 1) as u32
    } else if caps.max_image_count < caps.min_image_count + 1 {
        caps.max_image_count
    } else {
        (caps.min_image_count + 1) as u32
    }
}

/// Exclusive sharing when one queue family both draws and presents.
pub open spec fn chosen_sharing(graphics_family: u32, present_family: u32) -> SharingMode {
    if graphics_family == present_family {
        SharingMode::Exclusive
    } else {
        SharingMode::Concurrent
    }
}

/// Low-latency mailbox when the surface offers it, else FIFO, which every
/// surface supports.
pub open spec fn chosen_present_mode(modes: Seq<PresentMode>) -> PresentMode {
    if modes.contains(PresentMode::Mailbox) {
        PresentMode::Mailbox
    } else {
        PresentMode::Fifo
    }
}

/// The full plan as a function of the surface state and the configuration.
pub open spec fn swapchain_plan(
    caps: SurfaceCaps,
    res_width: u32,
    res_height: u32,
    graphics_family: u32,
    present_family: u32,
    format: u32,
    modes: Seq<PresentMode>,
) -> SwapchainPlan {
    SwapchainPlan {
        format,
        extent: chosen_extent(caps, res_width, res_height),
        image_count: chosen_image_count(caps),
        sharing: chosen_sharing(graphics_family, present_family),
        present_mode: chosen_present_mode(modes),
    }
}

/// Computes the creation parameters of a swapchain from the surface
/// capabilities, the configured resolution, the two queue families and the
/// present modes the surface offers.
pub fn plan_swapchain(
    caps: &SurfaceCaps,
    res_width: u32,
    res_height: u32,
    graphics_family: u32,
    present_family: u32,
    format: u32,
    modes: &Vec<PresentMode>,
) -> (plan: SwapchainPlan)
    requires
        caps.min_image_count < u32::MAX,
    ensures
        plan == swapchain_plan(
            *caps, res_width, res_height, graphics_family, present_family, format, modes@,
        ),
{
    let extent = if caps.current_height == UNDEFINED_EXTENT {
        Extent2D { width: res_width, height: res_height }
    } else {
        Extent2D { width: caps.current_width, height: caps.current_height }
    };

    let image_count = if caps.max_image_count == 0 {
        caps.min_image_count + 1
    } else if caps.max_image_count < caps.min_image_count + 1 {
        caps.max_image_count
    } else {
        caps.min_image_count + 1
    };

    let sharing = if graphics_family == present_family {
        SharingMode::Exclusive
    } else {
        SharingMode::Concurrent
    };

    let mut found_mailbox = false;
    let mut i: usize = 0;
    while i < modes.len()
        invariant
            i <= modes.len(),
            found_mailbox <==> exists|j: int|
                0 <= j < i && modes@[j] == PresentMode::Mailbox,
        decreases modes.len() - i,
    {
        if modes[i] == PresentMode::Mailbox {
            found_mailbox = true;
            proof {
                assert(modes@[i as int] == PresentMode::Mailbox);
            }
        }
        i = i + 1;
    }
    let present_mode = if found_mailbox { PresentMode::Mailbox } else { PresentMode::Fifo };

    SwapchainPlan { format, extent, image_count, sharing, present_mode }
}

/// Recreating the swapchain while the surface and the configured resolution
/// are unchanged yields an image count and a format identical to the
/// original's, whatever the present modes were queried as.
pub proof fn lemma_swapchain_recreate_stable(
    caps: SurfaceCaps,
    res_width: u32,
    res_height: u32,
    graphics_family: u32,
    present_family: u32,
    format: u32,
    modes_old: Seq<PresentMode>,
    modes_new: Seq<PresentMode>,
)
    ensures
        swapchain_plan(caps, res_width, res_height, graphics_family, present_family, format,
            modes_new).image_count
            == swapchain_plan(caps, res_width, res_height, graphics_family, present_family,
            format, modes_old).image_count,
        swapchain_plan(caps, res_width, res_height, graphics_family, present_family, format,
            modes_new).format
            == swapchain_plan(caps, res_width, res_height, graphics_family, present_family,
            format, modes_old).format,
        swapchain_plan(caps, res_width, res_height, graphics_family, present_family, format,
            modes_new).extent
            == swapchain_plan(caps, res_width, res_height, graphics_family, present_family,
            format, modes_old).extent,
{
}

/// A live swapchain: the plan it was created from, one opaque handle per
/// presentation image, the matching views, and the index of the currently
/// acquired image.
#[derive(Debug)]
pub struct Swapchain {
    /// Opaque handle of the driver's swapchain object.
    pub handle: u64,
    pub plan: SwapchainPlan,
    pub images: Vec<u64>,
    pub views: Vec<u64>,
    pub current_image_index: usize,
}

impl Swapchain {
    /// Every image has a view, and the acquired index stays in range.
    pub open spec fn wf(&self) -> bool {
        &&& self.views@.len() == self.images@.len()
        &&& self.images@.len() > 0
        &&& self.current_image_index < self.images@.len()
    }

    /// Wraps the handle, images and views the driver created for a plan;
    /// acquisition starts at the first image.
    pub fn new(handle: u64, plan: SwapchainPlan, images: Vec<u64>, views: Vec<u64>) -> (s: Self)
        requires
            images@.len() == views@.len(),
            images@.len() > 0,
        ensures
            s.wf(),
            s.handle == handle,
            s.plan == plan,
            s.images == images,
            s.views == views,
            s.current_image_index == 0,
    {
        Swapchain { handle, plan, images, views, current_image_index: 0 }
    }

    /// Records which image the driver's acquire call handed back.
    pub fn next(&mut self, acquired: usize)
        requires
            old(self).wf(),
            acquired < old(self).images@.len(),
        ensures
            final(self).wf(),
            final(self).current_image_index == acquired,
            final(self).handle == old(self).handle,
            final(self).plan == old(self).plan,
            final(self).images == old(self).images,
            final(self).views == old(self).views,
    {
        self.current_image_index = acquired;
    }

    /// Handle of the currently acquired image.
    pub fn get_current_image(&self) -> (img: u64)
        requires
            self.wf(),
        ensures
            img == self.images@[self.current_image_index as int],
    {
        self.images[self.current_image_index]
    }

    /// View of the currently acquired image.
    pub fn get_current_image_view(&self) -> (view: u64)
        requires
            self.wf(),
        ensures
            view == self.views@[self.current_image_index as int],
    {
        self.views[self.current_image_index]
    }
}

} // verus!
