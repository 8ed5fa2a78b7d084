//! Start-up selection logic: choosing a physical device, the graphics and
//! presentation queue families, the surface format, the depth format and the
//! number of render worker threads.

use vstd::prelude::*;

verus! {

/// Surface format `B8G8R8_SRGB`.
pub const FORMAT_B8G8R8_SRGB: u32 = 36;

/// Colour space `SRGB_NONLINEAR`.
pub const COLOR_SPACE_SRGB_NONLINEAR: u32 = 0;

/// Depth format `D32_SFLOAT`.
pub const FORMAT_D32_SFLOAT: u32 = 126;

/// Depth format `D24_UNORM_S8_UINT`.
pub const FORMAT_D24_UNORM_S8_UINT: u32 = 129;

/// Depth format `D32_SFLOAT_S8_UINT`.
pub const FORMAT_D32_SFLOAT_S8_UINT: u32 = 130;

/// Why initialization could not proceed.
#[derive(Debug, Clone, Copy, PartialEq, Eq, Structural)]
pub enum InitError {
    /// No queue family of the device can draw.
    NoGraphicsQueue,
    /// No queue family of the device can present to the surface.
    NoPresentQueue,
    /// No device supports the required features, extensions and queues.
    NoSuitableDevice,
    /// The surface offers no format at all.
    NoSurfaceFormat,
    /// No candidate depth format supports depth-stencil attachment.
    NoDepthFormat,
}

/// What one queue family of a device can do.
#[derive(Debug, Clone, Copy, PartialEq, Eq, Structural)]
pub struct QueueFamily {
    /// The family has the graphics capability.
    pub graphics: bool,
    /// The family can present to the surface.
    pub present: bool,
}

/// The scan over the queue families: each index in turn may become the
/// current graphics or present choice, and the scan stops as soon as both
/// are chosen.
pub open spec fn scan_queue_families(
    families: Seq<QueueFamily>,
    i: int,
    g: Option<u32>,
    p: Option<u32>,
) -> (Option<u32>, Option<u32>)
    decreases families.len() - i,
{
    if i < 0 || i >= families.len() || (g is Some && p is Some) {
        (g, p)
    } else {
        scan_queue_families(
            families,
            i + 1,
            if families[i].graphics { Some(i as u32) } else { g },
            if families[i].present { Some(i as u32) } else { p },
        )
    }
}

/// Picks the graphics and presentation queue families exactly as the scan
/// describes: walk the families in order, remember the latest family with
/// each capability, stop once both are known.
pub fn select_queue_families(families: &Vec<QueueFamily>) -> (r: Result<(u32, u32), InitError>)
    requires
        families@.len() <= u32::MAX,
    ensures
        ({
            let (g, p) = scan_queue_families(families@, 0, None, None);
            match r {
                Ok((gv, pv)) => g == Some(gv) && p == Some(pv),
                Err(InitError::NoGraphicsQueue) => g is None,
                Err(InitError::NoPresentQueue) => g is Some && p is None,
                Err(_) => false,
            }
        }),
{
    let ghost whole = scan_queue_families(families@, 0, None, None);
    let mut graphics: Option<u32> = None;
    let mut present: Option<u32> = None;
    let mut i: usize = 0;
    while i < families.len() && !(graphics.is_some() && present.is_some())
        invariant
            i <= families@.len(),
            families@.len() <= u32::MAX,
            whole == scan_queue_families(families@, i as int, graphics, present),
        decreases families@.len() - i,
    {
        let fam = families[i];
        proof {
            reveal_with_fuel(scan_queue_families, 2);
        }
        if fam.graphics {
            graphics = Some(i as u32);
        }
        if fam.present {
            present = Some(i as u32);
        }
        i = i + 1;
    }
    proof {
        reveal_with_fuel(scan_queue_families, 1);
        assert(whole == (graphics, present));
    }
    match (graphics, present) {
        (Some(g), Some(p)) => Ok((g, p)),
        (None, _) => Err(InitError::NoGraphicsQueue),
        (Some(_), None) => Err(InitError::NoPresentQueue),
    }
}

/// One physical device as the validity and queue probes saw it.
#[derive(Debug, Clone, Copy, PartialEq, Eq, Structural)]
pub struct CandidateDevice {
    /// The device supports the required features and extensions and has both
    /// a graphics and a present queue.
    pub eligible: bool,
    /// The device is a discrete GPU.
    pub discrete: bool,
}

/// Index of the first eligible discrete device at or after `i`.
pub open spec fn first_eligible_discrete(devices: Seq<CandidateDevice>, i: int) -> Option<int>
    decreases devices.len() - i,
{
    if i < 0 || i >= devices.len() {
        None
    } else if devices[i].eligible && devices[i].discrete {
        Some(i)
    } else {
        first_eligible_discrete(devices, i + 1)
    }
}

/// Index of the first eligible device at or after `i`.
pub open spec fn first_eligible(devices: Seq<CandidateDevice>, i: int) -> Option<int>
    decreases devices.len() - i,
{
    if i < 0 || i >= devices.len() {
        None
    } else if devices[i].eligible {
        Some(i)
    } else {
        first_eligible(devices, i + 1)
    }
}

/// Picks the device to use: the first eligible discrete GPU, or, when no
/// discrete GPU is eligible, the first eligible device of any kind.
pub fn pick_device(devices: &Vec<CandidateDevice>) -> (r: Result<usize, InitError>)
    ensures
        match r {
            Ok(i) => match first_eligible_discrete(devices@, 0) {
                Some(d) => i == d,
                None => first_eligible(devices@, 0) == Some(i as int),
            },
            Err(e) => e == InitError::NoSuitableDevice && first_eligible(devices@, 0) is None,
        },
{
    let mut first_any: Option<usize> = None;
    let mut i: usize = 0;
    while i < devices.len()
        invariant
            i <= devices@.len(),
            first_eligible_discrete(devices@, 0) == first_eligible_discrete(devices@, i as int),
            match first_any {
                Some(f) => first_eligible(devices@, 0) == Some(f as int) && f < i,
                None => first_eligible(devices@, 0) == first_eligible(devices@, i as int),
            },
        decreases devices@.len() - i,
    {
        let d = devices[i];
        proof {
            reveal_with_fuel(first_eligible_discrete, 2);
            reveal_with_fuel(first_eligible, 2);
        }
        if d.eligible && d.discrete {
            return Ok(i);
        }
        if d.eligible && first_any.is_none() {
            first_any = Some(i);
        }
        i = i + 1;
    }
    proof {
        reveal_with_fuel(first_eligible_discrete, 1);
        reveal_with_fuel(first_eligible, 1);
    }
    match first_any {
        Some(f) => Ok(f),
        None => Err(InitError::NoSuitableDevice),
    }
}

/// Compares two byte strings for equality.
pub fn bytes_eq(a: &Vec<u8>, b: &Vec<u8>) -> (r: bool)
    ensures
        r <==> a@ == b@,
{
    if a.len() != b.len() {
        proof {
            assert(a@.len() != b@.len());
        }
        return false;
    }
    let mut i: usize = 0;
    while i < a.len()
        invariant
            i <= a@.len(),
            a@.len() == b@.len(),
            forall|j: int| 0 <= j < i ==> a@[j] == b@[j],
        decreases a@.len() - i,
    {
        if a[i] != b[i] {
            return false;
        }
        i = i + 1;
    }
    proof {
        assert(a@ =~= b@);
    }
    true
}

/// A device is valid when it has the dynamic-rendering feature and offers
/// every required extension, each extension given by its name's bytes.
pub open spec fn spec_device_supports(
    dynamic_rendering: bool,
    available: Seq<Seq<u8>>,
    required: Seq<Seq<u8>>,
) -> bool {
    dynamic_rendering && forall|k: int|
        0 <= k < required.len() ==> available.contains(#[trigger] required[k])
}

/// Tests whether a device offers the dynamic-rendering feature and every
/// required extension.
pub fn device_supports(
    dynamic_rendering: bool,
    available: &Vec<Vec<u8>>,
    required: &Vec<Vec<u8>>,
) -> (r: bool)
    ensures
        r == spec_device_supports(
            dynamic_rendering,
            available@.map_values(|v: Vec<u8>| v@),
            required@.map_values(|v: Vec<u8>| v@),
        ),
{
    let ghost avs = available@.map_values(|v: Vec<u8>| v@);
    let ghost rqs = required@.map_values(|v: Vec<u8>| v@);
    if !dynamic_rendering {
        return false;
    }
    let mut k: usize = 0;
    while k < required.len()
        invariant
            k <= required@.len(),
            avs == available@.map_values(|v: Vec<u8>| v@),
            rqs == required@.map_values(|v: Vec<u8>| v@),
            forall|m: int| 0 <= m < k ==> avs.contains(#[trigger] rqs[m]),
        decreases required@.len() - k,
    {
        let req = &required[k];
        let mut found = false;
        let mut j: usize = 0;
        while j < available.len()
            invariant
                j <= available@.len(),
                avs == available@.map_values(|v: Vec<u8>| v@),
                0 <= k < required@.len(),
                rqs == required@.map_values(|v: Vec<u8>| v@),
                req == &required[k as int],
                found <==> exists|m: int| 0 <= m < j && avs[m] == rqs[k as int],
            decreases available@.len() - j,
        {
            if bytes_eq(&available[j], req) {
                found = true;
                proof {
                    assert(avs[j as int] == rqs[k as int]);
                }
            }
            j = j + 1;
        }
        if !found {
            proof {
                assert(!avs.contains(rqs[k as int]));
            }
            return false;
        }
        proof {
            assert(avs.contains(rqs[k as int]));
        }
        k = k + 1;
    }
    true
}

/// One surface format: a pixel format and a colour space.
#[derive(Debug, Clone, Copy, PartialEq, Eq, Structural)]
pub struct SurfaceFormat {
    pub format: u32,
    pub color_space: u32,
}

/// The preferred surface format: sRGB pixels in the sRGB-nonlinear space.
pub open spec fn is_preferred_format(f: SurfaceFormat) -> bool {
    f.format == FORMAT_B8G8R8_SRGB && f.color_space == COLOR_SPACE_SRGB_NONLINEAR
}

/// Index of the first preferred surface format at or after `i`.
pub open spec fn first_preferred_format(formats: Seq<SurfaceFormat>, i: int) -> Option<int>
    decreases formats.len() - i,
{
    if i < 0 || i >= formats.len() {
        None
    } else if is_preferred_format(formats[i]) {
        Some(i)
    } else {
        first_preferred_format(formats, i + 1)
    }
}

/// Picks the surface format: the first preferred one, or the first offered
/// when none is preferred; an error only when the surface offers none.
pub fn select_surface_format(formats: &Vec<SurfaceFormat>) -> (r: Result<
    SurfaceFormat,
    InitError,
>)
    ensures
        match r {
            Ok(f) => match first_preferred_format(formats@, 0) {
                Some(k) => f == formats@[k],
                None => formats@.len() > 0 && f == formats@[0],
            },
            Err(e) => e == InitError::NoSurfaceFormat && formats@.len() == 0,
        },
{
    let mut i: usize = 0;
    while i < formats.len()
        invariant
            i <= formats@.len(),
            first_preferred_format(formats@, 0) == first_preferred_format(formats@, i as int),
        decreases formats@.len() - i,
    {
        let f = formats[i];
        proof {
            reveal_with_fuel(first_preferred_format, 2);
        }
        if f.format == FORMAT_B8G8R8_SRGB && f.color_space == COLOR_SPACE_SRGB_NONLINEAR {
            return Ok(f);
        }
        i = i + 1;
    }
    proof {
        reveal_with_fuel(first_preferred_format, 1);
    }
    if formats.len() > 0 {
        Ok(formats[0])
    } else {
        Err(InitError::NoSurfaceFormat)
    }
}

/// How a depth image will be laid out in memory.
#[derive(Debug, Clone, Copy, PartialEq, Eq, Structural)]
pub enum Tiling {
    Linear,
    Optimal,
}

/// One depth-format candidate with the features the device reported for it.
#[derive(Debug, Clone, Copy, PartialEq, Eq, Structural)]
pub struct DepthCandidate {
    pub format: u32,
    /// The format supports depth-stencil attachment with linear tiling.
    pub linear_attach: bool,
    /// The format supports depth-stencil attachment with optimal tiling.
    pub optimal_attach: bool,
}

/// Whether a candidate works under the requested tiling.
pub open spec fn depth_usable(c: DepthCandidate, tiling: Tiling) -> bool {
    match tiling {
        Tiling::Linear => c.linear_attach,
        Tiling::Optimal => c.optimal_attach,
    }
}

/// Index of the first usable depth candidate at or after `i`.
pub open spec fn first_usable_depth(
    candidates: Seq<DepthCandidate>,
    tiling: Tiling,
    i: int,
) -> Option<int>
    decreases candidates.len() - i,
{
    if i < 0 || i >= candidates.len() {
        None
    } else if depth_usable(candidates[i], tiling) {
        Some(i)
    } else {
        first_usable_depth(candidates, tiling, i + 1)
    }
}

/// Picks the first candidate depth format that supports depth-stencil
/// attachment under the requested tiling. Callers pass the candidates in
/// preference order.
pub fn select_depth_format(candidates: &Vec<DepthCandidate>, tiling: Tiling) -> (r: Result<
    u32,
    InitError,
>)
    ensures
        match r {
            Ok(f) => match first_usable_depth(candidates@, tiling, 0) {
                Some(k) => f == candidates@[k].format,
                None => false,
            },
            Err(e) => e == InitError::NoDepthFormat && first_usable_depth(
                candidates@,
                tiling,
                0,
            ) is None,
        },
{
    let mut i: usize = 0;
    while i < candidates.len()
        invariant
            i <= candidates@.len(),
            first_usable_depth(candidates@, tiling, 0) == first_usable_depth(
                candidates@,
                tiling,
                i as int,
            ),
        decreases candidates@.len() - i,
    {
        let c = candidates[i];
        proof {
            reveal_with_fuel(first_usable_depth, 2);
        }
        let usable = match tiling {
            Tiling::Linear => c.linear_attach,
            Tiling::Optimal => c.optimal_attach,
        };
        if usable {
            return Ok(c.format);
        }
        i = i + 1;
    }
    proof {
        reveal_with_fuel(first_usable_depth, 1);
    }
    Err(InitError::NoDepthFormat)
}

/// Number of render worker threads: half the logical cores, but at least one.
pub fn worker_thread_count(parallelism: usize) -> (n: usize)
    ensures
        n == if parallelism / 2 >= 1 {
            parallelism / 2
        } else {
            1usize
        },
        n >= 1,
{
    let half = parallelism / 2;
    if half >= 1 {
        half
    } else {
        1
    }
}

/// The distinct queue families a device is created with: one entry when
/// graphics and present share a family, else both in ascending order.
pub fn unique_queue_families(graphics_family: u32, present_family: u32) -> (r: Vec<u32>)
    ensures
        graphics_family == present_family ==> r@ =~= seq![graphics_family],
        graphics_family < present_family ==> r@ =~= seq![graphics_family, present_family],
        graphics_family > present_family ==> r@ =~= seq![present_family, graphics_family],
{
    let mut r: Vec<u32> = Vec::new();
    if graphics_family == present_family {
        r.push(graphics_family);
    } else if graphics_family < present_family {
        r.push(graphics_family);
        r.push(present_family);
    } else {
        r.push(present_family);
        r.push(graphics_family);
    }
    r
}

} // verus!
