use vstd::prelude::*;

verus! {

/// The kinds of physical device.
#[derive(Clone, Copy, PartialEq, Eq, Structural, Debug)]
pub enum PhysicalDeviceType {
    DiscreteGpu,
    IntegratedGpu,
    VirtualGpu,
    Cpu,
    Other,
}

/// How strongly a kind of device is preferred: lower is better.
pub open spec fn spec_device_type_score(t: PhysicalDeviceType) -> u32 {
    match t {
        PhysicalDeviceType::DiscreteGpu => 0,
        PhysicalDeviceType::IntegratedGpu => 1,
        PhysicalDeviceType::VirtualGpu => 2,
        PhysicalDeviceType::Cpu => 3,
        PhysicalDeviceType::Other => 4,
    }
}

/// How strongly a kind of device is preferred: lower is better.
pub fn device_type_score(t: PhysicalDeviceType) -> (s: u32)
    ensures
        s == spec_device_type_score(t),
{
    match t {
        PhysicalDeviceType::DiscreteGpu => 0,
        PhysicalDeviceType::IntegratedGpu => 1,
        PhysicalDeviceType::VirtualGpu => 2,
        PhysicalDeviceType::Cpu => 3,
        PhysicalDeviceType::Other => 4,
    }
}

/// Devices are preferred in this order: a discrete GPU, then an integrated GPU, then a
/// virtual GPU, then a CPU, then any other kind; no two kinds are preferred equally.
pub proof fn lemma_device_preference_order()
    ensures
        spec_device_type_score(PhysicalDeviceType::DiscreteGpu) < spec_device_type_score(
            PhysicalDeviceType::IntegratedGpu,
        ),
        spec_device_type_score(PhysicalDeviceType::IntegratedGpu) < spec_device_type_score(
            PhysicalDeviceType::VirtualGpu,
        ),
        spec_device_type_score(PhysicalDeviceType::VirtualGpu) < spec_device_type_score(
            PhysicalDeviceType::Cpu,
        ),
        spec_device_type_score(PhysicalDeviceType::Cpu) < spec_device_type_score(
            PhysicalDeviceType::Other,
        ),
{
}

/// A queue family of a device: whether it draws, and whether it presents to the window.
#[derive(Clone, Copy, PartialEq, Eq, Structural, Debug)]
pub struct QueueFamilyInfo {
    pub graphics: bool,
    pub present: bool,
}

/// A physical device that could draw the window.
pub struct DeviceCandidate {
    pub device_type: PhysicalDeviceType,
    pub supports_extensions: bool,
    pub queue_families: Vec<QueueFamilyInfo>,
}

/// Whether family `i` of `families` draws and presents.
pub open spec fn family_suitable(families: Seq<QueueFamilyInfo>, i: int) -> bool {
    families[i].graphics && families[i].present
}

/// Whether device `d` can be used: it supports the extensions and has a family that draws
/// and presents.
pub open spec fn eligible(devices: Seq<DeviceCandidate>, d: int) -> bool {
    &&& devices[d].supports_extensions
    &&& exists|i: int| 0 <= i < devices[d].queue_families@.len() && family_suitable(
        devices[d].queue_families@,
        i,
    )
}

/// The first family of `families` that draws and presents.
fn suitable_family(families: &Vec<QueueFamilyInfo>) -> (r: Option<usize>)
    ensures
        match r {
            Some(i) => {
                &&& i < families@.len()
                &&& family_suitable(families@, i as int)
                &&& forall|j: int| 0 <= j < i ==> !family_suitable(families@, j)
            },
            None => forall|j: int| 0 <= j < families@.len() ==> !family_suitable(families@, j),
        },
{
    let mut i: usize = 0;
    while i < families.len()
        invariant
            i <= families@.len(),
            forall|j: int| 0 <= j < i ==> !family_suitable(families@, j),
        decreases families@.len() - i,
    {
        if families[i].graphics && families[i].present {
            return Some(i);
        }
        i = i + 1;
    }
    None
}

/// Picks the device to draw with: among the devices that support the extensions and have a
/// queue family that draws and presents, the first one of the most preferred kind, together
/// with the index of its first such family. `None` where no device qualifies.
pub fn select_physical_device(devices: &Vec<DeviceCandidate>) -> (r: Option<(usize, u32)>)
    requires
        forall|d: int| 0 <= d < devices@.len() ==> #[trigger] devices@[d].queue_families@.len() <= u32::MAX,
    ensures
        match r {
            Some((d, q)) => {
                &&& d < devices@.len()
                &&& eligible(devices@, d as int)
                &&& q < devices@[d as int].queue_families@.len()
                &&& family_suitable(devices@[d as int].queue_families@, q as int)
                &&& forall|j: int| 0 <= j < q ==> !family_suitable(devices@[d as int].queue_families@, j)
                &&& forall|e: int| 0 <= e < devices@.len() && eligible(devices@, e) ==> spec_device_type_score(
                    devices@[d as int].device_type,
                ) <= spec_device_type_score(#[trigger] devices@[e].device_type)
                &&& forall|e: int| 0 <= e < d && eligible(devices@, e) ==> spec_device_type_score(
                    devices@[d as int].device_type,
                ) < spec_device_type_score(#[trigger] devices@[e].device_type)
            },
            None => forall|e: int| 0 <= e < devices@.len() ==> !#[trigger] eligible(devices@, e),
        },
{
    let mut best: Option<(usize, u32, u32)> = None;
    let mut d: usize = 0;
    while d < devices.len()
        invariant
            d <= devices@.len(),
            forall|k: int| 0 <= k < devices@.len() ==> #[trigger] devices@[k].queue_families@.len() <= u32::MAX,
            match best {
                Some((b, q, score)) => {
                    &&& b < d
                    &&& eligible(devices@, b as int)
                    &&& score == spec_device_type_score(devices@[b as int].device_type)
                    &&& q < devices@[b as int].queue_families@.len()
                    &&& family_suitable(devices@[b as int].queue_families@, q as int)
                    &&& forall|j: int| 0 <= j < q ==> !family_suitable(devices@[b as int].queue_families@, j)
                    &&& forall|e: int| 0 <= e < d && eligible(devices@, e) ==> score
                        <= spec_device_type_score(#[trigger] devices@[e].device_type)
                    &&& forall|e: int| 0 <= e < b && eligible(devices@, e) ==> score
                        < spec_device_type_score(#[trigger] devices@[e].device_type)
                },
                None => forall|e: int| 0 <= e < d ==> !#[trigger] eligible(devices@, e),
            },
        decreases devices@.len() - d,
    {
        let device = &devices[d];
        if device.supports_extensions {
            match suitable_family(&device.queue_families) {
                Some(q) => {
                    let score = device_type_score(device.device_type);
                    let better = match best {
                        Some((_, _, best_score)) => score < best_score,
                        None => true,
                    };
                    if better {
                        best = Some((d, q as u32, score));
                    }
                },
                None => {
                    proof {
                        assert(!eligible(devices@, d as int));
                    }
                },
            }
        }
        d = d + 1;
    }
    match best {
        Some((b, q, _)) => Some((b, q)),
        None => None,
    }
}

/// What came of asking the swapchain for an image.
#[derive(Clone, Copy, PartialEq, Eq, Structural, Debug)]
pub enum AcquireOutcome {
    /// An image, and whether the swapchain no longer fits the window exactly.
    Acquired { suboptimal: bool },
    /// The swapchain no longer fits the window.
    OutOfDate,
    /// Any other failure.
    Failed,
}

/// What to do after asking the swapchain for an image.
#[derive(Clone, Copy, PartialEq, Eq, Structural, Debug)]
pub enum AcquireDecision {
    /// Draw into the image.
    Draw,
    /// Recreate the swapchain and ask again.
    RecreateAndRetry,
    /// Skip the frame.
    SkipFrame,
}

/// What came of recreating the swapchain.
#[derive(Clone, Copy, PartialEq, Eq, Structural, Debug)]
pub enum RecreateOutcome {
    Recreated,
    /// The window's size cannot be used now (it is being resized); try again later.
    ExtentNotSupported,
}

/// What came of submitting a frame.
#[derive(Clone, Copy, PartialEq, Eq, Structural, Debug)]
pub enum FlushOutcome {
    Flushed,
    OutOfDate,
    Failed,
}

/// Whether the swapchain has to be recreated before the next frame.
pub struct SwapchainStatus {
    pub recreate_swapchain: bool,
}

impl SwapchainStatus {
    /// A fresh swapchain.
    pub fn new() -> (s: Self)
        ensures
            !s.recreate_swapchain,
    {
        SwapchainStatus { recreate_swapchain: false }
    }

    /// Records a recreation: a recreated swapchain fits; one that could not be recreated
    /// still has to be.
    pub fn after_recreate(&mut self, outcome: RecreateOutcome)
        ensures
            final(self).recreate_swapchain == (old(self).recreate_swapchain && outcome
                == RecreateOutcome::ExtentNotSupported),
    {
        match outcome {
            RecreateOutcome::Recreated => {
                self.recreate_swapchain = false;
            },
            RecreateOutcome::ExtentNotSupported => {},
        }
    }

    /// Decides after asking for an image: an image is drawn into, and a suboptimal one marks
    /// the swapchain for recreation; an out-of-date swapchain is recreated and asked again;
    /// any other failure skips the frame.
    pub fn after_acquire(&mut self, outcome: AcquireOutcome) -> (d: AcquireDecision)
        ensures
            match outcome {
                AcquireOutcome::Acquired { suboptimal } => d == AcquireDecision::Draw
                    && final(self).recreate_swapchain == (old(self).recreate_swapchain || suboptimal),
                AcquireOutcome::OutOfDate => d == AcquireDecision::RecreateAndRetry
                    && final(self).recreate_swapchain == old(self).recreate_swapchain,
                AcquireOutcome::Failed => d == AcquireDecision::SkipFrame
                    && final(self).recreate_swapchain == old(self).recreate_swapchain,
            },
    {
        match outcome {
            AcquireOutcome::Acquired { suboptimal } => {
                if suboptimal {
                    self.recreate_swapchain = true;
                }
                AcquireDecision::Draw
            },
            AcquireOutcome::OutOfDate => AcquireDecision::RecreateAndRetry,
            AcquireOutcome::Failed => AcquireDecision::SkipFrame,
        }
    }

    /// Records a submitted frame: an out-of-date swapchain is marked for recreation.
    pub fn after_flush(&mut self, outcome: FlushOutcome)
        ensures
            final(self).recreate_swapchain == (old(self).recreate_swapchain || outcome
                == FlushOutcome::OutOfDate),
    {
        match outcome {
            FlushOutcome::OutOfDate => {
                self.recreate_swapchain = true;
            },
            _ => {},
        }
    }
}

/// Whether the attachments must be rebuilt to match images of size `target`.
pub fn attachments_need_resize(current: [u32; 2], target: [u32; 2]) -> (b: bool)
    ensures
        b == (current@ != target@),
{
    let b = current[0] != target[0] || current[1] != target[1];
    proof {
        if !b {
            assert(current@ =~= target@);
        }
    }
    b
}

} // verus!
