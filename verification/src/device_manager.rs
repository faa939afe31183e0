//! Physical-device selection: among the devices the driver enumerates,
//! pick the best-ranked one that supports the required extensions and has
//! a queue family that is graphics-capable and can present to the surface.
//!
//! The enumeration itself and the handles are the driver's; selection
//! works on what the policy actually reads of each device: its type, its
//! extension support, and each queue family's capabilities.

use vstd::prelude::*;

verus! {

/// The driver-reported kind of a physical device, ordered by preference:
/// discrete over integrated over virtual over software.
#[derive(Clone, Copy, Debug, PartialEq, Eq, Structural)]
pub enum PhysicalDeviceType {
    DiscreteGpu,
    IntegratedGpu,
    VirtualGpu,
    Cpu,
    Other,
}

impl PhysicalDeviceType {
    /// The selection preference: lower is better.
    pub open spec fn rank(self) -> int {
        match self {
            PhysicalDeviceType::DiscreteGpu => 0,
            PhysicalDeviceType::IntegratedGpu => 1,
            PhysicalDeviceType::VirtualGpu => 2,
            PhysicalDeviceType::Cpu => 3,
            PhysicalDeviceType::Other => 4,
        }
    }

    /// The preference rank as a value.
    pub fn rank_value(&self) -> (r: u32)
        ensures
            r == self.rank(),
    {
        match self {
            PhysicalDeviceType::DiscreteGpu => 0,
            PhysicalDeviceType::IntegratedGpu => 1,
            PhysicalDeviceType::VirtualGpu => 2,
            PhysicalDeviceType::Cpu => 3,
            PhysicalDeviceType::Other => 4,
        }
    }
}

/// What selection reads of one queue family: whether it is
/// graphics-capable and whether it can present to the target surface.
#[derive(Clone, Copy, Debug, PartialEq, Eq, Structural)]
pub struct QueueFamily {
    pub graphics: bool,
    pub surface_support: bool,
}

/// A queue family usable for this pipeline: graphics-capable and able to
/// present to the surface.
pub open spec fn family_suitable(f: QueueFamily) -> bool {
    f.graphics && f.surface_support
}

/// What selection reads of one enumerated physical device.
#[derive(Clone, Debug)]
pub struct DeviceCandidate {
    pub supports_required_extensions: bool,
    pub device_type: PhysicalDeviceType,
    pub queue_families: Vec<QueueFamily>,
}

impl DeviceCandidate {
    /// A device the pipeline can run on: it supports the required
    /// extensions and has at least one suitable queue family.
    pub open spec fn eligible(self) -> bool {
        &&& self.supports_required_extensions
        &&& exists|j: int|
            0 <= j < self.queue_families@.len() && family_suitable(#[trigger] self.queue_families@[j])
    }
}

/// The first suitable queue family of a candidate, if any.
fn find_suitable_family(families: &Vec<QueueFamily>) -> (r: Option<usize>)
    ensures
        match r {
            Some(q) => {
                &&& q < families@.len()
                &&& family_suitable(families@[q as int])
                &&& forall|k: int| 0 <= k < q ==> !family_suitable(#[trigger] families@[k])
            },
            None => forall|k: int|
                0 <= k < families@.len() ==> !family_suitable(#[trigger] families@[k]),
        },
{
    let mut j: usize = 0;
    while j < families.len()
        invariant
            j <= families@.len(),
            forall|k: int| 0 <= k < j ==> !family_suitable(#[trigger] families@[k]),
        decreases families@.len() - j,
    {
        let f = families[j];
        if f.graphics && f.surface_support {
            return Some(j);
        }
        j = j + 1;
    }
    None
}

/// Picks the physical device to run on: among the eligible candidates, the
/// one with the best (lowest) device-type rank, taking the earliest
/// enumerated device among equally ranked ones, together with the index of
/// its first suitable queue family. Returns nothing if and only if no
/// candidate is eligible — a broken environment that aborts startup.
pub fn select_physical_device(candidates: &Vec<DeviceCandidate>) -> (r: Option<(usize, usize)>)
    ensures
        r is Some <==> exists|i: int|
            0 <= i < candidates@.len() && (#[trigger] candidates@[i]).eligible(),
        r matches Some((i, q)) ==> {
            &&& i < candidates@.len()
            &&& candidates@[i as int].eligible()
            &&& q < candidates@[i as int].queue_families@.len()
            &&& family_suitable(candidates@[i as int].queue_families@[q as int])
            &&& forall|k: int|
                0 <= k < q ==> !family_suitable(
                    #[trigger] candidates@[i as int].queue_families@[k],
                )
            &&& forall|k: int|
                0 <= k < candidates@.len() && (#[trigger] candidates@[k]).eligible()
                    ==> candidates@[i as int].device_type.rank()
                    <= candidates@[k].device_type.rank()
            &&& forall|k: int|
                0 <= k < i && (#[trigger] candidates@[k]).eligible()
                    ==> candidates@[k].device_type.rank()
                    > candidates@[i as int].device_type.rank()
        },
{
    let mut best: Option<(usize, usize)> = None;
    let mut best_rank: u32 = 0;
    let mut i: usize = 0;
    while i < candidates.len()
        invariant
            i <= candidates@.len(),
            match best {
                Some((b, q)) => {
                    &&& b < i
                    &&& candidates@[b as int].eligible()
                    &&& best_rank == candidates@[b as int].device_type.rank()
                    &&& q < candidates@[b as int].queue_families@.len()
                    &&& family_suitable(candidates@[b as int].queue_families@[q as int])
                    &&& forall|k: int|
                        0 <= k < q ==> !family_suitable(
                            #[trigger] candidates@[b as int].queue_families@[k],
                        )
                    &&& forall|k: int|
                        0 <= k < i && (#[trigger] candidates@[k]).eligible()
                            ==> best_rank <= candidates@[k].device_type.rank()
                    &&& forall|k: int|
                        0 <= k < b && (#[trigger] candidates@[k]).eligible()
                            ==> candidates@[k].device_type.rank() > best_rank
                },
                None => forall|k: int|
                    0 <= k < i ==> !(#[trigger] candidates@[k]).eligible(),
            },
        decreases candidates@.len() - i,
    {
        let c = &candidates[i];
        if c.supports_required_extensions {
            match find_suitable_family(&c.queue_families) {
                Some(q) => {
                    let rank = c.device_type.rank_value();
                    let better = match best {
                        Some(_) => rank < best_rank,
                        None => true,
                    };
                    if better {
                        best = Some((i, q));
                        best_rank = rank;
                    }
                },
                None => {},
            }
        }
        i = i + 1;
    }
    best
}

} // verus!
