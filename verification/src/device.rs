//! The choice of the physical device that renders and presents.

use vstd::prelude::*;

verus! {

/// The kind of a physical device.
#[derive(Debug, Clone, Copy, PartialEq, Eq, Structural)]
pub enum PhysicalDeviceType {
    DiscreteGpu,
    IntegratedGpu,
    VirtualGpu,
    Cpu,
    Other,
}

/// What the choice reads of a queue family.
#[derive(Debug, Clone, Copy, PartialEq, Eq, Structural)]
pub struct QueueFamily {
    /// The family takes graphics work.
    pub graphics: bool,
    /// The family can present to the surface.
    pub surface_support: bool,
}

/// What the choice reads of a physical device.
#[derive(Debug)]
pub struct PhysicalDevice {
    pub device_type: PhysicalDeviceType,
    /// The device supports every required extension.
    pub supports_extensions: bool,
    /// The queue families, in the order of their indices.
    pub queue_families: Vec<QueueFamily>,
}

impl PhysicalDeviceType {
    /// The preference of a kind: the lower, the better.
    pub open spec fn rank(self) -> u32 {
        match self {
            PhysicalDeviceType::DiscreteGpu => 0,
            PhysicalDeviceType::IntegratedGpu => 1,
            PhysicalDeviceType::VirtualGpu => 2,
            PhysicalDeviceType::Cpu => 3,
            PhysicalDeviceType::Other => 4,
        }
    }

    /// Executable form of [`PhysicalDeviceType::rank`].
    pub fn preference(self) -> (r: u32)
        ensures
            r == self.rank(),
    {
        match self {
            PhysicalDeviceType::DiscreteGpu => 0,
            PhysicalDeviceType::IntegratedGpu => 1,
            PhysicalDeviceType::VirtualGpu => 2,
            PhysicalDeviceType::Cpu => 3,
            PhysicalDeviceType::Other => 4,
        }
    }
}

impl QueueFamily {
    /// The family can both render and present.
    pub open spec fn suitable(self) -> bool {
        self.graphics && self.surface_support
    }
}

/// `index` is the first suitable family of `families`.
pub open spec fn first_suitable(families: Seq<QueueFamily>, index: int) -> bool {
    &&& 0 <= index < families.len()
    &&& families[index].suitable()
    &&& forall|j: int| 0 <= j < index ==> !(#[trigger] families[j]).suitable()
}

impl PhysicalDevice {
    /// The device supports the required extensions and has a suitable
    /// queue family.
    pub open spec fn eligible(&self) -> bool {
        self.supports_extensions && exists|j: int|
            0 <= j < self.queue_families@.len() && (#[trigger] self.queue_families@[j]).suitable()
    }

    /// The index of the first queue family that can render and present.
    pub fn queue_family(&self) -> (r: Option<usize>)
        ensures
            match r {
                Some(index) => first_suitable(self.queue_families@, index as int),
                None => forall|j: int|
                    0 <= j < self.queue_families@.len() ==> !(#[trigger] self.queue_families@[j]).suitable(),
            },
    {
        let mut i: usize = 0;
        while i < self.queue_families.len()
            invariant
                i <= self.queue_families@.len(),
                forall|j: int| 0 <= j < i ==> !(#[trigger] self.queue_families@[j]).suitable(),
            decreases self.queue_families@.len() - i,
        {
            let family = self.queue_families[i];
            if family.graphics && family.surface_support {
                return Some(i);
            }
            i += 1;
        }
        None
    }
}

/// `chosen` is the first of the eligible devices of the best kind.
pub open spec fn best_device(devices: Seq<PhysicalDevice>, chosen: int) -> bool {
    &&& 0 <= chosen < devices.len()
    &&& devices[chosen].eligible()
    &&& forall|j: int|
        0 <= j < devices.len() && (#[trigger] devices[j]).eligible() ==> devices[chosen].device_type.rank()
            <= devices[j].device_type.rank()
    &&& forall|j: int|
        0 <= j < chosen && (#[trigger] devices[j]).eligible() ==> devices[chosen].device_type.rank()
            < devices[j].device_type.rank()
}

/// Chooses among `devices` the first eligible one of the best kind, with its
/// first suitable queue family; `None` where no device is eligible.
pub fn select_physical_device(devices: &Vec<PhysicalDevice>) -> (r: Option<(usize, usize)>)
    ensures
        match r {
            Some((chosen, family)) => best_device(devices@, chosen as int) && first_suitable(
                devices@[chosen as int].queue_families@,
                family as int,
            ),
            None => forall|j: int| 0 <= j < devices@.len() ==> !(#[trigger] devices@[j]).eligible(),
        },
{
    let mut best: Option<(usize, usize)> = None;
    let mut i: usize = 0;
    while i < devices.len()
        invariant
            i <= devices@.len(),
            match best {
                Some((chosen, family)) => chosen < i && best_device(devices@.take(i as int), chosen as int)
                    && first_suitable(devices@[chosen as int].queue_families@, family as int),
                None => forall|j: int| 0 <= j < i ==> !(#[trigger] devices@[j]).eligible(),
            },
        decreases devices@.len() - i,
    {
        let device = &devices[i];
        let found = if device.supports_extensions {
            device.queue_family()
        } else {
            None
        };
        proof {
            assert(forall|j: int| 0 <= j < i ==> devices@.take(i as int)[j] == devices@.take(i + 1)[j]);
            assert(devices@.take(i + 1)[i as int] == devices@[i as int]);
        }
        match found {
            Some(family) => {
                let better = match best {
                    Some((chosen, _)) => device.device_type.preference()
                        < devices[chosen].device_type.preference(),
                    None => true,
                };
                if better {
                    best = Some((i, family));
                }
            },
            None => {},
        }
        proof {
            match best {
                Some((chosen, _)) => {
                    assert(best_device(devices@.take(i + 1), chosen as int));
                },
                None => {},
            }
        }
        i += 1;
    }
    proof {
        assert(devices@.take(devices@.len() as int) =~= devices@);
    }
    best
}

} // verus!
