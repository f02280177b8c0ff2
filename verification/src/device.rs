//! Choice of the GPU, of its queue family and of the memory for buffers.
use vstd::prelude::*;

verus! {

/// What a queue family of a physical device offers to the renderer.
#[derive(Clone, Copy, Debug, PartialEq, Eq, Structural)]
pub struct QueueFamilySupport {
    /// The family's queues accept graphics commands.
    pub graphics: bool,
    /// The family's queues can present to the window's surface.
    pub present: bool,
}

pub open spec fn family_suitable(f: QueueFamilySupport) -> bool {
    f.graphics && f.present
}

/// Whether some queue family of the device can both draw and present.
pub open spec fn device_suitable(families: Seq<QueueFamilySupport>) -> bool {
    exists|i: int| 0 <= i < families.len() && #[trigger] family_suitable(families[i])
}

/// Picks the first physical device, in the order the driver listed them, that
/// has a queue family able to draw and to present, and the first such family
/// of it: `Some((device, family))`, or `None` when no device has one.
///
/// `devices[d][i]` describes queue family `i` of device `d`.
pub fn pick_queue_family(devices: &Vec<Vec<QueueFamilySupport>>) -> (picked: Option<(usize, usize)>)
    ensures
        match picked {
            Some((d, i)) => {
                &&& d < devices.len()
                &&& i < devices@[d as int]@.len()
                &&& family_suitable(devices@[d as int]@[i as int])
                &&& forall|e: int| 0 <= e < d ==> !device_suitable(#[trigger] devices@[e]@)
                &&& forall|j: int| 0 <= j < i ==> !family_suitable(#[trigger] devices@[d as int]@[j])
            },
            None => forall|e: int| 0 <= e < devices.len() ==> !device_suitable(#[trigger] devices@[e]@),
        },
{
    let mut d: usize = 0;
    while d < devices.len()
        invariant
            d <= devices.len(),
            forall|e: int| 0 <= e < d ==> !device_suitable(#[trigger] devices@[e]@),
        decreases devices.len() - d,
    {
        let families = &devices[d];
        let mut i: usize = 0;
        while i < families.len()
            invariant
                d < devices.len(),
                forall|e: int| 0 <= e < d ==> !device_suitable(#[trigger] devices@[e]@),
                families@ == devices@[d as int]@,
                i <= families.len(),
                forall|j: int| 0 <= j < i ==> !family_suitable(#[trigger] families@[j]),
            decreases families.len() - i,
        {
            let f = families[i];
            if f.graphics && f.present {
                return Some((d, i));
            }
            i = i + 1;
        }
        assert(!device_suitable(devices@[d as int]@));
        d = d + 1;
    }
    None
}

/// Whether memory type `i` may back a resource whose allowed types are the
/// bits of `type_filter`, and has every property bit of `properties`.
pub open spec fn memory_type_fits(type_filter: u32, type_properties: Seq<u32>, properties: u32, i: int) -> bool {
    &&& (type_filter & (1u32 << (i as u32))) != 0
    &&& (type_properties[i] & properties) == properties
}

/// Finds the first memory type that the resource allows and that has all the
/// requested properties; `type_properties[i]` are the property bits of memory
/// type `i` of the device.  `None` when there is no such type.
pub fn find_memory_type(type_filter: u32, type_properties: &Vec<u32>, properties: u32) -> (found: Option<u32>)
    requires
        type_properties.len() <= 32,
    ensures
        match found {
            Some(i) => {
                &&& i < type_properties.len()
                &&& memory_type_fits(type_filter, type_properties@, properties, i as int)
                &&& forall|j: int| 0 <= j < i ==> !#[trigger] memory_type_fits(type_filter, type_properties@, properties, j)
            },
            None => forall|j: int| 0 <= j < type_properties.len() ==> !#[trigger] memory_type_fits(type_filter, type_properties@, properties, j),
        },
{
    let count: u32 = type_properties.len() as u32;
    let mut i: u32 = 0;
    while i < count
        invariant
            count == type_properties.len(),
            count <= 32,
            i <= count,
            forall|j: int| 0 <= j < i ==> !#[trigger] memory_type_fits(type_filter, type_properties@, properties, j),
        decreases count - i,
    {
        if (type_filter & (1u32 << i)) != 0 && (type_properties[i as usize] & properties) == properties {
            return Some(i);
        }
        i = i + 1;
    }
    None
}

} // verus!
