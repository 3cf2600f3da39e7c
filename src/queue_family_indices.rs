//! Resolution of the graphics and presentation queue families of one device.
use vstd::prelude::*;

verus! {

/// The `VK_QUEUE_GRAPHICS_BIT` flag of a queue family.
pub const QUEUE_GRAPHICS_BIT: u32 = 0x1;

/// What the device reports of one of its queue families: its raw
/// `VkQueueFlags` and whether it can present to the active surface.
#[derive(Clone, Copy, Debug, PartialEq, Eq, Structural)]
pub struct QueueFamilyInfo {
    pub queue_flags: u32,
    pub supports_present: bool,
}

/// Why a device cannot be used.
#[derive(Clone, Copy, Debug, PartialEq, Eq, Structural)]
pub enum SuitabilityError {
    /// No family supports graphics, or none can present to the surface.
    MissingQueueFamilies,
}

/// The queue family indices used for drawing and for presentation
/// (possibly the same index).
#[derive(Clone, Copy, Debug, PartialEq, Eq, Structural)]
pub struct QueueFamilyIndices {
    pub graphics: u32,
    pub present: u32,
}

pub open spec fn supports_graphics(f: QueueFamilyInfo) -> bool {
    f.queue_flags & QUEUE_GRAPHICS_BIT == QUEUE_GRAPHICS_BIT
}

pub open spec fn supports_present(f: QueueFamilyInfo) -> bool {
    f.supports_present
}

/// `i` is the first family of `fams` that supports graphics.
pub open spec fn is_first_graphics(fams: Seq<QueueFamilyInfo>, i: int) -> bool {
    &&& 0 <= i < fams.len()
    &&& supports_graphics(fams[i])
    &&& forall|j: int| 0 <= j < i ==> !supports_graphics(#[trigger] fams[j])
}

/// `i` is the first family of `fams` that can present to the surface.
pub open spec fn is_first_present(fams: Seq<QueueFamilyInfo>, i: int) -> bool {
    &&& 0 <= i < fams.len()
    &&& supports_present(fams[i])
    &&& forall|j: int| 0 <= j < i ==> !supports_present(#[trigger] fams[j])
}

pub open spec fn has_graphics(fams: Seq<QueueFamilyInfo>) -> bool {
    exists|i: int| 0 <= i < fams.len() && supports_graphics(#[trigger] fams[i])
}

pub open spec fn has_present(fams: Seq<QueueFamilyInfo>) -> bool {
    exists|i: int| 0 <= i < fams.len() && supports_present(#[trigger] fams[i])
}

/// The families of a device are usable: one draws and one presents.
pub open spec fn families_suitable(fams: Seq<QueueFamilyInfo>) -> bool {
    has_graphics(fams) && has_present(fams)
}

/// The indices that a device with families `fams` uses, when it is suitable.
pub open spec fn indices_of(fams: Seq<QueueFamilyInfo>) -> QueueFamilyIndices
    recommends
        families_suitable(fams),
{
    let g = choose|i: int| is_first_graphics(fams, i);
    let p = choose|i: int| is_first_present(fams, i);
    QueueFamilyIndices { graphics: g as u32, present: p as u32 }
}

/// Only one family is the first to support graphics.
pub proof fn lemma_first_graphics_unique(fams: Seq<QueueFamilyInfo>, i: int, k: int)
    requires
        is_first_graphics(fams, i),
        is_first_graphics(fams, k),
    ensures
        i == k,
{
}

/// Only one family is the first to present.
pub proof fn lemma_first_present_unique(fams: Seq<QueueFamilyInfo>, i: int, k: int)
    requires
        is_first_present(fams, i),
        is_first_present(fams, k),
    ensures
        i == k,
{
}

impl QueueFamilyIndices {
    /// The distinct families among the two: one when drawing and presenting
    /// share a family, else both, graphics first. Queues are created for
    /// these, and a swapchain shared between two families lists them.
    pub fn distinct_families(&self) -> (r: Vec<u32>)
        ensures
            self.graphics == self.present ==> r@ == seq![self.graphics],
            self.graphics != self.present ==> r@ == seq![self.graphics, self.present],
    {
        let mut r: Vec<u32> = Vec::new();
        r.push(self.graphics);
        if self.present != self.graphics {
            r.push(self.present);
        }
        assert(r@ =~= if self.graphics == self.present { seq![self.graphics] } else { seq![self.graphics, self.present] });
        r
    }

    /// Finds the first family that supports graphics and, independently, the
    /// first family that can present to the surface.
    pub fn get(families: &Vec<QueueFamilyInfo>) -> (r: Result<QueueFamilyIndices, SuitabilityError>)
        requires
            families@.len() <= u32::MAX,
        ensures
            r is Ok <==> families_suitable(families@),
            r is Ok ==> r->Ok_0 == indices_of(families@),
            r is Ok ==> is_first_graphics(families@, r->Ok_0.graphics as int)
                && is_first_present(families@, r->Ok_0.present as int),
    {
        let mut graphics: Option<u32> = None;
        let mut present: Option<u32> = None;
        let mut i: usize = 0;
        while i < families.len()
            invariant
                i <= families@.len() <= u32::MAX,
                graphics is None ==> forall|j: int| 0 <= j < i ==> !supports_graphics(#[trigger] families@[j]),
                graphics is Some ==> is_first_graphics(families@, graphics->0 as int),
                present is None ==> forall|j: int| 0 <= j < i ==> !supports_present(#[trigger] families@[j]),
                present is Some ==> is_first_present(families@, present->0 as int),
            decreases families@.len() - i,
        {
            let f = families[i];
            if graphics.is_none() && f.queue_flags & QUEUE_GRAPHICS_BIT == QUEUE_GRAPHICS_BIT {
                graphics = Some(i as u32);
            }
            if present.is_none() && f.supports_present {
                present = Some(i as u32);
            }
            i += 1;
        }
        match (graphics, present) {
            (Some(g), Some(p)) => {
                proof {
                    let gi = choose|k: int| is_first_graphics(families@, k);
                    let pi = choose|k: int| is_first_present(families@, k);
                    lemma_first_graphics_unique(families@, g as int, gi);
                    lemma_first_present_unique(families@, p as int, pi);
                }
                Ok(QueueFamilyIndices { graphics: g, present: p })
            },
            _ => Err(SuitabilityError::MissingQueueFamilies),
        }
    }
}

} // verus!
