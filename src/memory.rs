//! Buffer and memory-type decisions of the resource allocator: which memory
//! type backs a resource, how large a buffer is, and which two buffers an
//! upload through a staging buffer uses.
use vstd::prelude::*;

verus! {

/// `VK_MEMORY_PROPERTY_DEVICE_LOCAL_BIT`.
pub const MEMORY_DEVICE_LOCAL: u32 = 0x1;

/// `VK_MEMORY_PROPERTY_HOST_VISIBLE_BIT`.
pub const MEMORY_HOST_VISIBLE: u32 = 0x2;

/// `VK_MEMORY_PROPERTY_HOST_COHERENT_BIT`.
pub const MEMORY_HOST_COHERENT: u32 = 0x4;

/// `VK_BUFFER_USAGE_TRANSFER_SRC_BIT`.
pub const USAGE_TRANSFER_SRC: u32 = 0x1;

/// `VK_BUFFER_USAGE_TRANSFER_DST_BIT`.
pub const USAGE_TRANSFER_DST: u32 = 0x2;

/// `VK_BUFFER_USAGE_UNIFORM_BUFFER_BIT`.
pub const USAGE_UNIFORM_BUFFER: u32 = 0x10;

/// `VK_BUFFER_USAGE_INDEX_BUFFER_BIT`.
pub const USAGE_INDEX_BUFFER: u32 = 0x40;

/// `VK_BUFFER_USAGE_VERTEX_BUFFER_BIT`.
pub const USAGE_VERTEX_BUFFER: u32 = 0x80;

/// The number of memory types a device can report.
pub const MAX_MEMORY_TYPES: u32 = 32;

/// Why a resource cannot be allocated.
#[derive(Clone, Copy, Debug, PartialEq, Eq, Structural)]
pub enum AllocationError {
    /// No memory type is allowed for the resource and has the properties asked for.
    UnsupportedMemoryType,
    /// The byte size does not fit in a `u64`.
    SizeOverflow,
}

/// A buffer to create: its size in bytes, usage flags and memory properties.
#[derive(Clone, Copy, Debug, PartialEq, Eq, Structural)]
pub struct BufferRequest {
    pub size: u64,
    pub usage: u32,
    pub properties: u32,
}

/// The two buffers of an upload: a host-visible staging buffer that the host
/// fills, and the destination that a GPU copy fills from it.
#[derive(Clone, Copy, Debug, PartialEq, Eq, Structural)]
pub struct UploadPlan {
    pub staging: BufferRequest,
    pub destination: BufferRequest,
}

/// Memory type `i` is allowed by the resource's `memoryTypeBits`.
pub open spec fn type_allowed(type_bits: u32, i: int) -> bool {
    0 <= i < MAX_MEMORY_TYPES && (type_bits >> (i as u32)) & 1 == 1
}

/// Flags `flags` include every flag of `wanted`.
pub open spec fn has_flags(flags: u32, wanted: u32) -> bool {
    flags & wanted == wanted
}

pub open spec fn type_fits(types: Seq<u32>, type_bits: u32, properties: u32, i: int) -> bool {
    0 <= i < types.len() && type_allowed(type_bits, i) && has_flags(types[i], properties)
}

/// `i` is the first memory type that fits the resource and the properties.
pub open spec fn is_first_fit(types: Seq<u32>, type_bits: u32, properties: u32, i: int) -> bool {
    &&& type_fits(types, type_bits, properties, i)
    &&& forall|j: int| 0 <= j < i ==> !type_fits(types, type_bits, properties, j)
}

pub open spec fn any_fit(types: Seq<u32>, type_bits: u32, properties: u32) -> bool {
    exists|i: int| type_fits(types, type_bits, properties, i)
}

/// Picks the first memory type (of those the device reports, by their
/// property flags) that the resource's `type_bits` allow and that has all of
/// `properties`.
pub fn find_memory_type(types: &Vec<u32>, type_bits: u32, properties: u32) -> (r: Result<
    u32,
    AllocationError,
>)
    ensures
        r is Ok <==> any_fit(types@, type_bits, properties),
        r is Ok ==> is_first_fit(types@, type_bits, properties, r->Ok_0 as int),
        r is Err ==> r->Err_0 == AllocationError::UnsupportedMemoryType,
{
    let mut i: u32 = 0;
    while i < MAX_MEMORY_TYPES && (i as usize) < types.len()
        invariant
            i <= MAX_MEMORY_TYPES,
            i <= types@.len(),
            forall|j: int| 0 <= j < i ==> !type_fits(types@, type_bits, properties, j),
        decreases MAX_MEMORY_TYPES - i,
    {
        if (type_bits >> i) & 1 == 1 && types[i as usize] & properties == properties {
            assert(type_fits(types@, type_bits, properties, i as int));
            return Ok(i);
        }
        i += 1;
    }
    Err(AllocationError::UnsupportedMemoryType)
}

/// The byte size of `count` elements of `elem_size` bytes each.
pub fn byte_size(elem_size: u64, count: u64) -> (r: Result<u64, AllocationError>)
    ensures
        r is Ok <==> elem_size * count <= u64::MAX,
        r is Ok ==> r->Ok_0 == elem_size * count,
        r is Err ==> r->Err_0 == AllocationError::SizeOverflow,
{
    match elem_size.checked_mul(count) {
        Some(n) => Ok(n),
        None => Err(AllocationError::SizeOverflow),
    }
}

/// The buffers of an upload of `size` bytes into a resource with usage
/// `final_usage` and memory properties `final_properties`: a staging buffer
/// that is a transfer source in host-visible, coherent memory, and a
/// destination that is also a transfer target.
pub fn plan_staging_upload(size: u64, final_usage: u32, final_properties: u32) -> (r: UploadPlan)
    ensures
        r.staging == (BufferRequest {
            size,
            usage: USAGE_TRANSFER_SRC,
            properties: MEMORY_HOST_VISIBLE | MEMORY_HOST_COHERENT,
        }),
        r.destination == (BufferRequest {
            size,
            usage: final_usage | USAGE_TRANSFER_DST,
            properties: final_properties,
        }),
{
    UploadPlan {
        staging: BufferRequest {
            size,
            usage: USAGE_TRANSFER_SRC,
            properties: MEMORY_HOST_VISIBLE | MEMORY_HOST_COHERENT,
        },
        destination: BufferRequest {
            size,
            usage: final_usage | USAGE_TRANSFER_DST,
            properties: final_properties,
        },
    }
}

/// The buffers that upload `count` elements of `elem_size` bytes into
/// device-local memory for use as `final_usage`.
pub fn plan_device_local_upload(elem_size: u64, count: u64, final_usage: u32) -> (r: Result<
    UploadPlan,
    AllocationError,
>)
    ensures
        r is Ok <==> elem_size * count <= u64::MAX,
        r is Ok ==> r->Ok_0.staging.size == elem_size * count
            && r->Ok_0.destination.size == elem_size * count
            && r->Ok_0.staging.usage == USAGE_TRANSFER_SRC
            && r->Ok_0.staging.properties == MEMORY_HOST_VISIBLE | MEMORY_HOST_COHERENT
            && r->Ok_0.destination.usage == final_usage | USAGE_TRANSFER_DST
            && r->Ok_0.destination.properties == MEMORY_DEVICE_LOCAL,
        r is Err ==> r->Err_0 == AllocationError::SizeOverflow,
{
    let size = byte_size(elem_size, count)?;
    Ok(plan_staging_upload(size, final_usage, MEMORY_DEVICE_LOCAL))
}

/// The per-image uniform buffers of a swapchain generation: one host-visible,
/// coherent uniform buffer of `size` bytes for each of `image_count` images.
pub fn plan_uniform_buffers(size: u64, image_count: usize) -> (r: Vec<BufferRequest>)
    ensures
        r@.len() == image_count,
        forall|i: int|
            0 <= i < image_count ==> r@[i] == (BufferRequest {
                size,
                usage: USAGE_UNIFORM_BUFFER,
                properties: MEMORY_HOST_VISIBLE | MEMORY_HOST_COHERENT,
            }),
{
    let mut out: Vec<BufferRequest> = Vec::new();
    let mut i: usize = 0;
    while i < image_count
        invariant
            i <= image_count,
            out@.len() == i,
            forall|k: int|
                0 <= k < i ==> out@[k] == (BufferRequest {
                    size,
                    usage: USAGE_UNIFORM_BUFFER,
                    properties: MEMORY_HOST_VISIBLE | MEMORY_HOST_COHERENT,
                }),
        decreases image_count - i,
    {
        out.push(
            BufferRequest {
                size,
                usage: USAGE_UNIFORM_BUFFER,
                properties: MEMORY_HOST_VISIBLE | MEMORY_HOST_COHERENT,
            },
        );
        i += 1;
    }
    out
}

} // verus!
