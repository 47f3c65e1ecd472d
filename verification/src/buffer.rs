//! Buffers: what their creation is told, and the staged upload that fills a
//! device-local buffer through a host-visible one.

use vstd::prelude::*;
use crate::device_memory::DeviceMemory;
use crate::error::{Error, VkcResult};
use crate::memory_type_suits;
use crate::vertex::VERTEX_STRIDE;
use crate::vk::{MemoryRequirements, MemoryType, BUFFER_USAGE_INDEX_BUFFER_BIT,
    BUFFER_USAGE_TRANSFER_DST_BIT, BUFFER_USAGE_TRANSFER_SRC_BIT,
    BUFFER_USAGE_UNIFORM_BUFFER_BIT, BUFFER_USAGE_VERTEX_BUFFER_BIT,
    MEMORY_PROPERTY_DEVICE_LOCAL_BIT, MEMORY_PROPERTY_HOST_COHERENT_BIT,
    MEMORY_PROPERTY_HOST_VISIBLE_BIT, SHARING_MODE_EXCLUSIVE};

verus! {

/// Everything that the creation of a buffer is told.
#[derive(Clone, Copy, Debug, PartialEq, Eq, Structural)]
pub struct BufferCreateInfo {
    pub size: u64,
    pub usage: u32,
    pub sharing_mode: u32,
}

/// A buffer with the memory that backs it, bound at offset zero.
#[derive(Clone, Copy, Debug, PartialEq, Eq, Structural)]
pub struct Buffer {
    pub info: BufferCreateInfo,
    pub device_memory: DeviceMemory,
    /// Where in the memory the buffer starts.
    pub memory_offset: u64,
}

impl Buffer {
    /// Plans a buffer of `size` bytes and the memory that backs it: as large
    /// as `requirements` say, of the first memory type that they admit and
    /// that has all of `properties`. The buffer starts where the memory
    /// starts, which suits every alignment.
    pub fn new(
        size: u64,
        usage: u32,
        sharing_mode: u32,
        properties: u32,
        requirements: &MemoryRequirements,
        memory_types: &[MemoryType],
    ) -> (result: VkcResult<Buffer>)
        ensures
            match result {
                Ok(buffer) => {
                    &&& buffer.info == (BufferCreateInfo { size, usage, sharing_mode })
                    &&& buffer.memory_offset == 0
                    &&& requirements.alignment > 0 ==> buffer.memory_offset
                        % requirements.alignment == 0
                    &&& buffer.device_memory.allocation_size == requirements.size
                    &&& memory_type_suits(
                        memory_types@,
                        buffer.device_memory.memory_type_index as int,
                        requirements.memory_type_bits,
                        properties,
                    )
                    &&& forall|j: int|
                        0 <= j < buffer.device_memory.memory_type_index ==> !memory_type_suits(
                            memory_types@,
                            j,
                            requirements.memory_type_bits,
                            properties,
                        )
                },
                Err(e) => {
                    &&& e == Error::NoSuitableMemoryType
                    &&& forall|j: int|
                        !memory_type_suits(
                            memory_types@,
                            j,
                            requirements.memory_type_bits,
                            properties,
                        )
                },
            },
    {
        let info = BufferCreateInfo { size, usage, sharing_mode };
        match DeviceMemory::for_requirements(requirements, properties, memory_types) {
            Ok(device_memory) => Ok(Buffer { info, device_memory, memory_offset: 0 }),
            Err(e) => Err(e),
        }
    }

    /// What the creation of the buffer is told.
    pub fn info(&self) -> (info: BufferCreateInfo)
        ensures
            info == self.info,
    {
        self.info
    }

    /// The memory that backs the buffer.
    pub fn device_memory(&self) -> (memory: &DeviceMemory)
        ensures
            *memory == self.device_memory,
    {
        &self.device_memory
    }
}

/// Which bytes of one buffer go where in another.
#[derive(Clone, Copy, Debug, PartialEq, Eq, Structural)]
pub struct BufferCopy {
    pub src_offset: u64,
    pub dst_offset: u64,
    pub size: u64,
}

/// The copy of the first `size` bytes of one buffer onto the first `size`
/// bytes of another.
pub fn copy_buffer(size: u64) -> (region: BufferCopy)
    ensures
        region == (BufferCopy { src_offset: 0, dst_offset: 0, size }),
{
    BufferCopy { src_offset: 0, dst_offset: 0, size }
}

/// One step of a staged upload.
#[derive(Clone, Copy, Debug, PartialEq, Eq, Structural)]
pub enum UploadStep {
    /// Make the staging buffer, in memory that the host sees.
    CreateStaging,
    /// Map the staging buffer, write the bytes, unmap it.
    WriteStaging,
    /// Make the destination, in memory of the device.
    CreateDestination,
    /// Record the copy into a command buffer that runs once.
    RecordCopy,
    /// Submit the command buffer and wait until the queue is idle.
    SubmitAndWait,
    /// Destroy the staging buffer.
    DestroyStaging,
}

/// The steps of a staged upload, in their order.
pub open spec fn spec_staged_upload_steps() -> Seq<UploadStep> {
    seq![
        UploadStep::CreateStaging,
        UploadStep::WriteStaging,
        UploadStep::CreateDestination,
        UploadStep::RecordCopy,
        UploadStep::SubmitAndWait,
        UploadStep::DestroyStaging,
    ]
}

/// The steps of a staged upload, in their order: the staging buffer is
/// written before it is copied from, the copy is waited for, and the staging
/// buffer is destroyed right after.
pub fn staged_upload_steps() -> (steps: Vec<UploadStep>)
    ensures
        steps@ == spec_staged_upload_steps(),
{
    let mut steps: Vec<UploadStep> = Vec::new();
    steps.push(UploadStep::CreateStaging);
    steps.push(UploadStep::WriteStaging);
    steps.push(UploadStep::CreateDestination);
    steps.push(UploadStep::RecordCopy);
    steps.push(UploadStep::SubmitAndWait);
    steps.push(UploadStep::DestroyStaging);
    assert(steps@ =~= spec_staged_upload_steps());
    steps
}

/// A staged upload: a staging buffer that the host writes, a destination
/// that only the device reaches, and the copy from the one to the other.
#[derive(Clone, Copy, Debug, PartialEq, Eq, Structural)]
pub struct StagedUpload {
    pub staging: BufferCreateInfo,
    pub staging_properties: u32,
    pub destination: BufferCreateInfo,
    pub destination_properties: u32,
    pub copy: BufferCopy,
}

/// The staged upload of `size` bytes.
pub open spec fn spec_staged_upload(size: u64, staging_properties: u32, destination_usage: u32) -> StagedUpload {
    StagedUpload {
        staging: BufferCreateInfo {
            size,
            usage: BUFFER_USAGE_TRANSFER_SRC_BIT,
            sharing_mode: SHARING_MODE_EXCLUSIVE,
        },
        staging_properties,
        destination: BufferCreateInfo {
            size,
            usage: BUFFER_USAGE_TRANSFER_DST_BIT | destination_usage,
            sharing_mode: SHARING_MODE_EXCLUSIVE,
        },
        destination_properties: MEMORY_PROPERTY_DEVICE_LOCAL_BIT,
        copy: BufferCopy { src_offset: 0, dst_offset: 0, size },
    }
}

/// Plans the staged upload of `size` bytes into a device-local buffer that
/// is then used as `destination_usage` says.
pub fn staged_upload(
    size: u64,
    staging_properties: u32,
    destination_usage: u32,
) -> (upload: StagedUpload)
    ensures
        upload == spec_staged_upload(size, staging_properties, destination_usage),
{
    StagedUpload {
        staging: BufferCreateInfo {
            size,
            usage: BUFFER_USAGE_TRANSFER_SRC_BIT,
            sharing_mode: SHARING_MODE_EXCLUSIVE,
        },
        staging_properties,
        destination: BufferCreateInfo {
            size,
            usage: BUFFER_USAGE_TRANSFER_DST_BIT | destination_usage,
            sharing_mode: SHARING_MODE_EXCLUSIVE,
        },
        destination_properties: MEMORY_PROPERTY_DEVICE_LOCAL_BIT,
        copy: copy_buffer(size),
    }
}

/// Plans the upload of `vertex_count` vertices through a staging buffer
/// that the host sees coherently.
pub fn create_vertex_buffer(vertex_count: u32) -> (upload: StagedUpload)
    ensures
        upload == spec_staged_upload(
            (VERTEX_STRIDE * vertex_count) as u64,
            MEMORY_PROPERTY_HOST_VISIBLE_BIT | MEMORY_PROPERTY_HOST_COHERENT_BIT,
            BUFFER_USAGE_VERTEX_BUFFER_BIT,
        ),
{
    assert(VERTEX_STRIDE * vertex_count <= u64::MAX) by (nonlinear_arith)
        requires
            VERTEX_STRIDE == 32,
            vertex_count <= u32::MAX,
    ;
    let buffer_bytes: u64 = VERTEX_STRIDE as u64 * vertex_count as u64;
    staged_upload(
        buffer_bytes,
        MEMORY_PROPERTY_HOST_VISIBLE_BIT | MEMORY_PROPERTY_HOST_COHERENT_BIT,
        BUFFER_USAGE_VERTEX_BUFFER_BIT,
    )
}

/// The bytes of one index.
pub const INDEX_BYTES: u32 = 2;

/// Plans the upload of `index_count` 16-bit indices through a staging
/// buffer that the host sees.
pub fn create_index_buffer(index_count: u32) -> (upload: StagedUpload)
    ensures
        upload == spec_staged_upload(
            (INDEX_BYTES * index_count) as u64,
            MEMORY_PROPERTY_HOST_VISIBLE_BIT,
            BUFFER_USAGE_INDEX_BUFFER_BIT,
        ),
{
    assert(INDEX_BYTES * index_count <= u64::MAX) by (nonlinear_arith)
        requires
            INDEX_BYTES == 2,
            index_count <= u32::MAX,
    ;
    let buffer_bytes: u64 = INDEX_BYTES as u64 * index_count as u64;
    staged_upload(buffer_bytes, MEMORY_PROPERTY_HOST_VISIBLE_BIT, BUFFER_USAGE_INDEX_BUFFER_BIT)
}

/// The bytes of the uniform block: three matrices of four by four
/// components, each component four bytes wide.
pub const UNIFORM_BUFFER_BYTES: u64 = 192;

/// The buffer that holds the uniform block, and the memory properties it
/// needs so that the host can rewrite it every frame.
pub fn create_uniform_buffer() -> (buffer: (BufferCreateInfo, u32))
    ensures
        buffer.0 == (BufferCreateInfo {
            size: UNIFORM_BUFFER_BYTES,
            usage: BUFFER_USAGE_UNIFORM_BUFFER_BIT,
            sharing_mode: SHARING_MODE_EXCLUSIVE,
        }),
        buffer.1 == MEMORY_PROPERTY_HOST_VISIBLE_BIT | MEMORY_PROPERTY_HOST_COHERENT_BIT,
{
    (
        BufferCreateInfo {
            size: UNIFORM_BUFFER_BYTES,
            usage: BUFFER_USAGE_UNIFORM_BUFFER_BIT,
            sharing_mode: SHARING_MODE_EXCLUSIVE,
        },
        MEMORY_PROPERTY_HOST_VISIBLE_BIT | MEMORY_PROPERTY_HOST_COHERENT_BIT,
    )
}

/// The region lies within a source of `src_len` bytes and a destination of
/// `dst_len` bytes.
pub open spec fn copy_fits(region: BufferCopy, src_len: nat, dst_len: nat) -> bool {
    region.src_offset + region.size <= src_len && region.dst_offset + region.size <= dst_len
}

/// What a destination holds after a copy: the bytes of the source within the
/// region, and what it held before outside of it.
pub open spec fn contents_after_copy(src: Seq<u8>, dst: Seq<u8>, region: BufferCopy) -> Seq<u8>
    recommends
        copy_fits(region, src.len(), dst.len()),
{
    Seq::new(
        dst.len(),
        |i: int|
            if region.dst_offset <= i < region.dst_offset + region.size {
                src[i - region.dst_offset + region.src_offset]
            } else {
                dst[i]
            },
    )
}

/// A staged upload loses nothing: where the staging buffer holds `bytes`,
/// the destination holds exactly `bytes` after the planned copy, whatever it
/// held before; and copying the destination back into a second staging
/// buffer by the same plan gives `bytes` again.
pub proof fn lemma_staged_upload_round_trip(
    bytes: Seq<u8>,
    staging_properties: u32,
    destination_usage: u32,
    destination_before: Seq<u8>,
    readback_before: Seq<u8>,
)
    requires
        bytes.len() <= u64::MAX,
        destination_before.len() == bytes.len(),
        readback_before.len() == bytes.len(),
    ensures
        ({
            let upload = spec_staged_upload(
                bytes.len() as u64,
                staging_properties,
                destination_usage,
            );
            let uploaded = contents_after_copy(bytes, destination_before, upload.copy);
            &&& upload.staging.size == bytes.len()
            &&& upload.destination.size == bytes.len()
            &&& copy_fits(upload.copy, bytes.len(), destination_before.len())
            &&& uploaded == bytes
            &&& contents_after_copy(uploaded, readback_before, upload.copy) == bytes
        }),
{
    let upload = spec_staged_upload(bytes.len() as u64, staging_properties, destination_usage);
    let uploaded = contents_after_copy(bytes, destination_before, upload.copy);
    assert(uploaded =~= bytes);
    assert(contents_after_copy(uploaded, readback_before, upload.copy) =~= bytes);
}

} // verus!
