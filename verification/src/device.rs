//! A plain-value model of the device objects the upload pipeline touches:
//! memory types, buffers, memory blocks and a one-shot completion fence.
//!
//! Buffer and memory handles are indices into the device's tables.  Memory
//! contents are byte vectors, and transfers complete synchronously, so the
//! pipeline's copies are real host-memory copies and their effect is proved
//! byte for byte.  The unverified layer maps handles one-to-one onto real
//! API objects and performs the same operations on them.
use vstd::prelude::*;

use crate::error::VkError;
use crate::error::VkErrorKind;
use crate::error::VkResult;
use crate::vkuint;
use vstd::pervasive::VecAdditionalExecFns;

verus! {

/// Memory property flag: device-local memory.
pub const MEMORY_PROPERTY_DEVICE_LOCAL: vkuint = 0x1;

/// Memory property flag: host-visible (mappable) memory.
pub const MEMORY_PROPERTY_HOST_VISIBLE: vkuint = 0x2;

/// Memory property flag: host-coherent memory.
pub const MEMORY_PROPERTY_HOST_COHERENT: vkuint = 0x4;

/// Buffer usage flag: source of a transfer command.
pub const BUFFER_USAGE_TRANSFER_SRC: vkuint = 0x1;

/// Buffer usage flag: destination of a transfer command.
pub const BUFFER_USAGE_TRANSFER_DST: vkuint = 0x2;

/// Buffer usage flag: index buffer.
pub const BUFFER_USAGE_INDEX_BUFFER: vkuint = 0x40;

/// Buffer usage flag: vertex buffer.
pub const BUFFER_USAGE_VERTEX_BUFFER: vkuint = 0x80;

/// What a freshly created buffer reports about the memory it can live in.
#[derive(Clone, Copy, Debug, PartialEq, Eq, Structural)]
pub struct MemoryRequirement {
    /// Required allocation size in bytes.
    pub size: usize,
    /// Bitmask over the device's memory types: bit `i` set means memory
    /// type `i` can back this buffer.
    pub memory_type_bits: vkuint,
}

/// One buffer object: its size, usage flags, and where it is bound.
pub struct BufferModel {
    pub size: usize,
    pub usage: vkuint,
    /// Memory handle and byte offset once bound, `None` before.
    pub binding: Option<(usize, usize)>,
    /// False once destroyed.
    pub alive: bool,
}

/// One memory allocation: its bytes, its memory type, and whether it is
/// still alive.
pub struct MemoryModel {
    pub bytes: Vec<u8>,
    pub type_index: vkuint,
    /// False once freed.
    pub alive: bool,
}

/// One region of a buffer-to-buffer copy command, offsets relative to the
/// two buffers.
#[derive(Clone, Copy, Debug, PartialEq, Eq, Structural)]
pub struct BufferCopy {
    pub src_offset: usize,
    pub dst_offset: usize,
    pub size: usize,
}

/// A completion fence for a one-shot submission.  The model performs
/// transfers synchronously, so the submission itself signals the fence.
pub struct FenceModel {
    pub signaled: bool,
}

impl FenceModel {
    /// Create a fence, signaled or not.
    pub fn new(is_signed: bool) -> (r: FenceModel)
        ensures
            r.signaled == is_signed,
    {
        FenceModel { signaled: is_signed }
    }

    /// Mark the fence signaled, as the device does once the submitted work
    /// completes.  The model executes transfers synchronously, so this
    /// follows the submission immediately.
    pub fn signal(&mut self)
        ensures
            final(self).signaled,
    {
        self.signaled = true;
    }

    /// Block until the fence is signaled, with an effectively unbounded
    /// timeout.  A wait on a fence that no submission will signal would
    /// never return, so the fence must already be signaled.
    pub fn wait(&self) -> (r: VkResult<()>)
        requires
            self.signaled,
        ensures
            r is Ok,
    {
        Ok(())
    }
}

/// Memory type `j` suits a buffer with acceptance mask `type_bits` and the
/// property flags `required`.
pub open spec fn suitable_memory_type(
    types: Seq<vkuint>,
    type_bits: vkuint,
    required: vkuint,
    j: int,
) -> bool {
    &&& 0 <= j < types.len()
    &&& (type_bits >> (j as vkuint)) & 1u32 == 1u32
    &&& types[j] & required == required
}

/// Some memory type satisfies both the acceptance mask and the property
/// flags.
pub open spec fn exists_suitable_memory_type(
    types: Seq<vkuint>,
    type_bits: vkuint,
    required: vkuint,
) -> bool {
    exists|j: int| suitable_memory_type(types, type_bits, required, j)
}

/// The device model: its memory types (property flags per type), the
/// acceptance mask every buffer reports, and the tables of created buffers
/// and allocated memory blocks.
pub struct DeviceModel {
    /// Property flags of each memory type the physical device reports.
    pub memory_types: Vec<vkuint>,
    /// The `memory_type_bits` every created buffer reports.
    pub buffer_type_bits: vkuint,
    pub buffers: Vec<BufferModel>,
    pub memories: Vec<MemoryModel>,
}

impl DeviceModel {
    pub open spec fn wf(&self) -> bool {
        self.memory_types@.len() <= 32
    }

    /// The static configuration (memory types and acceptance mask) is the
    /// same in both states.
    pub open spec fn same_config(&self, other: &DeviceModel) -> bool {
        &&& self.memory_types == other.memory_types
        &&& self.buffer_type_bits == other.buffer_type_bits
    }

    /// A device with the given memory types and buffer acceptance mask and
    /// no objects yet.
    pub fn new(memory_types: Vec<vkuint>, buffer_type_bits: vkuint) -> (r: DeviceModel)
        requires
            memory_types@.len() <= 32,
        ensures
            r.wf(),
            r.memory_types == memory_types,
            r.buffer_type_bits == buffer_type_bits,
            r.buffers@.len() == 0,
            r.memories@.len() == 0,
    {
        DeviceModel { memory_types, buffer_type_bits, buffers: Vec::new(), memories: Vec::new() }
    }

    /// Create a buffer object and report its memory requirement.
    pub fn create_buffer(&mut self, size: usize, usage: vkuint) -> (r: (usize, MemoryRequirement))
        requires
            size >= 1,
        ensures
            final(self).same_config(old(self)),
            final(self).wf() == old(self).wf(),
            final(self).memories == old(self).memories,
            r.0 == old(self).buffers@.len(),
            r.1.size == size,
            r.1.memory_type_bits == old(self).buffer_type_bits,
            final(self).buffers@ == old(self).buffers@.push(
                BufferModel { size, usage, binding: None, alive: true },
            ),
    {
        let handle = self.buffers.len();
        let requirement = MemoryRequirement { size, memory_type_bits: self.buffer_type_bits };
        self.buffers.push(BufferModel { size, usage, binding: None, alive: true });
        (handle, requirement)
    }

    /// Allocate a zero-initialized memory block of the given size from the
    /// given memory type.
    pub fn allocate_memory(&mut self, size: usize, type_index: vkuint) -> (r: usize)
        requires
            size >= 1,
            type_index < old(self).memory_types@.len(),
        ensures
            final(self).same_config(old(self)),
            final(self).wf() == old(self).wf(),
            final(self).buffers == old(self).buffers,
            r == old(self).memories@.len(),
            final(self).memories@.len() == old(self).memories@.len() + 1,
            forall|i: int|
                0 <= i < old(self).memories@.len() ==> final(self).memories@[i] == old(
                    self,
                ).memories@[i],
            final(self).memories@[r as int].bytes@.len() == size,
            forall|k: int|
                0 <= k < size ==> final(self).memories@[r as int].bytes@[k] == 0u8,
            final(self).memories@[r as int].type_index == type_index,
            final(self).memories@[r as int].alive,
    {
        let handle = self.memories.len();
        let mut bytes: Vec<u8> = Vec::new();
        let mut k: usize = 0;
        while k < size
            invariant
                k <= size,
                bytes@.len() == k,
                forall|i: int| 0 <= i < k ==> bytes@[i] == 0u8,
            decreases size - k,
        {
            bytes.push(0u8);
            k = k + 1;
        }
        self.memories.push(MemoryModel { bytes, type_index, alive: true });
        handle
    }

    /// Bind a buffer to a range of a memory block.  A buffer is bound once,
    /// and the range must lie inside the block.
    pub fn bind_buffer(&mut self, buffer: usize, memory: usize, offset: usize)
        requires
            buffer < old(self).buffers@.len(),
            old(self).buffers@[buffer as int].alive,
            old(self).buffers@[buffer as int].binding is None,
            memory < old(self).memories@.len(),
            old(self).memories@[memory as int].alive,
            offset + old(self).buffers@[buffer as int].size <= old(self).memories@[
                memory as int
            ].bytes@.len(),
        ensures
            final(self).same_config(old(self)),
            final(self).wf() == old(self).wf(),
            final(self).memories == old(self).memories,
            final(self).buffers@ == old(self).buffers@.update(
                buffer as int,
                (BufferModel { binding: Some((memory, offset)), ..old(self).buffers@[
                    buffer as int
                ] }),
            ),
    {
        let size = self.buffers[buffer].size;
        let usage = self.buffers[buffer].usage;
        self.buffers[buffer] = BufferModel {
            size,
            usage,
            binding: Some((memory, offset)),
            alive: true,
        };
    }

    /// Write `data` into a mapped memory block at `offset`, as the
    /// map-copy-unmap step does on host-visible memory.
    pub fn write_memory(&mut self, memory: usize, offset: usize, data: &Vec<u8>)
        requires
            memory < old(self).memories@.len(),
            old(self).memories@[memory as int].alive,
            offset + data@.len() <= old(self).memories@[memory as int].bytes@.len(),
        ensures
            final(self).same_config(old(self)),
            final(self).wf() == old(self).wf(),
            final(self).buffers == old(self).buffers,
            final(self).memories@.len() == old(self).memories@.len(),
            forall|i: int|
                0 <= i < old(self).memories@.len() && i != memory ==> final(self).memories@[i]
                    == old(self).memories@[i],
            final(self).memories@[memory as int].bytes@ == old(self).memories@[
                memory as int
            ].bytes@.take(offset as int) + data@ + old(self).memories@[memory as int].bytes@.skip(
                offset + data@.len(),
            ),
            final(self).memories@[memory as int].type_index == old(self).memories@[
                memory as int
            ].type_index,
            final(self).memories@[memory as int].alive == old(self).memories@[memory as int].alive,
    {
        let spliced = splice_bytes(&self.memories[memory].bytes, offset, data);
        let type_index = self.memories[memory].type_index;
        let alive = self.memories[memory].alive;
        self.memories[memory] = MemoryModel { bytes: spliced, type_index, alive };
    }

    /// Execute one region of a buffer-to-buffer copy, as the transfer queue
    /// does for a recorded copy command.  Both buffers must be alive and
    /// bound, to distinct memory blocks, and the region must lie inside
    /// both buffers.
    pub fn copy_buf2buf(&mut self, src: usize, dst: usize, region: BufferCopy)
        requires
            src < old(self).buffers@.len(),
            dst < old(self).buffers@.len(),
            old(self).buffers@[src as int].alive,
            old(self).buffers@[dst as int].alive,
            old(self).buffers@[src as int].binding matches Some((sm, so)) && sm < old(
                self,
            ).memories@.len() && old(self).memories@[sm as int].alive && so + old(self).buffers@[
                src as int
            ].size <= old(self).memories@[sm as int].bytes@.len(),
            old(self).buffers@[dst as int].binding matches Some((dm, dofs)) && dm < old(
                self,
            ).memories@.len() && old(self).memories@[dm as int].alive && dofs + old(self).buffers@[
                dst as int
            ].size <= old(self).memories@[dm as int].bytes@.len(),
            old(self).buffers@[src as int].binding->Some_0.0 != old(self).buffers@[
                dst as int
            ].binding->Some_0.0,
            region.src_offset + region.size <= old(self).buffers@[src as int].size,
            region.dst_offset + region.size <= old(self).buffers@[dst as int].size,
        ensures
            final(self).same_config(old(self)),
            final(self).wf() == old(self).wf(),
            final(self).buffers == old(self).buffers,
            final(self).memories@.len() == old(self).memories@.len(),
            ({
                let (dm, dofs) = old(self).buffers@[dst as int].binding->Some_0;
                let (sm, so) = old(self).buffers@[src as int].binding->Some_0;
                let at = dofs + region.dst_offset;
                let from = so + region.src_offset;
                &&& forall|i: int|
                    0 <= i < old(self).memories@.len() && i != dm ==> final(self).memories@[i]
                        == old(self).memories@[i]
                &&& final(self).memories@[dm as int].bytes@ == old(self).memories@[
                    dm as int
                ].bytes@.take(at) + old(self).memories@[sm as int].bytes@.subrange(
                    from,
                    from + region.size,
                ) + old(self).memories@[dm as int].bytes@.skip(at + region.size)
                &&& final(self).memories@[dm as int].type_index == old(self).memories@[
                    dm as int
                ].type_index
                &&& final(self).memories@[dm as int].alive
            }),
    {
        let (sm, so) = self.buffers[src].binding.unwrap();
        let (dm, dofs) = self.buffers[dst].binding.unwrap();
        let src_len = self.memories[sm].bytes.len();
        let dst_len = self.memories[dm].bytes.len();
        assert(so + region.src_offset + region.size <= src_len);
        assert(dofs + region.dst_offset + region.size <= dst_len);
        let data = read_region(&self.memories[sm].bytes, so + region.src_offset, region.size);
        self.write_memory(dm, dofs + region.dst_offset, &data);
    }

    /// Destroy a buffer object.
    pub fn destroy_buffer(&mut self, buffer: usize)
        requires
            buffer < old(self).buffers@.len(),
        ensures
            final(self).same_config(old(self)),
            final(self).wf() == old(self).wf(),
            final(self).memories == old(self).memories,
            final(self).buffers@ == old(self).buffers@.update(
                buffer as int,
                (BufferModel { alive: false, ..old(self).buffers@[buffer as int] }),
            ),
    {
        let size = self.buffers[buffer].size;
        let usage = self.buffers[buffer].usage;
        let binding = self.buffers[buffer].binding;
        self.buffers[buffer] = BufferModel { size, usage, binding, alive: false };
    }

    /// Free a memory block.  Its recorded bytes stay readable in the model,
    /// but the block no longer backs anything.
    pub fn free_memory(&mut self, memory: usize)
        requires
            memory < old(self).memories@.len(),
        ensures
            final(self).same_config(old(self)),
            final(self).wf() == old(self).wf(),
            final(self).buffers == old(self).buffers,
            final(self).memories@.len() == old(self).memories@.len(),
            forall|i: int|
                0 <= i < old(self).memories@.len() && i != memory ==> final(self).memories@[i]
                    == old(self).memories@[i],
            final(self).memories@[memory as int].bytes@ == old(self).memories@[
                memory as int
            ].bytes@,
            final(self).memories@[memory as int].type_index == old(self).memories@[
                memory as int
            ].type_index,
            !final(self).memories@[memory as int].alive,
    {
        let mut slot = MemoryModel { bytes: Vec::new(), type_index: 0, alive: false };
        self.memories.set_and_swap(memory, &mut slot);
        let type_index = slot.type_index;
        let mut replacement = MemoryModel { bytes: slot.bytes, type_index, alive: false };
        self.memories.set_and_swap(memory, &mut replacement);
    }
}

/// The first memory type that both the acceptance mask and the required
/// property flags admit.  Selection failure is a hard, creation-class
/// failure: there is no fallback type.
pub fn get_memory_type_index(
    device: &DeviceModel,
    type_bits: vkuint,
    required: vkuint,
) -> (r: VkResult<vkuint>)
    requires
        device.wf(),
    ensures
        r is Ok <==> exists_suitable_memory_type(device.memory_types@, type_bits, required),
        r matches Ok(i) ==> suitable_memory_type(
            device.memory_types@,
            type_bits,
            required,
            i as int,
        ) && (forall|j: int|
            0 <= j < i ==> !suitable_memory_type(device.memory_types@, type_bits, required, j)),
        r matches Err(e) ==> e.kind == VkErrorKind::Create,
{
    let n = device.memory_types.len();
    let mut i: usize = 0;
    while i < n
        invariant
            device.wf(),
            n == device.memory_types@.len(),
            i <= n,
            forall|j: int|
                0 <= j < i ==> !suitable_memory_type(device.memory_types@, type_bits, required, j),
        decreases n - i,
    {
        if (type_bits >> (i as u32)) & 1u32 == 1u32 {
            let props = device.memory_types[i];
            if props & required == required {
                proof {
                    assert((i as int) as vkuint == i as u32);
                    assert(suitable_memory_type(
                        device.memory_types@,
                        type_bits,
                        required,
                        i as int,
                    ));
                }
                return Ok(i as u32);
            }
        }
        i = i + 1;
    }
    Err(VkError::create("Memory type selection"))
}

/// Read a memory block back, byte for byte.
pub fn read_back(device: &DeviceModel, memory: usize) -> (r: Vec<u8>)
    requires
        memory < device.memories@.len(),
    ensures
        r@ == device.memories@[memory as int].bytes@,
{
    let len = device.memories[memory].bytes.len();
    let r = read_region(&device.memories[memory].bytes, 0, len);
    proof {
        assert(r@ =~= device.memories@[memory as int].bytes@);
    }
    r
}

/// Copy `size` bytes starting at `offset` out of `bytes`.
fn read_region(bytes: &Vec<u8>, offset: usize, size: usize) -> (r: Vec<u8>)
    requires
        offset + size <= bytes@.len(),
    ensures
        r@ == bytes@.subrange(offset as int, offset + size),
{
    let total = bytes.len();
    let mut r: Vec<u8> = Vec::new();
    let mut k: usize = 0;
    while k < size
        invariant
            offset + size <= total,
            total == bytes@.len(),
            k <= size,
            r@.len() == k,
            forall|i: int| 0 <= i < k ==> r@[i] == bytes@[offset + i],
        decreases size - k,
    {
        r.push(bytes[offset + k]);
        k = k + 1;
    }
    proof {
        assert(r@ =~= bytes@.subrange(offset as int, offset + size));
    }
    r
}

/// A copy of `dst` with `data` written at `at`.
fn splice_bytes(dst: &Vec<u8>, at: usize, data: &Vec<u8>) -> (r: Vec<u8>)
    requires
        at + data@.len() <= dst@.len(),
    ensures
        r@ == dst@.take(at as int) + data@ + dst@.skip(at + data@.len()),
{
    let n = dst.len();
    let dlen = data.len();
    let mut r: Vec<u8> = Vec::new();
    let mut k: usize = 0;
    while k < n
        invariant
            at + dlen <= n,
            n == dst@.len(),
            dlen == data@.len(),
            k <= n,
            r@.len() == k,
            forall|i: int|
                0 <= i < k ==> r@[i] == (if i < at {
                    dst@[i]
                } else if i < at + dlen {
                    data@[i - at]
                } else {
                    dst@[i]
                }),
        decreases n - k,
    {
        if k < at {
            r.push(dst[k]);
        } else if k < at + dlen {
            r.push(data[k - at]);
        } else {
            r.push(dst[k]);
        }
        k = k + 1;
    }
    proof {
        assert(r@ =~= dst@.take(at as int) + data@ + dst@.skip(at + data@.len()));
    }
    r
}

} // verus!
