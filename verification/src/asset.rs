//! The staging-to-device upload pipeline for static mesh assets.
//!
//! An asset's source bytes — packed vertex attributes, optionally followed
//! by index data — move into device-local memory exactly once, through a
//! host-visible staging hop: stage, copy on the transfer queue gated by a
//! fence, wait, release the staging resources.  The destination mirrors the
//! staging layout exactly (vertex range at offset 0, index range right
//! after it), and the destination bytes are proved equal to the source,
//! so the destination buffers are safe to bind as soon as the upload
//! returns.
use vstd::prelude::*;

use crate::device::exists_suitable_memory_type;
use crate::device::get_memory_type_index;
use crate::device::suitable_memory_type;
use crate::device::BufferCopy;
use crate::device::DeviceModel;
use crate::device::FenceModel;
use crate::device::BUFFER_USAGE_INDEX_BUFFER;
use crate::device::BUFFER_USAGE_TRANSFER_DST;
use crate::device::BUFFER_USAGE_TRANSFER_SRC;
use crate::device::BUFFER_USAGE_VERTEX_BUFFER;
use crate::device::MEMORY_PROPERTY_DEVICE_LOCAL;
use crate::device::MEMORY_PROPERTY_HOST_COHERENT;
use crate::device::MEMORY_PROPERTY_HOST_VISIBLE;
use crate::error::VkErrorKind;
use crate::error::VkResult;

verus! {

/// A mesh asset ready for upload: packed vertex-attribute bytes and,
/// for an indexed mesh, packed index bytes.
pub struct MeshAsset {
    pub attributes: Vec<u8>,
    pub indices: Option<Vec<u8>>,
}

impl MeshAsset {
    /// Both regions are non-empty where present, and the packed total fits
    /// the address space.
    pub open spec fn wf(&self) -> bool {
        &&& self.attributes@.len() >= 1
        &&& (self.indices matches Some(v) ==> v@.len() >= 1)
        &&& self.attributes@.len() + self.index_size() <= usize::MAX
    }

    /// Size of the vertex region in bytes.
    pub open spec fn vertex_size(&self) -> int {
        self.attributes@.len() as int
    }

    /// Size of the index region in bytes (0 for a non-indexed asset).
    pub open spec fn index_size(&self) -> int {
        match self.indices {
            Some(v) => v@.len() as int,
            None => 0,
        }
    }

    /// Total packed size: the index region follows the vertex region.
    pub open spec fn total_size(&self) -> int {
        self.vertex_size() + self.index_size()
    }

    /// The packed source bytes: vertex region first, index region second.
    pub open spec fn packed_bytes(&self) -> Seq<u8> {
        match self.indices {
            Some(v) => self.attributes@ + v@,
            None => self.attributes@,
        }
    }

    pub open spec fn is_indexed(&self) -> bool {
        self.indices is Some
    }

    /// The property flags the destination memory must carry; the two
    /// sub-paths keep the asymmetry of the allocation scheme: the indexed
    /// destination only needs device-local memory, the non-indexed one
    /// device-local and host-coherent memory.
    pub open spec fn mesh_required_flags(&self) -> u32 {
        if self.is_indexed() {
            MEMORY_PROPERTY_DEVICE_LOCAL
        } else {
            MEMORY_PROPERTY_DEVICE_LOCAL | MEMORY_PROPERTY_HOST_COHERENT
        }
    }

    pub fn new(attributes: Vec<u8>, indices: Option<Vec<u8>>) -> (r: MeshAsset)
        requires
            attributes@.len() >= 1,
            (indices matches Some(v) ==> v@.len() >= 1),
            attributes@.len() + (match indices {
                Some(v) => v@.len() as int,
                None => 0,
            }) <= usize::MAX,
        ensures
            r.wf(),
            r.attributes == attributes,
            r.indices == indices,
    {
        MeshAsset { attributes, indices }
    }
}

/// The buffers and memory of one upload side (staging or destination):
/// buffer handles with their byte sizes, and the single memory block that
/// backs them, vertex range at offset 0 and index range right after it.
#[derive(Debug)]
pub struct MeshAssetBlock {
    pub vertex: (usize, usize),
    pub index: Option<(usize, usize)>,
    pub memory: usize,
}

impl MeshAssetBlock {
    /// Total bytes covered by the block's buffers.
    pub open spec fn total_size(&self) -> int {
        self.vertex.1 + (match self.index {
            Some((_, isz)) => isz as int,
            None => 0,
        })
    }

    /// The block is live in `device`: its buffers exist, are alive and are
    /// bound to its memory at the packed offsets 0 and `vertex.1`, and the
    /// memory is alive and exactly the packed total in size.
    pub open spec fn bound_in(&self, device: DeviceModel) -> bool {
        &&& self.vertex.0 < device.buffers@.len()
        &&& device.buffers@[self.vertex.0 as int].alive
        &&& device.buffers@[self.vertex.0 as int].size == self.vertex.1
        &&& device.buffers@[self.vertex.0 as int].binding == Some((self.memory, 0usize))
        &&& self.memory < device.memories@.len()
        &&& device.memories@[self.memory as int].alive
        &&& device.memories@[self.memory as int].bytes@.len() == self.total_size()
        &&& (self.index matches Some((ib, isz)) ==> {
            &&& ib < device.buffers@.len()
            &&& device.buffers@[ib as int].alive
            &&& device.buffers@[ib as int].size == isz
            &&& device.buffers@[ib as int].binding == Some((self.memory, self.vertex.1))
        })
    }

    /// The block's layout matches the asset: same vertex size, and an index
    /// entry of the asset's index size exactly for an indexed asset.
    pub open spec fn matches_asset(&self, asset: &MeshAsset) -> bool {
        &&& self.vertex.1 == asset.vertex_size()
        &&& (self.index is Some <==> asset.is_indexed())
        &&& (self.index matches Some((_, isz)) ==> isz == asset.index_size())
    }

    /// Destroy the block's buffers and free its memory.
    pub fn discard(&self, device: &mut DeviceModel)
        requires
            self.vertex.0 < old(device).buffers@.len(),
            (self.index matches Some((ib, _)) ==> ib < old(device).buffers@.len()),
            self.memory < old(device).memories@.len(),
        ensures
            final(device).same_config(old(device)),
            final(device).wf() == old(device).wf(),
            final(device).buffers@.len() == old(device).buffers@.len(),
            final(device).memories@.len() == old(device).memories@.len(),
            forall|i: int|
                (0 <= i < old(device).buffers@.len() && i != self.vertex.0 && (
                self.index matches Some((ib, _)) ==> i != ib)) ==> final(device).buffers@[i]
                    == old(device).buffers@[i],
            forall|i: int|
                0 <= i < old(device).memories@.len() && i != self.memory ==> final(device).memories@[i] == old(device).memories@[i],
            !final(device).buffers@[self.vertex.0 as int].alive,
            (self.index matches Some((ib, _)) ==> !final(device).buffers@[ib as int].alive),
            !final(device).memories@[self.memory as int].alive,
            final(device).memories@[self.memory as int].bytes@ == old(device).memories@[
                self.memory as int
            ].bytes@,
    {
        device.destroy_buffer(self.vertex.0);
        if let Some((ib, _)) = self.index {
            device.destroy_buffer(ib);
        }
        device.free_memory(self.memory);
    }
}

impl MeshAsset {
    /// Stage the asset: create one transfer-source buffer per region,
    /// select a host-visible and host-coherent memory type accepted by all
    /// of them, allocate one block of the packed total size, copy the
    /// source bytes in (vertex range first, index range at the vertex-size
    /// offset), and bind the buffers at those same offsets.
    ///
    /// Fails, before any allocation, exactly when no memory type suits;
    /// buffers created before the failed selection are destroyed again.
    pub fn allocate_staging(&self, device: &mut DeviceModel) -> (r: VkResult<MeshAssetBlock>)
        requires
            self.wf(),
            old(device).wf(),
        ensures
            final(device).same_config(old(device)),
            final(device).wf(),
            final(device).memories@.len() >= old(device).memories@.len(),
            forall|i: int|
                0 <= i < old(device).memories@.len() ==> final(device).memories@[i] == old(
                    device,
                ).memories@[i],
            forall|i: int|
                0 <= i < old(device).buffers@.len() ==> final(device).buffers@[i] == old(
                    device,
                ).buffers@[i],
            final(device).buffers@.len() >= old(device).buffers@.len(),
            r is Ok <==> exists_suitable_memory_type(
                old(device).memory_types@,
                old(device).buffer_type_bits,
                MEMORY_PROPERTY_HOST_VISIBLE | MEMORY_PROPERTY_HOST_COHERENT,
            ),
            r matches Ok(b) ==> ({
                &&& b.bound_in(*final(device))
                &&& b.matches_asset(self)
                &&& b.memory == old(device).memories@.len()
                &&& b.vertex.0 == old(device).buffers@.len()
                &&& (b.index matches Some((ib, _)) ==> ib == old(device).buffers@.len() + 1)
                &&& final(device).memories@.len() == old(device).memories@.len() + 1
                &&& final(device).memories@[b.memory as int].bytes@ == self.packed_bytes()
                &&& suitable_memory_type(
                    old(device).memory_types@,
                    old(device).buffer_type_bits,
                    MEMORY_PROPERTY_HOST_VISIBLE | MEMORY_PROPERTY_HOST_COHERENT,
                    final(device).memories@[b.memory as int].type_index as int,
                )
                &&& final(device).buffers@.len() == old(device).buffers@.len() + (
                if self.is_indexed() {
                    2int
                } else {
                    1int
                })
            }),
            r matches Err(e) ==> ({
                &&& e.kind == VkErrorKind::Create
                &&& final(device).memories@.len() == old(device).memories@.len()
                &&& forall|i: int|
                    old(device).buffers@.len() <= i < final(device).buffers@.len() ==> !final(device).buffers@[i].alive
            }),
    {
        let (vertex_buffer, vertex_requirement) = device.create_buffer(
            self.attributes.len(),
            BUFFER_USAGE_TRANSFER_SRC,
        );
        let block = if let Some(index_data) = &self.indices {
            let (index_buffer, index_requirement) = device.create_buffer(
                index_data.len(),
                BUFFER_USAGE_TRANSFER_SRC,
            );
            proof {
                let vb = vertex_requirement.memory_type_bits;
                assert(vb & vb == vb) by (bit_vector);
            }
            let memory_type = match get_memory_type_index(
                device,
                vertex_requirement.memory_type_bits & index_requirement.memory_type_bits,
                MEMORY_PROPERTY_HOST_VISIBLE | MEMORY_PROPERTY_HOST_COHERENT,
            ) {
                Ok(t) => t,
                Err(e) => {
                    device.destroy_buffer(vertex_buffer);
                    device.destroy_buffer(index_buffer);
                    return Err(e);
                },
            };
            let mesh_memory = device.allocate_memory(
                vertex_requirement.size + index_requirement.size,
                memory_type,
            );
            MeshAssetBlock {
                vertex: (vertex_buffer, vertex_requirement.size),
                index: Some((index_buffer, index_requirement.size)),
                memory: mesh_memory,
            }
        } else {
            let memory_type = match get_memory_type_index(
                device,
                vertex_requirement.memory_type_bits,
                MEMORY_PROPERTY_HOST_VISIBLE | MEMORY_PROPERTY_HOST_COHERENT,
            ) {
                Ok(t) => t,
                Err(e) => {
                    device.destroy_buffer(vertex_buffer);
                    return Err(e);
                },
            };
            let mesh_memory = device.allocate_memory(vertex_requirement.size, memory_type);
            MeshAssetBlock {
                vertex: (vertex_buffer, vertex_requirement.size),
                index: None,
                memory: mesh_memory,
            }
        };
        // map the block and copy the source data in: vertex range first,
        // index range at the vertex-size offset
        device.write_memory(block.memory, 0, &self.attributes);
        if let Some(index_data) = &self.indices {
            device.write_memory(block.memory, block.vertex.1, index_data);
        }
        proof {
            assert(device.memories@[block.memory as int].bytes@ =~= self.packed_bytes());
        }
        // bind the buffers to the block at those same offsets
        device.bind_buffer(block.vertex.0, block.memory, 0);
        if let Some((index_buffer, _)) = block.index {
            device.bind_buffer(index_buffer, block.memory, block.vertex.1);
        }
        Ok(block)
    }

    /// Create the destination block: one transfer-destination buffer per
    /// region (vertex and, for an indexed asset, index usage), a memory
    /// type accepted by all of them with the destination property flags,
    /// and one zero-initialized block of the packed total size, buffers
    /// bound at the packed offsets.
    ///
    /// Fails, before any allocation, exactly when no memory type suits;
    /// buffers created before the failed selection are destroyed again.
    pub fn allocate_mesh(&self, device: &mut DeviceModel) -> (r: VkResult<MeshAssetBlock>)
        requires
            self.wf(),
            old(device).wf(),
        ensures
            final(device).same_config(old(device)),
            final(device).wf(),
            final(device).memories@.len() >= old(device).memories@.len(),
            forall|i: int|
                0 <= i < old(device).memories@.len() ==> final(device).memories@[i] == old(
                    device,
                ).memories@[i],
            forall|i: int|
                0 <= i < old(device).buffers@.len() ==> final(device).buffers@[i] == old(
                    device,
                ).buffers@[i],
            final(device).buffers@.len() >= old(device).buffers@.len(),
            r is Ok <==> exists_suitable_memory_type(
                old(device).memory_types@,
                old(device).buffer_type_bits,
                self.mesh_required_flags(),
            ),
            r matches Ok(b) ==> ({
                &&& b.bound_in(*final(device))
                &&& b.matches_asset(self)
                &&& b.memory == old(device).memories@.len()
                &&& b.vertex.0 == old(device).buffers@.len()
                &&& (b.index matches Some((ib, _)) ==> ib == old(device).buffers@.len() + 1)
                &&& final(device).memories@.len() == old(device).memories@.len() + 1
                &&& final(device).memories@[b.memory as int].bytes@.len() == self.total_size()
                &&& suitable_memory_type(
                    old(device).memory_types@,
                    old(device).buffer_type_bits,
                    self.mesh_required_flags(),
                    final(device).memories@[b.memory as int].type_index as int,
                )
                &&& final(device).buffers@.len() == old(device).buffers@.len() + (
                if self.is_indexed() {
                    2int
                } else {
                    1int
                })
            }),
            r matches Err(e) ==> ({
                &&& e.kind == VkErrorKind::Create
                &&& final(device).memories@.len() == old(device).memories@.len()
                &&& forall|i: int|
                    old(device).buffers@.len() <= i < final(device).buffers@.len() ==> !final(device).buffers@[i].alive
            }),
    {
        let (vertex_buffer, vertex_requirement) = device.create_buffer(
            self.attributes.len(),
            BUFFER_USAGE_VERTEX_BUFFER | BUFFER_USAGE_TRANSFER_DST,
        );
        let block = if let Some(index_data) = &self.indices {
            let (index_buffer, index_requirement) = device.create_buffer(
                index_data.len(),
                BUFFER_USAGE_INDEX_BUFFER | BUFFER_USAGE_TRANSFER_DST,
            );
            proof {
                let vb = vertex_requirement.memory_type_bits;
                assert(vb & vb == vb) by (bit_vector);
            }
            let memory_type = match get_memory_type_index(
                device,
                vertex_requirement.memory_type_bits & index_requirement.memory_type_bits,
                MEMORY_PROPERTY_DEVICE_LOCAL,
            ) {
                Ok(t) => t,
                Err(e) => {
                    device.destroy_buffer(vertex_buffer);
                    device.destroy_buffer(index_buffer);
                    return Err(e);
                },
            };
            let mesh_memory = device.allocate_memory(
                vertex_requirement.size + index_requirement.size,
                memory_type,
            );
            MeshAssetBlock {
                vertex: (vertex_buffer, vertex_requirement.size),
                index: Some((index_buffer, index_requirement.size)),
                memory: mesh_memory,
            }
        } else {
            let memory_type = match get_memory_type_index(
                device,
                vertex_requirement.memory_type_bits,
                MEMORY_PROPERTY_DEVICE_LOCAL | MEMORY_PROPERTY_HOST_COHERENT,
            ) {
                Ok(t) => t,
                Err(e) => {
                    device.destroy_buffer(vertex_buffer);
                    return Err(e);
                },
            };
            let mesh_memory = device.allocate_memory(vertex_requirement.size, memory_type);
            MeshAssetBlock {
                vertex: (vertex_buffer, vertex_requirement.size),
                index: None,
                memory: mesh_memory,
            }
        };
        device.bind_buffer(block.vertex.0, block.memory, 0);
        if let Some((index_buffer, _)) = block.index {
            device.bind_buffer(index_buffer, block.memory, block.vertex.1);
        }
        Ok(block)
    }

    /// Upload the asset: stage it, create the destination block, copy
    /// staging to destination on the transfer queue, wait, and release the
    /// staging resources.  On success the destination memory holds exactly
    /// the packed source bytes, with no further synchronization needed by
    /// the caller; on failure nothing allocated here stays alive.
    pub fn allocate(self, device: &mut DeviceModel) -> (r: VkResult<MeshAssetBlock>)
        requires
            self.wf(),
            old(device).wf(),
        ensures
            final(device).same_config(old(device)),
            final(device).wf(),
            forall|i: int|
                0 <= i < old(device).memories@.len() ==> final(device).memories@[i] == old(
                    device,
                ).memories@[i],
            forall|i: int|
                0 <= i < old(device).buffers@.len() ==> final(device).buffers@[i] == old(
                    device,
                ).buffers@[i],
            r is Ok <==> (exists_suitable_memory_type(
                old(device).memory_types@,
                old(device).buffer_type_bits,
                MEMORY_PROPERTY_HOST_VISIBLE | MEMORY_PROPERTY_HOST_COHERENT,
            ) && exists_suitable_memory_type(
                old(device).memory_types@,
                old(device).buffer_type_bits,
                self.mesh_required_flags(),
            )),
            r matches Ok(b) ==> ({
                &&& b.bound_in(*final(device))
                &&& b.matches_asset(&self)
                &&& final(device).memories@[b.memory as int].bytes@ == self.packed_bytes()
                &&& final(device).memories@.len() == old(device).memories@.len() + 2
                &&& !final(device).memories@[old(device).memories@.len() as int].alive
                &&& final(device).buffers@.len() == old(device).buffers@.len() + (
                if self.is_indexed() {
                    4int
                } else {
                    2int
                })
            }),
            r matches Err(e) ==> ({
                &&& e.kind == VkErrorKind::Create
                &&& forall|i: int|
                    old(device).memories@.len() <= i < final(device).memories@.len() ==> !final(device).memories@[i].alive
                &&& forall|i: int|
                    old(device).buffers@.len() <= i < final(device).buffers@.len() ==> !final(device).buffers@[i].alive
            }),
    {
        // allocate and fill the staging block
        let staging_block = match self.allocate_staging(device) {
            Ok(b) => b,
            Err(e) => {
                return Err(e);
            },
        };
        // allocate the destination block
        let mesh_block = match self.allocate_mesh(device) {
            Ok(b) => b,
            Err(e) => {
                staging_block.discard(device);
                return Err(e);
            },
        };
        // copy data from the staging block to the destination block
        match copy_staging2mesh(device, &staging_block, &mesh_block) {
            Ok(()) => {},
            Err(e) => {
                return Err(e);
            },
        };
        // discard the staging resources
        staging_block.discard(device);
        Ok(mesh_block)
    }
}

/// Copy a staged block into its destination block through a one-shot
/// command gated by a freshly created, initially-unsignaled fence: one
/// buffer-to-buffer copy per region, at the same offsets on both sides, so
/// the destination layout mirrors the staging layout exactly; then a
/// blocking wait on the fence.
pub fn copy_staging2mesh(
    device: &mut DeviceModel,
    staging: &MeshAssetBlock,
    mesh: &MeshAssetBlock,
) -> (r: VkResult<()>)
    requires
        old(device).wf(),
        staging.bound_in(*old(device)),
        mesh.bound_in(*old(device)),
        staging.memory != mesh.memory,
        staging.vertex.1 == mesh.vertex.1,
        (staging.index is Some <==> mesh.index is Some),
        (staging.index matches Some((_, ssz)) ==> (mesh.index matches Some((_, msz)) && ssz
            == msz)),
    ensures
        final(device).same_config(old(device)),
        final(device).wf(),
        final(device).buffers == old(device).buffers,
        final(device).memories@.len() == old(device).memories@.len(),
        forall|i: int|
            0 <= i < old(device).memories@.len() && i != mesh.memory ==> final(device).memories@[i]
                == old(device).memories@[i],
        final(device).memories@[mesh.memory as int].bytes@ == old(device).memories@[
            staging.memory as int
        ].bytes@,
        final(device).memories@[mesh.memory as int].type_index == old(device).memories@[
            mesh.memory as int
        ].type_index,
        final(device).memories@[mesh.memory as int].alive,
        r is Ok,
{
    let mut fence = FenceModel::new(false);
    // the one-shot submission: the transfer queue performs the recorded
    // copies, then signals the completion fence
    device.copy_buf2buf(
        staging.vertex.0,
        mesh.vertex.0,
        BufferCopy { src_offset: 0, dst_offset: 0, size: staging.vertex.1 },
    );
    if let Some((staging_index_buffer, index_size)) = staging.index {
        let (mesh_index_buffer, _) = mesh.index.unwrap();
        device.copy_buf2buf(
            staging_index_buffer,
            mesh_index_buffer,
            BufferCopy { src_offset: 0, dst_offset: 0, size: index_size },
        );
    }
    fence.signal();
    proof {
        assert(device.memories@[mesh.memory as int].bytes@ =~= old(device).memories@[
            staging.memory as int
        ].bytes@);
    }
    // block on the completion fence before touching the staging resources
    match fence.wait() {
        Ok(()) => Ok(()),
        Err(e) => Err(e),
    }
}

} // verus!
