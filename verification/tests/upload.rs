use vkbase::asset::MeshAsset;
use vkbase::device::get_memory_type_index;
use vkbase::device::read_back;
use vkbase::device::DeviceModel;
use vkbase::device::BUFFER_USAGE_TRANSFER_SRC;
use vkbase::device::MEMORY_PROPERTY_DEVICE_LOCAL;
use vkbase::device::MEMORY_PROPERTY_HOST_COHERENT;
use vkbase::device::MEMORY_PROPERTY_HOST_VISIBLE;
use vkbase::error::VkErrorKind;

fn full_device() -> DeviceModel {
    // one device-local type, one host-visible+host-coherent type, and one
    // type carrying every property; buffers accept all three types
    DeviceModel::new(
        vec![
            MEMORY_PROPERTY_DEVICE_LOCAL,
            MEMORY_PROPERTY_HOST_VISIBLE | MEMORY_PROPERTY_HOST_COHERENT,
            MEMORY_PROPERTY_DEVICE_LOCAL | MEMORY_PROPERTY_HOST_VISIBLE
                | MEMORY_PROPERTY_HOST_COHERENT,
        ],
        0b111,
    )
}

#[test]
fn indexed_upload_round_trip() {
    let mut device = full_device();
    let vertex_data: Vec<u8> = vec![1, 2, 3, 4, 5, 6, 7, 8];
    let index_data: Vec<u8> = vec![9, 10, 11];
    let asset = MeshAsset::new(vertex_data.clone(), Some(index_data.clone()));

    let block = asset.allocate(&mut device).expect("upload on a full device succeeds");

    let mut packed = vertex_data.clone();
    packed.extend_from_slice(&index_data);
    // byte-for-byte readback of the destination equals the source
    assert_eq!(read_back(&device, block.memory), packed);
    assert!(device.memories[block.memory].alive);

    // sizes follow the source layout
    assert_eq!(block.vertex.1, 8);
    assert_eq!(block.index.unwrap().1, 3);
}

#[test]
fn non_indexed_upload_round_trip() {
    let mut device = full_device();
    let vertex_data: Vec<u8> = vec![42, 0, 255, 7];
    let asset = MeshAsset::new(vertex_data.clone(), None);

    let block = asset.allocate(&mut device).expect("upload on a full device succeeds");

    assert_eq!(read_back(&device, block.memory), vertex_data);
    assert_eq!(block.vertex.1, 4);
    assert!(block.index.is_none());
}

#[test]
fn non_indexed_upload_allocates_one_destination_buffer() {
    let mut device = full_device();
    let asset = MeshAsset::new(vec![1, 2, 3], None);
    let block = asset.allocate(&mut device).expect("upload succeeds");
    // one staging buffer (destroyed) and one destination buffer (alive)
    assert_eq!(device.buffers.len(), 2);
    assert!(!device.buffers[0].alive);
    assert!(device.buffers[1].alive);
    assert_eq!(block.vertex.0, 1);
    assert_eq!(device.buffers[block.vertex.0].binding, Some((block.memory, 0)));
}

#[test]
fn indexed_upload_allocates_two_contiguous_destination_buffers() {
    let mut device = full_device();
    let asset = MeshAsset::new(vec![1, 2, 3, 4], Some(vec![5, 6]));
    let block = asset.allocate(&mut device).expect("upload succeeds");

    // two staging buffers (destroyed) and two destination buffers (alive)
    assert_eq!(device.buffers.len(), 4);
    assert!(!device.buffers[0].alive);
    assert!(!device.buffers[1].alive);
    assert!(device.buffers[2].alive);
    assert!(device.buffers[3].alive);

    // the staging buffers sat contiguously at offsets {0, vertex size}
    assert_eq!(device.buffers[0].binding, Some((0, 0)));
    assert_eq!(device.buffers[1].binding, Some((0, 4)));

    // and the destination mirrors that layout exactly
    let (index_buffer, index_size) = block.index.unwrap();
    assert_eq!(index_size, 2);
    assert_eq!(device.buffers[block.vertex.0].binding, Some((block.memory, 0)));
    assert_eq!(device.buffers[index_buffer].binding, Some((block.memory, 4)));
}

#[test]
fn upload_releases_staging_resources() {
    let mut device = full_device();
    let asset = MeshAsset::new(vec![1, 2, 3, 4], Some(vec![5, 6]));
    let block = asset.allocate(&mut device).expect("upload succeeds");
    // exactly two memory blocks: the staging one, already freed, and the
    // destination, which outlives the transfer
    assert_eq!(device.memories.len(), 2);
    assert!(!device.memories[0].alive);
    assert_eq!(block.memory, 1);
    assert!(device.memories[1].alive);
}

#[test]
fn unsatisfiable_destination_requirements_fail_before_allocation() {
    // no memory type carries device-local+host-coherent together, which the
    // non-indexed destination requires; staging requirements are satisfiable
    let mut device = DeviceModel::new(
        vec![
            MEMORY_PROPERTY_DEVICE_LOCAL,
            MEMORY_PROPERTY_HOST_VISIBLE | MEMORY_PROPERTY_HOST_COHERENT,
        ],
        0b11,
    );
    let asset = MeshAsset::new(vec![1, 2, 3], None);
    let err = asset.allocate(&mut device).unwrap_err();
    assert_eq!(err.kind(), VkErrorKind::Create);
    // the destination memory was never allocated: only the staging block
    // existed, and it was released again
    assert_eq!(device.memories.len(), 1);
    assert!(!device.memories[0].alive);
    for buffer in &device.buffers {
        assert!(!buffer.alive);
    }
}

#[test]
fn memory_type_selection_finds_first_match() {
    let device = DeviceModel::new(
        vec![
            MEMORY_PROPERTY_DEVICE_LOCAL,
            MEMORY_PROPERTY_DEVICE_LOCAL | MEMORY_PROPERTY_HOST_COHERENT,
            MEMORY_PROPERTY_DEVICE_LOCAL | MEMORY_PROPERTY_HOST_COHERENT,
        ],
        0,
    );
    let picked = get_memory_type_index(
        &device,
        0b111,
        MEMORY_PROPERTY_DEVICE_LOCAL | MEMORY_PROPERTY_HOST_COHERENT,
    )
    .expect("type 1 satisfies the request");
    assert_eq!(picked, 1);
}

#[test]
fn memory_type_selection_respects_acceptance_mask() {
    let device = DeviceModel::new(
        vec![
            MEMORY_PROPERTY_DEVICE_LOCAL,
            MEMORY_PROPERTY_DEVICE_LOCAL,
        ],
        0,
    );
    // type 0 has the right properties but the mask only admits type 1
    let picked = get_memory_type_index(&device, 0b10, MEMORY_PROPERTY_DEVICE_LOCAL)
        .expect("type 1 is admitted and suitable");
    assert_eq!(picked, 1);
}

#[test]
fn memory_type_selection_failure_is_creation_class() {
    let device = DeviceModel::new(vec![MEMORY_PROPERTY_HOST_VISIBLE], 0);
    let err = get_memory_type_index(
        &device,
        0b1,
        MEMORY_PROPERTY_DEVICE_LOCAL | MEMORY_PROPERTY_HOST_COHERENT,
    )
    .unwrap_err();
    assert_eq!(err.kind(), VkErrorKind::Create);
}

#[test]
fn staging_buffers_carry_transfer_source_usage() {
    let mut device = full_device();
    let asset = MeshAsset::new(vec![1, 2], Some(vec![3]));
    asset.allocate(&mut device).expect("upload succeeds");
    assert_eq!(device.buffers[0].usage, BUFFER_USAGE_TRANSFER_SRC);
    assert_eq!(device.buffers[1].usage, BUFFER_USAGE_TRANSFER_SRC);
}

#[test]
fn consecutive_uploads_share_the_device() {
    let mut device = full_device();
    let first = MeshAsset::new(vec![1, 2, 3], Some(vec![4]))
        .allocate(&mut device)
        .expect("first upload succeeds");
    let second = MeshAsset::new(vec![5, 6], None)
        .allocate(&mut device)
        .expect("second upload succeeds");
    assert_eq!(device.memories[first.memory].bytes, vec![1, 2, 3, 4]);
    assert_eq!(device.memories[second.memory].bytes, vec![5, 6]);
    assert_ne!(first.memory, second.memory);
    assert!(device.memories[first.memory].alive);
    assert!(device.memories[second.memory].alive);
}
