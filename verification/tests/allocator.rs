use gltf_viewer::allocator::{VertexBufferAllocator, VertexBufferSegmentDataSource};
use gltf_viewer::asset::Semantic;
use gltf_viewer::error::ErrorKind;
use gltf_viewer::loader::MemoryGltfLoader;

#[test]
fn buffer_size_is_sum_and_offsets_are_prefix_sums() {
    let mut loader = MemoryGltfLoader::new();
    loader.insert_accessor(0, vec![1, 2, 3, 4, 5]);
    loader.insert_accessor(1, vec![6, 7, 8]);

    let mut allocator = VertexBufferAllocator::new();
    allocator.add_segment(
        Semantic::Positions,
        VertexBufferSegmentDataSource::Accessor { id: 0, length: 5 },
    );
    allocator.add_segment(
        Semantic::Normals,
        VertexBufferSegmentDataSource::Raw {
            data: vec![9, 10],
        },
    );
    allocator.add_segment(
        Semantic::TexCoords(0),
        VertexBufferSegmentDataSource::Accessor { id: 1, length: 3 },
    );

    let vb = allocator.finish(&mut loader).unwrap();

    // Size is the sum of the declared lengths 5 + 2 + 3.
    assert_eq!(vb.size, 10);

    // Offsets are the running sums of the lengths before each segment.
    assert_eq!(vb.segments.len(), 3);
    assert_eq!(vb.segments[0].offset, 0);
    assert_eq!(vb.segments[0].length, 5);
    assert_eq!(vb.segments[0].type_, Semantic::Positions);
    assert_eq!(vb.segments[1].offset, 5);
    assert_eq!(vb.segments[1].length, 2);
    assert_eq!(vb.segments[2].offset, 7);
    assert_eq!(vb.segments[2].length, 3);

    // The packed bytes are the segments' bytes in order.
    assert_eq!(vb.data, vec![1, 2, 3, 4, 5, 9, 10, 6, 7, 8]);
}

#[test]
fn empty_segment_list_yields_empty_buffer() {
    let mut loader = MemoryGltfLoader::new();
    let allocator = VertexBufferAllocator::new();
    let vb = allocator.finish(&mut loader).unwrap();
    assert_eq!(vb.size, 0);
    assert!(vb.segments.is_empty());
    assert!(vb.data.is_empty());
}

#[test]
fn unresolvable_accessor_fails_the_allocation() {
    let mut loader = MemoryGltfLoader::new();
    let mut allocator = VertexBufferAllocator::new();
    allocator.add_segment(
        Semantic::Positions,
        VertexBufferSegmentDataSource::Accessor { id: 3, length: 4 },
    );
    assert!(allocator.finish(&mut loader).is_err());
}

#[test]
fn summed_lengths_that_overflow_are_rejected() {
    let mut loader = MemoryGltfLoader::new();
    let mut allocator = VertexBufferAllocator::new();
    allocator.add_segment(
        Semantic::Positions,
        VertexBufferSegmentDataSource::Accessor {
            id: 0,
            length: u64::MAX,
        },
    );
    allocator.add_segment(
        Semantic::Normals,
        VertexBufferSegmentDataSource::Accessor { id: 1, length: 2 },
    );
    let e = allocator.finish(&mut loader).unwrap_err();
    assert_eq!(e.kind(), ErrorKind::SizeOverflow);
}
