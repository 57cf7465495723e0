use gltf_engine::error::ImportError;
use gltf_engine::import::{create_null_texcoord_buffer, import_buffer, index_format};
use gltf_engine::mesh::IndexFormat;
use gltf_engine::source::{Accessor, BufferView, Document, GltfRoot};

fn buffer_root(buffers: Vec<Vec<u8>>) -> GltfRoot {
    GltfRoot {
        document: Document {
            materials: Vec::new(),
            meshes: Vec::new(),
            nodes: Vec::new(),
            scenes: Vec::new(),
            default_scene: None,
        },
        buffers,
    }
}

fn counting_bytes(n: u8) -> Vec<u8> {
    (0..n).collect()
}

fn accessor(buffer: usize, view_offset: usize, stride: Option<usize>, offset: usize, count: usize, size: usize) -> Accessor {
    Accessor {
        view: Some(BufferView { buffer, offset: view_offset, stride }),
        offset,
        count,
        size,
    }
}

#[test]
fn decodes_the_range_after_both_offsets() {
    let root = buffer_root(vec![counting_bytes(64)]);
    let acc = accessor(0, 4, None, 8, 2, 12);
    let (bytes, stride) = import_buffer(&acc, &root, Some(12)).unwrap();
    assert_eq!(stride, 12);
    assert_eq!(bytes, (12u8..36).collect::<Vec<u8>>());
}

#[test]
fn stride_of_the_view_wins_over_the_element_size() {
    let root = buffer_root(vec![counting_bytes(64)]);
    let acc = accessor(0, 0, Some(16), 0, 2, 12);
    let (bytes, stride) = import_buffer(&acc, &root, None).unwrap();
    assert_eq!(stride, 16);
    assert_eq!(bytes.len(), 24);
    assert_eq!(bytes, (0u8..24).collect::<Vec<u8>>());
}

#[test]
fn interleaved_stream_is_an_unsupported_layout() {
    let root = buffer_root(vec![counting_bytes(64)]);
    let acc = accessor(0, 0, Some(24), 0, 2, 12);
    assert_eq!(import_buffer(&acc, &root, Some(12)), Err(ImportError::UnsupportedLayout));
}

#[test]
fn element_size_is_checked_where_the_view_has_no_stride() {
    let root = buffer_root(vec![counting_bytes(64)]);
    let acc = accessor(0, 0, None, 0, 2, 8);
    assert_eq!(import_buffer(&acc, &root, Some(12)), Err(ImportError::UnsupportedLayout));
    assert!(import_buffer(&acc, &root, Some(8)).is_ok());
}

#[test]
fn accessor_without_view_cannot_be_decoded() {
    let root = buffer_root(vec![counting_bytes(64)]);
    let acc = Accessor { view: None, offset: 0, count: 1, size: 4 };
    assert_eq!(import_buffer(&acc, &root, None), Err(ImportError::MissingBufferView));
}

#[test]
fn range_may_end_with_the_buffer_but_not_after_it() {
    let root = buffer_root(vec![counting_bytes(24)]);
    let fits = accessor(0, 0, None, 0, 2, 12);
    assert_eq!(import_buffer(&fits, &root, Some(12)).unwrap().0.len(), 24);
    let over = accessor(0, 1, None, 0, 2, 12);
    assert_eq!(import_buffer(&over, &root, Some(12)), Err(ImportError::OutOfBounds));
}

#[test]
fn unknown_buffer_is_out_of_bounds() {
    let root = buffer_root(vec![counting_bytes(24)]);
    let acc = accessor(1, 0, None, 0, 1, 4);
    assert_eq!(import_buffer(&acc, &root, None), Err(ImportError::OutOfBounds));
}

#[test]
fn overflowing_range_is_out_of_bounds() {
    let root = buffer_root(vec![counting_bytes(24)]);
    let huge_count = accessor(0, 0, None, 0, usize::MAX, 12);
    assert_eq!(import_buffer(&huge_count, &root, Some(12)), Err(ImportError::OutOfBounds));
    let huge_offset = accessor(0, usize::MAX, None, 1, 1, 4);
    assert_eq!(import_buffer(&huge_offset, &root, None), Err(ImportError::OutOfBounds));
    let huge_end = accessor(0, usize::MAX - 1, None, 0, 1, 4);
    assert_eq!(import_buffer(&huge_end, &root, None), Err(ImportError::OutOfBounds));
}

#[test]
fn empty_accessor_decodes_to_nothing() {
    let root = buffer_root(vec![counting_bytes(24)]);
    let acc = accessor(0, 24, None, 0, 0, 12);
    let (bytes, stride) = import_buffer(&acc, &root, Some(12)).unwrap();
    assert!(bytes.is_empty());
    assert_eq!(stride, 12);
}

#[test]
fn stride_mismatch_is_reported_before_bounds() {
    let root = buffer_root(vec![counting_bytes(4)]);
    let acc = accessor(7, 0, Some(3), 0, 100, 12);
    assert_eq!(import_buffer(&acc, &root, Some(12)), Err(ImportError::UnsupportedLayout));
}

#[test]
fn two_byte_indices_are_sixteen_bit() {
    assert_eq!(index_format(2), Ok(IndexFormat::Uint16));
}

#[test]
fn four_byte_indices_are_thirty_two_bit() {
    assert_eq!(index_format(4), Ok(IndexFormat::Uint32));
}

#[test]
fn other_index_widths_are_rejected() {
    for width in [0usize, 1, 3, 5, 8, 16, usize::MAX] {
        assert_eq!(index_format(width), Err(ImportError::UnsupportedIndexWidth));
    }
}

#[test]
fn null_texcoords_are_two_zero_floats_per_vertex() {
    let bytes = create_null_texcoord_buffer(3);
    assert_eq!(bytes.len(), 24);
    let floats: Vec<f32> = bytes
        .chunks(4)
        .map(|c| f32::from_ne_bytes([c[0], c[1], c[2], c[3]]))
        .collect();
    assert_eq!(floats, vec![0.0f32; 6]);
    assert!(create_null_texcoord_buffer(0).is_empty());
}
