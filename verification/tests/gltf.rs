use bengine::gltf::{append_aligned, extend_align, get_uri, layout_mesh, BufferView, PrimitiveBytes};

#[test]
fn uri_is_index_then_offset() {
    assert_eq!(get_uri(&BufferView { index: 3, offset: 1024 }), "31024");
    assert_eq!(get_uri(&BufferView { index: 0, offset: 0 }), "00");
    assert_eq!(get_uri(&BufferView { index: 12, offset: 7 }), "127");
    assert_eq!(
        get_uri(&BufferView { index: usize::MAX, offset: 10 }),
        format!("{}10", usize::MAX)
    );
}

#[test]
fn extend_align_pads_to_a_multiple() {
    let mut buffer = vec![1u8, 2, 3];
    extend_align(&mut buffer, 4);
    assert_eq!(buffer, vec![1, 2, 3, 0]);
    assert_eq!(buffer.len() % 4, 0);
}

#[test]
fn extend_align_pads_aligned_buffer_by_a_full_step() {
    let mut buffer = vec![7u8; 8];
    extend_align(&mut buffer, 4);
    assert_eq!(buffer.len(), 12);
    assert_eq!(&buffer[8..], &[0, 0, 0, 0]);
}

#[test]
fn extend_align_with_zero_alignment_does_nothing() {
    let mut buffer = vec![1u8, 2, 3];
    extend_align(&mut buffer, 0);
    assert_eq!(buffer, vec![1, 2, 3]);
    let mut empty = Vec::new();
    extend_align(&mut empty, 3);
    assert_eq!(empty, vec![0, 0, 0]);
}

#[test]
fn primitives_are_packed_at_aligned_offsets() {
    let mut vertices = Vec::new();
    let first = append_aligned(&mut vertices, 4, &[1, 2, 3, 4, 5]);
    assert_eq!(first, 4);
    let second = append_aligned(&mut vertices, 4, &[6, 7]);
    assert_eq!(second, 12);
    assert_eq!(vertices, vec![0, 0, 0, 0, 1, 2, 3, 4, 5, 0, 0, 0, 6, 7]);
    let third = append_aligned(&mut vertices, 16, &[]);
    assert_eq!(third, 16);
    assert_eq!(vertices.len(), 16);
}

#[test]
fn mesh_layout_puts_indices_after_aligned_vertices() {
    let primitives = [
        PrimitiveBytes { vertices: vec![1, 2, 3], vertex_align: 4, indices: vec![9, 9], index_align: 2 },
        PrimitiveBytes { vertices: vec![4, 5], vertex_align: 4, indices: vec![8], index_align: 2 },
    ];
    let layout = layout_mesh(&primitives);
    assert_eq!(layout.vertex_byte_length, 12);
    assert_eq!(
        layout.bytes,
        vec![0, 0, 0, 0, 1, 2, 3, 0, 4, 5, 0, 0, 0, 0, 9, 9, 0, 0, 8]
    );
    assert_eq!(layout.offsets, vec![(4, 14), (8, 18)]);
}
