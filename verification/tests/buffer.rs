use gs_renderer::buffer::{
    indirect_args_initial_bytes, indirect_indices_buffer_size, invert_selection_bytes,
    invert_selection_initial_bytes, radix_sort_indirect_args_initial_bytes, verify_buffer_size,
    CameraBuffer, FixedSizeBufferWrapperError, IndirectArgsBuffer,
    PreprocessorInvertSelectionBuffer, RadixSortIndirectArgsBuffer, ViewportTextureF32Buffer,
    ViewportTexturePosBuffer, CAMERA_POD_SIZE, DISPATCH_INDIRECT_ARGS_SIZE,
    DRAW_INDIRECT_ARGS_SIZE,
};

fn words(bytes: &[u8]) -> Vec<u32> {
    bytes.chunks(4).map(|c| u32::from_ne_bytes([c[0], c[1], c[2], c[3]])).collect()
}

#[test]
fn test_indirect_indices_buffer_new_should_return_correct_buffer() {
    let gaussian_count: u32 = 256;
    let expected_size = (gaussian_count * std::mem::size_of::<u32>() as u32) as u64;
    assert_eq!(indirect_indices_buffer_size(gaussian_count), expected_size);
}

#[test]
fn test_indirect_indices_buffer_new_with_different_counts_should_return_correct_buffer() {
    for gaussian_count in [1u32, 64, 128, 512, 1024] {
        let expected_size = (gaussian_count * std::mem::size_of::<u32>() as u32) as u64;
        assert_eq!(indirect_indices_buffer_size(gaussian_count), expected_size);
    }
}

#[test]
fn indirect_indices_size_at_largest_count() {
    assert_eq!(indirect_indices_buffer_size(0), 0);
    assert_eq!(indirect_indices_buffer_size(u32::MAX / 4), (u32::MAX / 4) as u64 * 4);
}

#[test]
fn pod_sizes_match_memory_layout() {
    assert_eq!(
        IndirectArgsBuffer::pod_size(),
        std::mem::size_of::<wgpu::util::DrawIndirectArgs>() as u64
    );
    assert_eq!(
        RadixSortIndirectArgsBuffer::pod_size(),
        std::mem::size_of::<wgpu::util::DispatchIndirectArgs>() as u64
    );
    assert_eq!(ViewportTexturePosBuffer::pod_size(), std::mem::size_of::<glam::Vec2>() as u64);
    assert_eq!(ViewportTextureF32Buffer::pod_size(), std::mem::size_of::<f32>() as u64);
    assert_eq!(PreprocessorInvertSelectionBuffer::pod_size(), std::mem::size_of::<u32>() as u64);
    let camera_size = 2 * std::mem::size_of::<glam::Mat4>()
        + std::mem::size_of::<glam::Vec2>()
        + std::mem::size_of::<[u32; 2]>();
    assert_eq!(CameraBuffer::pod_size(), camera_size as u64);
    assert_eq!(CAMERA_POD_SIZE, 144);
}

#[test]
fn verify_buffer_size_accepts_exact_size() {
    assert_eq!(verify_buffer_size(16, 16), Ok(()));
    assert_eq!(verify_buffer_size(0, 0), Ok(()));
}

#[test]
fn verify_buffer_size_rejects_other_sizes() {
    assert_eq!(
        verify_buffer_size(32, 16),
        Err(FixedSizeBufferWrapperError::BufferSizeMismatched { buffer_size: 32, expected_size: 16 })
    );
    assert_eq!(
        verify_buffer_size(143, CAMERA_POD_SIZE),
        Err(FixedSizeBufferWrapperError::BufferSizeMismatched {
            buffer_size: 143,
            expected_size: 144
        })
    );
}

#[test]
fn indirect_args_start_with_quad_and_no_instances() {
    let bytes = indirect_args_initial_bytes();
    assert_eq!(bytes.len() as u64, DRAW_INDIRECT_ARGS_SIZE);
    assert_eq!(words(&bytes), vec![6, 0, 0, 0]);
    let expected = wgpu::util::DrawIndirectArgs {
        vertex_count: 6,
        instance_count: 0,
        first_vertex: 0,
        first_instance: 0,
    };
    assert_eq!(bytes.as_slice(), expected.as_bytes());
}

#[test]
fn radix_sort_dispatch_args_start_with_one_group() {
    let bytes = radix_sort_indirect_args_initial_bytes();
    assert_eq!(bytes.len() as u64, DISPATCH_INDIRECT_ARGS_SIZE);
    assert_eq!(words(&bytes), vec![1, 1, 1]);
}

#[test]
fn invert_selection_bytes_encode_flag() {
    assert_eq!(words(&invert_selection_bytes(true)), vec![1]);
    assert_eq!(words(&invert_selection_bytes(false)), vec![0]);
    assert_ne!(invert_selection_bytes(true), invert_selection_bytes(false));
    assert_eq!(invert_selection_initial_bytes(), 1u32.to_ne_bytes().to_vec());
}
