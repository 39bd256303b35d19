use gs_renderer::surface::{
    canvas_dimension, preferred_alpha_mode_index, preferred_format_index, AlphaModeKind,
    SurfaceFormatKind,
};

#[test]
fn canvas_dimension_keeps_positive_client_size() {
    assert_eq!(canvas_dimension(1024), Some(1024));
    assert_eq!(canvas_dimension(1), Some(1));
    assert_eq!(canvas_dimension(0), None);
}

#[test]
fn canvas_dimension_reads_client_size_as_unsigned() {
    assert_eq!(canvas_dimension(-1), Some(u32::MAX));
}

#[test]
fn preferred_format_is_first_plain_8bit_format() {
    assert_eq!(preferred_format_index(&vec![SurfaceFormatKind::Other, SurfaceFormatKind::Rgba8Unorm, SurfaceFormatKind::Bgra8Unorm]), 1);
    assert_eq!(preferred_format_index(&vec![SurfaceFormatKind::Bgra8Unorm, SurfaceFormatKind::Rgba8Unorm]), 0);
    assert_eq!(preferred_format_index(&vec![SurfaceFormatKind::Other, SurfaceFormatKind::Other, SurfaceFormatKind::Bgra8Unorm]), 2);
}

#[test]
fn preferred_format_falls_back_to_first() {
    assert_eq!(preferred_format_index(&vec![SurfaceFormatKind::Other, SurfaceFormatKind::Other]), 0);
    assert_eq!(preferred_format_index(&vec![SurfaceFormatKind::Other]), 0);
}

#[test]
fn preferred_alpha_mode_is_first_opaque() {
    assert_eq!(preferred_alpha_mode_index(&vec![AlphaModeKind::Other, AlphaModeKind::Opaque, AlphaModeKind::Opaque]), 1);
    assert_eq!(preferred_alpha_mode_index(&vec![AlphaModeKind::Other, AlphaModeKind::Other]), 0);
    assert_eq!(preferred_alpha_mode_index(&vec![AlphaModeKind::Opaque]), 0);
}
