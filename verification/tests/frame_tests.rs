use flyscene::gpu::FrameError;
use flyscene::state::{recovery_for, FrameGeometry, RecoveryAction};
use flyscene::vertex::{instance_layout, model_vertex_layout, vertex_layout, AttributeFormat};

#[test]
fn reconfigure_moves_both_dimensions_together() {
    let mut g = FrameGeometry::new(640, 480);
    assert_eq!(g.depth_width, 640);
    assert_eq!(g.depth_height, 480);
    g.reconfigure(800, 600);
    assert_eq!((g.width, g.height), (800, 600));
    assert_eq!((g.depth_width, g.depth_height), (800, 600));
}

#[test]
fn repeated_identical_resize_is_harmless() {
    let mut g = FrameGeometry::new(640, 480);
    g.reconfigure(800, 600);
    let first = g;
    g.reconfigure(800, 600);
    assert_eq!(g, first);
    assert_eq!((g.depth_width, g.depth_height), (800, 600));
}

#[test]
fn only_a_lost_surface_reconfigures() {
    assert_eq!(recovery_for(FrameError::Lost), RecoveryAction::Reconfigure);
    assert_eq!(recovery_for(FrameError::Timeout), RecoveryAction::SkipFrame);
    assert_eq!(recovery_for(FrameError::Occluded), RecoveryAction::SkipFrame);
    assert_eq!(recovery_for(FrameError::Outdated), RecoveryAction::SkipFrame);
    assert_eq!(recovery_for(FrameError::Validation), RecoveryAction::SkipFrame);
}

#[test]
fn model_vertex_layout_matches_the_interleaving() {
    let l = model_vertex_layout();
    assert_eq!(l.stride, 32);
    assert!(!l.per_instance);
    let a = &l.attributes;
    assert_eq!(a.len(), 3);
    assert_eq!((a[0].shader_location, a[0].offset, a[0].format), (0, 0, AttributeFormat::Float32x3));
    assert_eq!((a[1].shader_location, a[1].offset, a[1].format), (1, 12, AttributeFormat::Float32x2));
    assert_eq!((a[2].shader_location, a[2].offset, a[2].format), (2, 20, AttributeFormat::Float32x3));
}

#[test]
fn plain_vertex_layout_is_position_then_texcoords() {
    let l = vertex_layout();
    assert_eq!(l.stride, 20);
    assert!(!l.per_instance);
    assert_eq!(l.attributes.len(), 2);
    assert_eq!(l.attributes[1].offset, 12);
}

#[test]
fn instance_layout_carries_a_whole_matrix() {
    let l = instance_layout();
    assert_eq!(l.stride, 64);
    assert!(l.per_instance);
    let a = &l.attributes;
    assert_eq!(a.len(), 4);
    for (i, attr) in a.iter().enumerate() {
        assert_eq!(attr.shader_location, 5 + i as u32);
        assert_eq!(attr.offset, 16 * i as u32);
        assert_eq!(attr.format, AttributeFormat::Float32x4);
    }
}
