use voxel_raymarch::voxel_grid::{
    field_buffer_size, layer_stride, Access, Cuboid, CuboidFace, Square, SystemGet, SystemSet, VoxelGrid,
};

fn world(g: &VoxelGrid<[f32; 3]>, i: usize) -> [i32; 3] {
    match g.get_vertex_at(SystemGet::WORLD(i)) {
        SystemSet::WORLD(p) => p,
        other => panic!("expected a world point, got {:?}", other),
    }
}

fn screen(g: &VoxelGrid<[f32; 3]>, i: usize) -> [i32; 2] {
    match g.get_vertex_at(SystemGet::SQUARE(i)) {
        SystemSet::SQUARE(p) => p,
        other => panic!("expected a screen point, got {:?}", other),
    }
}

#[test]
fn grid_corners_follow_index_convention() {
    let g = VoxelGrid::<[f32; 3]>::new_centered_at_origin([200, 200, 200]);
    assert_eq!(g.dims, [200, 200, 200]);
    assert!(g.ruf_is_stale);
    let expected = [
        [-100, -100, -100],
        [-100, 100, -100],
        [100, 100, -100],
        [100, -100, -100],
        [-100, -100, 100],
        [-100, 100, 100],
        [100, 100, 100],
        [100, -100, 100],
    ];
    for i in 0..8 {
        assert_eq!(world(&g, i), expected[i]);
    }
}

#[test]
fn grid_half_extents_round_down() {
    let g = VoxelGrid::<[f32; 3]>::new_centered_at_origin([3, 5, 8]);
    assert_eq!(world(&g, 0), [-1, -2, -4]);
    assert_eq!(world(&g, 6), [1, 2, 4]);
}

#[test]
fn grid_is_centred_at_origin() {
    let g = VoxelGrid::<[f32; 3]>::new_centered_at_origin([64, 32, 16]);
    let mut sum = [0i64; 3];
    for i in 0..8 {
        let p = world(&g, i);
        for a in 0..3 {
            sum[a] += p[a] as i64;
            assert_eq!(p[a].unsigned_abs(), [64u32, 32, 16][a] / 2);
        }
    }
    assert_eq!(sum, [0, 0, 0]);
}

#[test]
fn grid_largest_dims_fit() {
    let g = VoxelGrid::<[f32; 3]>::new_centered_at_origin([u32::MAX, 1, 2]);
    assert_eq!(world(&g, 2), [i32::MAX, 0, -1]);
    assert_eq!(world(&g, 0), [-i32::MAX, 0, -1]);
}

#[test]
fn grid_screen_vertices_start_at_centre() {
    let g = VoxelGrid::<[f32; 3]>::new_centered_at_origin([10, 10, 10]);
    for i in 0..8 {
        assert_eq!(screen(&g, i), [0, 0]);
    }
}

#[test]
fn grid_set_changes_only_the_addressed_vertex() {
    let mut g = VoxelGrid::<[f32; 3]>::new_centered_at_origin([10, 10, 10]);
    g.set_vertex_at(SystemGet::SQUARE(5), SystemSet::SQUARE([7, -3]));
    g.set_vertex_at(SystemGet::RUF(5), SystemSet::RUF([1.5, 2.5, 3.5]));
    for i in 0..8 {
        let expected = if i == 5 { [7, -3] } else { [0, 0] };
        assert_eq!(screen(&g, i), expected);
    }
    match g.get_vertex_at(SystemGet::RUF(5)) {
        SystemSet::RUF(p) => assert_eq!(p, [1.5, 2.5, 3.5]),
        other => panic!("expected a camera-relative point, got {:?}", other),
    }
    assert_eq!(world(&g, 5), [-5, 5, 5]);
    assert_eq!(g.dims, [10, 10, 10]);
}

#[test]
fn grid_world_vertex_can_be_rewritten() {
    let mut g = VoxelGrid::<[f32; 3]>::new_centered_at_origin([10, 10, 10]);
    g.set_vertex_at(SystemGet::WORLD(0), SystemSet::WORLD([1, 2, 3]));
    assert_eq!(world(&g, 0), [1, 2, 3]);
    assert_eq!(world(&g, 1), [-5, 5, -5]);
}

#[test]
fn square_default_and_access() {
    let mut s = Square::<[i32; 2]>::default();
    for i in 0..4 {
        assert_eq!(s.get_vertex_at(i), [0, 0]);
    }
    s.set_vertex_at(3, [4, 5]);
    assert_eq!(s.get_vertex_at(3), [4, 5]);
    assert_eq!(s.p4, [4, 5]);
    assert_eq!(s.get_vertex_at(2), [0, 0]);
}

#[test]
fn cuboid_indices_span_both_faces() {
    let mut c = Cuboid::<[i32; 3]>::default();
    c.set_vertex_at(3, [1, 1, 1]);
    c.set_vertex_at(4, [2, 2, 2]);
    assert_eq!(c.get_vertex_at(3), [1, 1, 1]);
    assert_eq!(c.get_vertex_at(4), [2, 2, 2]);
    assert_eq!(c.get_vertex_at(7), [0, 0, 0]);
    let mut f = CuboidFace::<u8>::default();
    f.set_vertex_at(1, 9);
    assert_eq!(f.get_vertex_at(1), 9);
    assert_eq!(f.get_vertex_at(0), 0);
}

#[test]
fn field_buffer_size_values() {
    assert_eq!(field_buffer_size([200, 200, 200]), Some(32_000_000));
    assert_eq!(field_buffer_size([1, 1, 1]), Some(4));
    assert_eq!(field_buffer_size([u32::MAX, 1 << 30, 1]), Some((u32::MAX as u64) << 32));
    assert_eq!(field_buffer_size([u32::MAX, u32::MAX, 1]), None);
    assert_eq!(field_buffer_size([u32::MAX, u32::MAX, 2]), None);
    assert_eq!(field_buffer_size([1 << 31, 1 << 31, 1]), None);
}

#[test]
fn layer_stride_values() {
    assert_eq!(layer_stride([200, 200, 200]), Some(40_000));
    assert_eq!(layer_stride([65536, 65535, 1]), Some(65536 * 65535));
    assert_eq!(layer_stride([65536, 65536, 1]), None);
}
