use voxel_raymarch::dispatch::{
    ceil_div, Bridge, LAPLACIAN_GROUP_X, LAPLACIAN_GROUP_Y, LAPLACIAN_GROUP_Z, RAYMARCH_GROUP_H,
    RAYMARCH_GROUP_W,
};
use voxel_raymarch::visibility::Viewport;
use voxel_raymarch::voxel_grid::VoxelGrid;

#[test]
fn ceil_div_values() {
    assert_eq!(ceil_div(200, 8), 25);
    assert_eq!(ceil_div(200, 4), 50);
    assert_eq!(ceil_div(201, 8), 26);
    assert_eq!(ceil_div(0, 16), 0);
    assert_eq!(ceil_div(1, 16), 1);
    assert_eq!(ceil_div(u32::MAX, 16), 268435456);
    assert_eq!(ceil_div(u32::MAX, 1), u32::MAX);
}

#[test]
fn ceil_div_covers_domain() {
    for d in 1..40u32 {
        for n in 0..500u32 {
            let q = ceil_div(n, d);
            assert!(q as u64 * d as u64 >= n as u64);
            assert!(n == 0 || (q as u64 - 1) * (d as u64) < n as u64);
        }
    }
}

#[test]
fn scenario_default_session_dispatch() {
    let g = VoxelGrid::<[f32; 3]>::new_centered_at_origin([200, 200, 200]);
    let b = Bridge::with_seed(&g, &Viewport::new(800, 600), 42);
    assert_eq!(b.laplacian_dispatch, [25, 50, 25]);
    assert_eq!(b.init_dispatch, [25, 50, 25]);
    assert_eq!(b.raymarch_dispatch, [50, 38, 1]);
    assert_eq!(b.rand_seed, 42);
}

#[test]
fn bridge_new_sizes_dispatch() {
    let g = VoxelGrid::<[f32; 3]>::new_centered_at_origin([17, 9, 1]);
    let b = Bridge::new(&g, &Viewport::new(100, 33));
    assert_eq!(b.laplacian_dispatch, [3, 3, 1]);
    assert_eq!(b.init_dispatch, b.laplacian_dispatch);
    assert_eq!(b.raymarch_dispatch, [7, 3, 1]);
}

#[test]
fn update_raymarch_dispatch_covers_rectangle() {
    let g = VoxelGrid::<[f32; 3]>::new_centered_at_origin([200, 200, 200]);
    let mut b = Bridge::with_seed(&g, &Viewport::new(800, 600), 1);
    b.update_raymarch_dispatch([[-400, -300], [400, 300]]);
    assert_eq!(b.raymarch_dispatch, [50, 38, 1]);
    b.update_raymarch_dispatch([[-10, 5], [7, 6]]);
    assert_eq!(b.raymarch_dispatch, [2, 1, 1]);
    assert_eq!(b.laplacian_dispatch, [25, 50, 25]);
    assert_eq!(b.rand_seed, 1);
}

#[test]
fn update_raymarch_dispatch_widest_rectangle() {
    let g = VoxelGrid::<[f32; 3]>::new_centered_at_origin([1, 1, 1]);
    let mut b = Bridge::with_seed(&g, &Viewport::new(1, 1), 0);
    b.update_raymarch_dispatch([[i32::MIN, i32::MIN], [i32::MAX, i32::MAX]]);
    assert_eq!(b.raymarch_dispatch, [268435456, 268435456, 1]);
}

#[test]
fn dispatch_group_sizes_fit_hardware_limit() {
    assert!(LAPLACIAN_GROUP_X * LAPLACIAN_GROUP_Y * LAPLACIAN_GROUP_Z <= 256);
    assert!(RAYMARCH_GROUP_W * RAYMARCH_GROUP_H <= 256);
}
