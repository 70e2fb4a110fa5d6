//! Compute dispatch sizing: how many work groups cover a domain.

use vstd::prelude::*;
use crate::visibility::{BoundingBox, Viewport};
use crate::voxel_grid::{Dims3, VoxelGrid};

verus! {

/// Number of work groups needed to cover `n` items with groups of `d`.
pub open spec fn ceil_div_spec(n: int, d: int) -> int {
    (n + d - 1) / d
}

/// Rounds `n / d` up, without overflow for any `n`.
pub fn ceil_div(n: u32, d: u32) -> (r: u32)
    requires
        d > 0,
    ensures
        r as int == ceil_div_spec(n as int, d as int),
        r as int * d as int >= n as int,
{
    let q: u32 = n / d;
    let rem: u32 = n % d;
    assert(n as int == q as int * d as int + rem as int) by (nonlinear_arith)
        requires
            q == n / d,
            rem == n % d,
            d > 0,
    ;
    if rem != 0 {
        // `d > 1` here, so `q < u32::MAX`.
        assert(ceil_div_spec(n as int, d as int) == q as int + 1 && q as int + 1 <= u32::MAX
            && (q as int + 1) * d as int >= n as int) by (nonlinear_arith)
            requires
                n as int == q as int * d as int + rem as int,
                0 < rem < d,
                n <= u32::MAX,
        ;
        q + 1
    } else {
        assert(ceil_div_spec(n as int, d as int) == q as int) by (nonlinear_arith)
            requires
                n as int == q as int * d as int,
                d > 0,
        ;
        q
    }
}

/// Work-group counts of a compute dispatch along x, y and z.
pub type DispatchDims = [u32; 3];

/// Width of a raymarch work group, in pixels.
pub const RAYMARCH_GROUP_W: u32 = 16;

/// Height of a raymarch work group, in pixels.
pub const RAYMARCH_GROUP_H: u32 = 16;

/// Size of a diffusion work group along x; the three sizes multiply to 256, the most
/// invocations a group may hold.
pub const LAPLACIAN_GROUP_X: u32 = 8;

/// Size of a diffusion work group along y.
pub const LAPLACIAN_GROUP_Y: u32 = 4;

/// Size of a diffusion work group along z.
pub const LAPLACIAN_GROUP_Z: u32 = 8;

/// Relies on rand::random: a value drawn from the thread-local generator. Nothing is
/// promised about which value.
pub assume_specification<T>[ rand::random::<T> ]() -> (r: T)
    where
        rand::distr::StandardUniform: rand::distr::Distribution<T>,
;

/// Whether `d` holds the raymarch group counts covering a `w` by `h` pixel region.
pub open spec fn is_raymarch_dispatch(d: DispatchDims, w: int, h: int) -> bool {
    &&& d[0] as int == ceil_div_spec(w, RAYMARCH_GROUP_W as int)
    &&& d[1] as int == ceil_div_spec(h, RAYMARCH_GROUP_H as int)
    &&& d[2] == 1
}

/// Whether `d` holds the diffusion group counts covering a grid of size `dims`.
pub open spec fn is_laplacian_dispatch(d: DispatchDims, dims: Dims3) -> bool {
    &&& d[0] as int == ceil_div_spec(dims[0] as int, LAPLACIAN_GROUP_X as int)
    &&& d[1] as int == ceil_div_spec(dims[1] as int, LAPLACIAN_GROUP_Y as int)
    &&& d[2] as int == ceil_div_spec(dims[2] as int, LAPLACIAN_GROUP_Z as int)
}

/// Dispatch sizes for the three compute kernels, and the seed of the one-time field
/// initialisation.
#[derive(Debug)]
pub struct Bridge {
    pub raymarch_dispatch: DispatchDims,
    pub laplacian_dispatch: DispatchDims,
    /// The initialisation covers the grid as the diffusion step does.
    pub init_dispatch: DispatchDims,
    pub rand_seed: u32,
}

fn raymarch_dispatch_for(w: u32, h: u32) -> (r: DispatchDims)
    ensures
        is_raymarch_dispatch(r, w as int, h as int),
{
    [ceil_div(w, RAYMARCH_GROUP_W), ceil_div(h, RAYMARCH_GROUP_H), 1]
}

impl Bridge {
    /// Dispatch sizes for a grid and a viewport, with the given initialisation seed. The
    /// raymarch covers the whole viewport until a bounding rectangle narrows it.
    pub fn with_seed<R>(voxel_grid: &VoxelGrid<R>, viewport: &Viewport, seed: u32) -> (r: Bridge)
        ensures
            is_raymarch_dispatch(
                r.raymarch_dispatch,
                viewport.width as int,
                viewport.height as int,
            ),
            is_laplacian_dispatch(r.laplacian_dispatch, voxel_grid.dims),
            r.init_dispatch == r.laplacian_dispatch,
            r.rand_seed == seed,
    {
        let dims = voxel_grid.dims;
        let laplacian_dispatch: DispatchDims = [
            ceil_div(dims[0], LAPLACIAN_GROUP_X),
            ceil_div(dims[1], LAPLACIAN_GROUP_Y),
            ceil_div(dims[2], LAPLACIAN_GROUP_Z),
        ];
        Bridge {
            raymarch_dispatch: raymarch_dispatch_for(viewport.width, viewport.height),
            laplacian_dispatch: laplacian_dispatch,
            init_dispatch: laplacian_dispatch,
            rand_seed: seed,
        }
    }

    /// As `with_seed`, with a seed drawn uniformly from the whole `u32` range.
    pub fn new<R>(voxel_grid: &VoxelGrid<R>, viewport: &Viewport) -> (r: Bridge)
        ensures
            is_raymarch_dispatch(
                r.raymarch_dispatch,
                viewport.width as int,
                viewport.height as int,
            ),
            is_laplacian_dispatch(r.laplacian_dispatch, voxel_grid.dims),
            r.init_dispatch == r.laplacian_dispatch,
    {
        let seed: u32 = rand::random::<u32>();
        Bridge::with_seed(voxel_grid, viewport, seed)
    }

    /// Sizes the raymarch to cover the bounding rectangle of the grid on screen.
    pub fn update_raymarch_dispatch(&mut self, bounding_box: BoundingBox)
        requires
            bounding_box[1][0] > bounding_box[0][0],
            bounding_box[1][1] > bounding_box[0][1],
        ensures
            is_raymarch_dispatch(
                final(self).raymarch_dispatch,
                bounding_box[1][0] - bounding_box[0][0],
                bounding_box[1][1] - bounding_box[0][1],
            ),
            final(self).laplacian_dispatch == old(self).laplacian_dispatch,
            final(self).init_dispatch == old(self).init_dispatch,
            final(self).rand_seed == old(self).rand_seed,
    {
        let w: u32 = (bounding_box[1][0] as i64 - bounding_box[0][0] as i64) as u32;
        let h: u32 = (bounding_box[1][1] as i64 - bounding_box[0][1] as i64) as u32;
        self.raymarch_dispatch = raymarch_dispatch_for(w, h);
    }
}

/// Group counts never fall short of their domain, and never exceed it by a whole group:
/// `groups * size >= extent > (groups - 1) * size`.
pub proof fn lemma_ceil_div_covers(n: int, d: int)
    requires
        n >= 0,
        d > 0,
    ensures
        ceil_div_spec(n, d) * d >= n,
        (ceil_div_spec(n, d) - 1) * d < n || n == 0,
{
    let q = ceil_div_spec(n, d);
    assert(q * d >= n && ((q - 1) * d < n || n == 0)) by (nonlinear_arith)
        requires
            q == (n + d - 1) / d,
            n >= 0,
            d > 0,
    ;
}

/// Dispatch sizes cover what they are for: raymarch groups times the group size reach the
/// width and height of the region, and diffusion groups times the group size reach each
/// dimension of the grid.
pub proof fn lemma_dispatch_covers(
    raymarch: DispatchDims,
    w: int,
    h: int,
    laplacian: DispatchDims,
    dims: Dims3,
)
    requires
        w >= 0,
        h >= 0,
        is_raymarch_dispatch(raymarch, w, h),
        is_laplacian_dispatch(laplacian, dims),
    ensures
        raymarch[0] * RAYMARCH_GROUP_W >= w,
        raymarch[1] * RAYMARCH_GROUP_H >= h,
        laplacian[0] * LAPLACIAN_GROUP_X >= dims[0],
        laplacian[1] * LAPLACIAN_GROUP_Y >= dims[1],
        laplacian[2] * LAPLACIAN_GROUP_Z >= dims[2],
{
    lemma_ceil_div_covers(w, RAYMARCH_GROUP_W as int);
    lemma_ceil_div_covers(h, RAYMARCH_GROUP_H as int);
    lemma_ceil_div_covers(dims[0] as int, LAPLACIAN_GROUP_X as int);
    lemma_ceil_div_covers(dims[1] as int, LAPLACIAN_GROUP_Y as int);
    lemma_ceil_div_covers(dims[2] as int, LAPLACIAN_GROUP_Z as int);
}

} // verus!
