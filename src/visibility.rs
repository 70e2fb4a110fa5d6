//! The viewport and the screen-space bounding rectangle of the projected grid.

use vstd::prelude::*;
use crate::voxel_grid::{Access, ScreenPoint, SystemGet, SystemSet, VoxelGrid};

verus! {

/// A rectangle on the screen in whole pixels from the screen centre:
/// `[[min_x, min_y], [max_x, max_y]]`.
pub type BoundingBox = [ScreenPoint; 2];

/// The size of the visible surface in pixels.
#[derive(Debug, Copy, Clone, PartialEq, Eq, Structural)]
pub struct Viewport {
    pub width: u32,
    pub height: u32,
}

/// `v` limited to the range `lo..=hi`.
pub open spec fn clamp(v: int, lo: int, hi: int) -> int {
    if v < lo {
        lo
    } else if v > hi {
        hi
    } else {
        v
    }
}

/// The least coordinate `axis` among `pts` (which must not be empty).
pub open spec fn min_coord(pts: Seq<ScreenPoint>, axis: int) -> int
    decreases pts.len(),
{
    if pts.len() <= 1 {
        pts[0][axis] as int
    } else {
        let m = min_coord(pts.drop_last(), axis);
        let v = pts.last()[axis] as int;
        if v < m {
            v
        } else {
            m
        }
    }
}

/// The greatest coordinate `axis` among `pts` (which must not be empty).
pub open spec fn max_coord(pts: Seq<ScreenPoint>, axis: int) -> int
    decreases pts.len(),
{
    if pts.len() <= 1 {
        pts[0][axis] as int
    } else {
        let m = max_coord(pts.drop_last(), axis);
        let v = pts.last()[axis] as int;
        if v > m {
            v
        } else {
            m
        }
    }
}

impl Viewport {
    /// Half the width in whole pixels: the largest horizontal offset from the centre.
    pub open spec fn half_w(&self) -> int {
        self.width as int / 2
    }

    /// Half the height in whole pixels: the largest vertical offset from the centre.
    pub open spec fn half_h(&self) -> int {
        self.height as int / 2
    }

    pub fn new(width: u32, height: u32) -> (r: Viewport)
        ensures
            r.width == width,
            r.height == height,
    {
        Viewport { width, height }
    }

    /// The viewport after a resize request: a size with a zero side is ignored.
    pub open spec fn resized(self, width: u32, height: u32) -> Viewport {
        if width > 0 && height > 0 {
            Viewport { width, height }
        } else {
            self
        }
    }

    /// Takes on a new size unless a side of it is zero. Returns whether the size changed.
    pub fn resize(&mut self, width: u32, height: u32) -> (changed: bool)
        ensures
            *final(self) == old(self).resized(width, height),
            changed == (*final(self) != *old(self)),
    {
        if (width != self.width || height != self.height) && (width > 0 && height > 0) {
            self.width = width;
            self.height = height;
            true
        } else {
            false
        }
    }

    /// The shorter side in pixels: twice the near-plane distance that gives a 90 degree
    /// field of view across it.
    pub fn shorter_side(&self) -> (r: u32)
        ensures
            r == if self.width <= self.height {
                self.width
            } else {
                self.height
            },
    {
        if self.width <= self.height {
            self.width
        } else {
            self.height
        }
    }

    pub fn half_width(&self) -> (r: i32)
        ensures
            r as int == self.half_w(),
    {
        (self.width / 2) as i32
    }

    pub fn half_height(&self) -> (r: i32)
        ensures
            r as int == self.half_h(),
    {
        (self.height / 2) as i32
    }
}

/// Resizing twice to the same size leaves the viewport as resizing once does, and with it
/// the shorter side that the near-plane distance follows from.
pub proof fn lemma_resize_idempotent(v: Viewport, width: u32, height: u32)
    ensures
        v.resized(width, height).resized(width, height) == v.resized(width, height),
{
}

/// The rectangle around `pts`, padded outward by one pixel and clamped to the viewport.
pub open spec fn padded_bounds(pts: Seq<ScreenPoint>, viewport: Viewport) -> (int, int, int, int) {
    (
        clamp(min_coord(pts, 0) - 1, -viewport.half_w(), viewport.half_w()),
        clamp(min_coord(pts, 1) - 1, -viewport.half_h(), viewport.half_h()),
        clamp(max_coord(pts, 0) + 1, -viewport.half_w(), viewport.half_w()),
        clamp(max_coord(pts, 1) + 1, -viewport.half_h(), viewport.half_h()),
    )
}

/// The least coordinate of a non-empty set of points never exceeds the greatest.
pub proof fn lemma_min_le_max(pts: Seq<ScreenPoint>, axis: int)
    requires
        pts.len() >= 1,
    ensures
        min_coord(pts, axis) <= max_coord(pts, axis),
    decreases pts.len(),
{
    if pts.len() > 1 {
        lemma_min_le_max(pts.drop_last(), axis);
    }
}

/// Reduces projected points to their bounding rectangle: the componentwise minimum and
/// maximum, expanded by one pixel outward, each bound clamped to the half-extent of the
/// viewport in its axis.
pub fn bounding_box_of(pts: &[ScreenPoint; 8], viewport: &Viewport) -> (r: BoundingBox)
    ensures
        ({
            let (min_x, min_y, max_x, max_y) = padded_bounds(pts@, *viewport);
            &&& r[0][0] as int == min_x
            &&& r[0][1] as int == min_y
            &&& r[1][0] as int == max_x
            &&& r[1][1] as int == max_y
        }),
        -viewport.half_w() <= r[0][0] <= r[1][0] <= viewport.half_w(),
        -viewport.half_h() <= r[0][1] <= r[1][1] <= viewport.half_h(),
{
    let mut min_x: i32 = pts[0][0];
    let mut min_y: i32 = pts[0][1];
    let mut max_x: i32 = pts[0][0];
    let mut max_y: i32 = pts[0][1];
    let mut i: usize = 1;
    assert(pts@.take(1).drop_last().len() == 0);
    while i < 8
        invariant
            1 <= i <= 8,
            min_x as int == min_coord(pts@.take(i as int), 0),
            min_y as int == min_coord(pts@.take(i as int), 1),
            max_x as int == max_coord(pts@.take(i as int), 0),
            max_y as int == max_coord(pts@.take(i as int), 1),
        decreases 8 - i,
    {
        let p = pts[i];
        assert(pts@.take(i as int + 1).drop_last() =~= pts@.take(i as int));
        assert(pts@.take(i as int + 1).last() == p);
        if p[0] < min_x {
            min_x = p[0];
        }
        if p[1] < min_y {
            min_y = p[1];
        }
        if p[0] > max_x {
            max_x = p[0];
        }
        if p[1] > max_y {
            max_y = p[1];
        }
        i = i + 1;
    }
    assert(pts@.take(8) =~= pts@);
    proof {
        lemma_min_le_max(pts@, 0);
        lemma_min_le_max(pts@, 1);
    }
    let hw: i64 = viewport.half_width() as i64;
    let hh: i64 = viewport.half_height() as i64;
    let lo_x: i64 = clamp_i64(min_x as i64 - 1, -hw, hw);
    let lo_y: i64 = clamp_i64(min_y as i64 - 1, -hh, hh);
    let hi_x: i64 = clamp_i64(max_x as i64 + 1, -hw, hw);
    let hi_y: i64 = clamp_i64(max_y as i64 + 1, -hh, hh);
    [[lo_x as i32, lo_y as i32], [hi_x as i32, hi_y as i32]]
}

fn clamp_i64(v: i64, lo: i64, hi: i64) -> (r: i64)
    requires
        lo <= hi,
    ensures
        r as int == clamp(v as int, lo as int, hi as int),
{
    if v < lo {
        lo
    } else if v > hi {
        hi
    } else {
        v
    }
}

impl<R: Copy> VoxelGrid<R> {
    /// The bounding rectangle of the grid's eight screen-projected vertices.
    pub fn screen_bounding_box(&self, viewport: &Viewport) -> (r: BoundingBox)
        ensures
            ({
                let (min_x, min_y, max_x, max_y) = padded_bounds(self.screen_points(), *viewport);
                &&& r[0][0] as int == min_x
                &&& r[0][1] as int == min_y
                &&& r[1][0] as int == max_x
                &&& r[1][1] as int == max_y
            }),
            -viewport.half_w() <= r[0][0] <= r[1][0] <= viewport.half_w(),
            -viewport.half_h() <= r[0][1] <= r[1][1] <= viewport.half_h(),
    {
        let mut pts: [ScreenPoint; 8] = [[0, 0]; 8];
        let mut i: usize = 0;
        while i < 8
            invariant
                0 <= i <= 8,
                forall|j: int| 0 <= j < i ==> pts[j] == self.screen_at(j),
            decreases 8 - i,
        {
            match self.get_vertex_at(SystemGet::SQUARE(i)) {
                SystemSet::SQUARE(p) => {
                    pts[i] = p;
                },
                _ => {},
            }
            i = i + 1;
        }
        assert(pts@ =~= self.screen_points());
        bounding_box_of(&pts, viewport)
    }
}

} // verus!
