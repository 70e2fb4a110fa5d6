//! The voxel grid's bounding cuboid and its vertices in three coordinate systems.
//!
//! Every vertex set uses the same index convention (0 to 7, one index per physical corner),
//! and every read or write names the coordinate system it means, so that a point of one
//! system is never stored where another is expected.

use vstd::prelude::*;

verus! {

/// Size of the grid along each of its three axes.
pub type Dims3 = [u32; 3];

/// A corner of the grid in world space. The grid is centred at the origin and its
/// half-extents are whole numbers, so world corners are exact integer points.
pub type WorldPoint = [i32; 3];

/// A point on the screen-space near plane, in whole pixels from the screen centre.
pub type ScreenPoint = [i32; 2];

/// A vertex together with the coordinate system it is expressed in.
/// `R` is the type of a camera-relative (right, up, forward) point.
#[allow(non_camel_case_types)]
#[derive(Debug, Copy, Clone)]
pub enum SystemSet<R> {
    WORLD(WorldPoint),
    RUF(R),
    SQUARE(ScreenPoint),
}

/// A vertex index together with the coordinate system it is requested in.
#[allow(non_camel_case_types)]
#[derive(Debug, Copy, Clone, PartialEq, Eq, Structural)]
pub enum SystemGet {
    WORLD(usize),
    RUF(usize),
    SQUARE(usize),
}

/// Indexed access to the vertices of a shape.
///
/// `addresses(a)` says which indices name a vertex, `accepts(a, b)` which values may be
/// stored there, and `vertex(a)` what is stored. Writing a vertex changes that vertex and
/// nothing else.
pub trait Access<I, O>: Sized {
    spec fn addresses(&self, a: I) -> bool;

    spec fn accepts(&self, a: I, b: O) -> bool;

    spec fn vertex(&self, a: I) -> O;

    /// Everything about the shape other than its vertices is the same in both.
    spec fn same_frame(&self, other: Self) -> bool;

    fn set_vertex_at(&mut self, a: I, b: O)
        requires
            old(self).addresses(a),
            old(self).accepts(a, b),
        ensures
            final(self).vertex(a) == b,
            forall|c: I|
                old(self).addresses(c) && c != a ==> #[trigger] final(self).vertex(c) == old(
                    self,
                ).vertex(c),
            forall|c: I| #[trigger] final(self).addresses(c) == old(self).addresses(c),
            final(self).same_frame(*old(self)),
    ;

    fn get_vertex_at(&self, a: I) -> (r: O)
        requires
            self.addresses(a),
        ensures
            r == self.vertex(a),
    ;
}

/// Four vertices of a planar quadrilateral, in a consistent winding order.
#[derive(Debug, Copy, Clone)]
pub struct Square<T> {
    pub p1: T,
    pub p2: T,
    pub p3: T,
    pub p4: T,
}

impl<T> Square<T> {
    /// The vertex at `i` (0 to 3).
    pub open spec fn at(&self, i: int) -> T {
        if i == 0 {
            self.p1
        } else if i == 1 {
            self.p2
        } else if i == 2 {
            self.p3
        } else {
            self.p4
        }
    }
}

impl Default for Square<ScreenPoint> {
    fn default() -> (r: Self)
        ensures
            forall|i: int| 0 <= i < 4 ==> #[trigger] r.at(i) == [0i32, 0i32],
    {
        Square { p1: [0, 0], p2: [0, 0], p3: [0, 0], p4: [0, 0] }
    }
}

impl<T: Copy> Access<usize, T> for Square<T> {
    open spec fn addresses(&self, a: usize) -> bool {
        a < 4
    }

    open spec fn accepts(&self, a: usize, b: T) -> bool {
        true
    }

    open spec fn vertex(&self, a: usize) -> T {
        self.at(a as int)
    }

    open spec fn same_frame(&self, other: Self) -> bool {
        true
    }

    fn set_vertex_at(&mut self, idx: usize, point: T) {
        if idx == 0 {
            self.p1 = point;
        } else if idx == 1 {
            self.p2 = point;
        } else if idx == 2 {
            self.p3 = point;
        } else {
            self.p4 = point;
        }
    }

    fn get_vertex_at(&self, idx: usize) -> (r: T) {
        if idx == 0 {
            self.p1
        } else if idx == 1 {
            self.p2
        } else if idx == 2 {
            self.p3
        } else {
            self.p4
        }
    }
}

/// One face of a cuboid: four vertices of any point type, in winding order.
#[derive(Debug, Copy, Clone)]
pub struct CuboidFace<T> {
    p1: T,
    p2: T,
    p3: T,
    p4: T,
}

impl<T> CuboidFace<T> {
    /// The vertex at `i` (0 to 3).
    pub closed spec fn at(&self, i: int) -> T {
        if i == 0 {
            self.p1
        } else if i == 1 {
            self.p2
        } else if i == 2 {
            self.p3
        } else {
            self.p4
        }
    }
}

impl<T: Copy + Default> Default for CuboidFace<T> {
    fn default() -> (r: Self)
        ensures
            forall|i: int| 0 <= i < 4 ==> #[trigger] r.at(i) == r.at(0),
    {
        let z = T::default();
        CuboidFace { p1: z, p2: z, p3: z, p4: z }
    }
}

impl<T: Copy> Access<usize, T> for CuboidFace<T> {
    open spec fn addresses(&self, a: usize) -> bool {
        a < 4
    }

    open spec fn accepts(&self, a: usize, b: T) -> bool {
        true
    }

    open spec fn vertex(&self, a: usize) -> T {
        self.at(a as int)
    }

    open spec fn same_frame(&self, other: Self) -> bool {
        true
    }

    fn set_vertex_at(&mut self, idx: usize, point: T) {
        if idx == 0 {
            self.p1 = point;
        } else if idx == 1 {
            self.p2 = point;
        } else if idx == 2 {
            self.p3 = point;
        } else {
            self.p4 = point;
        }
    }

    fn get_vertex_at(&self, idx: usize) -> (r: T) {
        if idx == 0 {
            self.p1
        } else if idx == 1 {
            self.p2
        } else if idx == 2 {
            self.p3
        } else {
            self.p4
        }
    }
}

/// A cuboid as two opposite faces: vertices 0 to 3 on the first, 4 to 7 on the second.
#[derive(Debug, Copy, Clone)]
pub struct Cuboid<T> {
    f1: CuboidFace<T>,
    f2: CuboidFace<T>,
}

impl<T> Cuboid<T> {
    /// The vertex at `i` (0 to 7).
    pub closed spec fn at(&self, i: int) -> T {
        if i < 4 {
            self.f1.at(i)
        } else {
            self.f2.at(i - 4)
        }
    }
}

impl<T: Copy + Default> Default for Cuboid<T> {
    fn default() -> (r: Self)
        ensures
            forall|i: int| 0 <= i < 8 ==> #[trigger] r.at(i) == r.at(0),
    {
        let face = CuboidFace::<T>::default();
        proof {
            assert(face.at(1) == face.at(0) && face.at(2) == face.at(0) && face.at(3) == face.at(0));
        }
        Cuboid { f1: face, f2: face }
    }
}

impl<T: Copy> Access<usize, T> for Cuboid<T> {
    open spec fn addresses(&self, a: usize) -> bool {
        a < 8
    }

    open spec fn accepts(&self, a: usize, b: T) -> bool {
        true
    }

    open spec fn vertex(&self, a: usize) -> T {
        self.at(a as int)
    }

    open spec fn same_frame(&self, other: Self) -> bool {
        true
    }

    fn set_vertex_at(&mut self, idx: usize, point: T) {
        let ghost prev = *self;
        if idx < 4 {
            self.f1.set_vertex_at(idx, point);
        } else {
            self.f2.set_vertex_at(idx - 4, point);
        }
        assert forall|c: usize| c < 8 && c != idx implies #[trigger] self.at(c as int) == prev.at(
            c as int,
        ) by {
            if c < 4 {
                assert(self.f1.vertex(c) == prev.f1.vertex(c));
            } else {
                assert(self.f2.vertex((c - 4) as usize) == prev.f2.vertex((c - 4) as usize));
            }
        }
    }

    fn get_vertex_at(&self, idx: usize) -> (r: T) {
        if idx < 4 {
            self.f1.get_vertex_at(idx)
        } else {
            self.f2.get_vertex_at(idx - 4)
        }
    }
}

/// Sign (+1 or -1) of coordinate `axis` of corner `i` of a cuboid centred at the origin.
///
/// Corners 0 to 3 lie on the face with negative third coordinate and 4 to 7 on the
/// opposite face; within a face the corners run (-,-), (-,+), (+,+), (+,-).
pub open spec fn corner_sign(i: int, axis: int) -> int {
    let j = i % 4;
    if axis == 0 {
        if j == 2 || j == 3 {
            1
        } else {
            -1
        }
    } else if axis == 1 {
        if j == 1 || j == 2 {
            1
        } else {
            -1
        }
    } else {
        if i >= 4 {
            1
        } else {
            -1
        }
    }
}

/// Half the grid's size along `axis`, rounded down.
pub open spec fn half_extent(dims: Dims3, axis: int) -> int {
    dims[axis] as int / 2
}

/// Whether `p` is corner `i` of the cuboid of size `dims` centred at the origin.
pub open spec fn is_corner(dims: Dims3, i: int, p: WorldPoint) -> bool {
    &&& p[0] as int == corner_sign(i, 0) * half_extent(dims, 0)
    &&& p[1] as int == corner_sign(i, 1) * half_extent(dims, 1)
    &&& p[2] as int == corner_sign(i, 2) * half_extent(dims, 2)
}

/// The simulated volume's container: its size and the vertices of its bounding cuboid in
/// world space, relative to the camera (points of type `R`), and projected onto the screen.
#[derive(Debug, Copy, Clone)]
pub struct VoxelGrid<R> {
    pub dims: Dims3,
    /// Set at creation; the camera-relative vertices have not been computed yet.
    pub ruf_is_stale: bool,
    pub world_cuboid: Cuboid<WorldPoint>,
    pub ruf_cuboid: Cuboid<R>,
    /// The eight projected vertices: 0 to 3 in the first square, 4 to 7 in the second.
    pub onto_plane: [Square<ScreenPoint>; 2],
}

impl<R> VoxelGrid<R> {
    /// World-space vertex `i`.
    pub open spec fn world_at(&self, i: int) -> WorldPoint {
        self.world_cuboid.at(i)
    }

    /// Camera-relative vertex `i`.
    pub open spec fn ruf_at(&self, i: int) -> R {
        self.ruf_cuboid.at(i)
    }

    /// Screen-projected vertex `i`.
    pub open spec fn screen_at(&self, i: int) -> ScreenPoint {
        self.onto_plane[i / 4].at(i % 4)
    }

    /// The eight screen-projected vertices, in index order.
    pub open spec fn screen_points(&self) -> Seq<ScreenPoint> {
        Seq::new(8, |i: int| self.screen_at(i))
    }
}

impl<R: Copy + Default> VoxelGrid<R> {
    /// A grid of size `dims` whose world cuboid is centred at the origin, with half-extent
    /// `dims[axis] / 2` (rounded down) along each axis.
    pub fn new_centered_at_origin(dims: Dims3) -> (r: Self)
        requires
            dims[0] > 0,
            dims[1] > 0,
            dims[2] > 0,
        ensures
            r.dims == dims,
            r.ruf_is_stale,
            forall|i: int| 0 <= i < 8 ==> is_corner(dims, i, #[trigger] r.world_at(i)),
            forall|i: int| 0 <= i < 8 ==> #[trigger] r.screen_at(i) == [0i32, 0i32],
    {
        let hx: i32 = (dims[0] / 2) as i32;
        let hy: i32 = (dims[1] / 2) as i32;
        let hz: i32 = (dims[2] / 2) as i32;
        let near_face = CuboidFace {
            p1: [-hx, -hy, -hz],
            p2: [-hx, hy, -hz],
            p3: [hx, hy, -hz],
            p4: [hx, -hy, -hz],
        };
        let far_face = CuboidFace {
            p1: [-hx, -hy, hz],
            p2: [-hx, hy, hz],
            p3: [hx, hy, hz],
            p4: [hx, -hy, hz],
        };
        let r = VoxelGrid {
            dims: dims,
            ruf_is_stale: true,
            world_cuboid: Cuboid { f1: near_face, f2: far_face },
            ruf_cuboid: Cuboid::default(),
            onto_plane: [Square::default(), Square::default()],
        };
        assert forall|i: int| 0 <= i < 8 implies is_corner(dims, i, #[trigger] r.world_at(i)) by {
            if i < 4 {
                assert(r.world_at(i) == near_face.at(i));
            } else {
                assert(r.world_at(i) == far_face.at(i - 4));
            }
        }
        assert forall|i: int| 0 <= i < 8 implies #[trigger] r.screen_at(i) == [0i32, 0i32] by {
            assert(r.onto_plane[i / 4].at(i % 4) == [0i32, 0i32]);
        }
        r
    }
}

impl<R: Copy> Access<SystemGet, SystemSet<R>> for VoxelGrid<R> {
    /// Indices 0 to 7 name a vertex in each of the three systems.
    open spec fn addresses(&self, a: SystemGet) -> bool {
        match a {
            SystemGet::WORLD(i) => i < 8,
            SystemGet::RUF(i) => i < 8,
            SystemGet::SQUARE(i) => i < 8,
        }
    }

    /// A point may only be stored under the coordinate system it is expressed in.
    open spec fn accepts(&self, a: SystemGet, b: SystemSet<R>) -> bool {
        match (a, b) {
            (SystemGet::WORLD(_), SystemSet::WORLD(_)) => true,
            (SystemGet::RUF(_), SystemSet::RUF(_)) => true,
            (SystemGet::SQUARE(_), SystemSet::SQUARE(_)) => true,
            _ => false,
        }
    }

    open spec fn vertex(&self, a: SystemGet) -> SystemSet<R> {
        match a {
            SystemGet::WORLD(i) => SystemSet::WORLD(self.world_at(i as int)),
            SystemGet::RUF(i) => SystemSet::RUF(self.ruf_at(i as int)),
            SystemGet::SQUARE(i) => SystemSet::SQUARE(self.screen_at(i as int)),
        }
    }

    open spec fn same_frame(&self, other: Self) -> bool {
        self.dims == other.dims && self.ruf_is_stale == other.ruf_is_stale
    }

    fn set_vertex_at(&mut self, idx: SystemGet, specifier: SystemSet<R>) {
        let ghost prev = *self;
        match (idx, specifier) {
            (SystemGet::WORLD(i), SystemSet::WORLD(point)) => {
                self.world_cuboid.set_vertex_at(i, point);
            },
            (SystemGet::RUF(i), SystemSet::RUF(point)) => {
                self.ruf_cuboid.set_vertex_at(i, point);
            },
            (SystemGet::SQUARE(i), SystemSet::SQUARE(point)) => {
                let face: usize = i / 4;
                let rem: usize = i % 4;
                let mut square = self.onto_plane[face];
                square.set_vertex_at(rem, point);
                self.onto_plane[face] = square;
                assert forall|c: int| 0 <= c < 8 && c != i implies #[trigger] self.screen_at(c)
                    == prev.screen_at(c) by {
                    if c / 4 == face as int {
                        assert(square.vertex((c % 4) as usize) == prev.onto_plane[face as int].vertex(
                            (c % 4) as usize,
                        ));
                    }
                }
            },
            _ => {},
        }
        assert forall|c: SystemGet| prev.addresses(c) && c != idx implies #[trigger] self.vertex(c)
            == prev.vertex(c) by {
            match c {
                SystemGet::WORLD(j) => {
                    assert(self.world_cuboid.vertex(j) == prev.world_cuboid.vertex(j));
                },
                SystemGet::RUF(j) => {
                    assert(self.ruf_cuboid.vertex(j) == prev.ruf_cuboid.vertex(j));
                },
                SystemGet::SQUARE(j) => {},
            }
        }
    }

    fn get_vertex_at(&self, specifier: SystemGet) -> (r: SystemSet<R>) {
        match specifier {
            SystemGet::WORLD(i) => SystemSet::WORLD(self.world_cuboid.get_vertex_at(i)),
            SystemGet::RUF(i) => SystemSet::RUF(self.ruf_cuboid.get_vertex_at(i)),
            SystemGet::SQUARE(i) => {
                let face: usize = i / 4;
                let rem: usize = i % 4;
                SystemSet::SQUARE(self.onto_plane[face].get_vertex_at(rem))
            },
        }
    }
}

/// Number of cells in a grid of size `dims`.
pub open spec fn cell_count(dims: Dims3) -> int {
    dims[0] as int * dims[1] as int * dims[2] as int
}

/// Size in bytes of a field buffer for a grid of size `dims`, one 4-byte value per cell;
/// `None` when that does not fit in a `u64`.
pub fn field_buffer_size(dims: Dims3) -> (r: Option<u64>)
    ensures
        r == if 4 * cell_count(dims) <= u64::MAX {
            Some((4 * cell_count(dims)) as u64)
        } else {
            None::<u64>
        },
{
    let a: u64 = dims[0] as u64;
    let b: u64 = dims[1] as u64;
    assert(a * b <= u64::MAX) by (nonlinear_arith)
        requires
            a <= u32::MAX,
            b <= u32::MAX,
    ;
    let layer: u64 = a * b;
    let cells = layer.checked_mul(dims[2] as u64);
    match cells {
        Some(c) => c.checked_mul(4),
        None => {
            assert(4 * cell_count(dims) > u64::MAX) by (nonlinear_arith)
                requires
                    layer as int * dims[2] as int > u64::MAX,
                    layer as int == dims[0] as int * dims[1] as int,
            ;
            None
        },
    }
}

/// Number of cells in one layer of constant third coordinate, the stride between layers
/// of the field; `None` when that does not fit in a `u32`.
pub fn layer_stride(dims: Dims3) -> (r: Option<u32>)
    ensures
        r == if dims[0] as int * dims[1] as int <= u32::MAX {
            Some((dims[0] as int * dims[1] as int) as u32)
        } else {
            None::<u32>
        },
{
    dims[0].checked_mul(dims[1])
}

} // verus!
