//! Screen-to-device conversion and first-match triangle picking.

use vstd::prelude::*;

use crate::fixed::{clamp_i128, clamp_to, SCALE};
use crate::geometry::{contains, point_in_triangle, Point2, Triangle2};

verus! {

/// A cursor position, in millionths of a pixel, with the origin at the
/// bottom-left corner of the window.
#[derive(Clone, Copy, Debug, PartialEq, Eq, Structural)]
pub struct ScreenPoint {
    pub x: u64,
    pub y: u64,
}

/// A window size, in millionths of a pixel.
#[derive(Clone, Copy, Debug, PartialEq, Eq, Structural)]
pub struct ScreenSize {
    pub width: u64,
    pub height: u64,
}

/// `v` limited to the range of `i32`.
pub open spec fn saturate_i32(v: int) -> int {
    clamp_to(v, i32::MIN as int, i32::MAX as int)
}

/// The device coordinate, in millionths, of screen coordinate `c` on an axis
/// of length `size`: `(c / size) * 2 - 1`, rounded down.
pub open spec fn ndc_coord(c: int, size: int) -> int {
    saturate_i32((2 * c * SCALE) / size - SCALE)
}

fn ndc_axis(c: u64, size: u64) -> (r: i32)
    requires
        size > 0,
    ensures
        r == ndc_coord(c as int, size as int),
{
    proof {
        vstd::arithmetic::div_mod::lemma_div_is_ordered(
            2 * c * SCALE,
            0x200_0000_0000_0000_0000_0000,
            size as int,
        );
        vstd::arithmetic::div_mod::lemma_div_is_ordered_by_denominator(
            0x200_0000_0000_0000_0000_0000,
            1,
            size as int,
        );
        vstd::arithmetic::div_mod::lemma_div_pos_is_pos(2 * c * SCALE, size as int);
    }
    let scaled: u128 = 2 * (c as u128) * (SCALE as u128);
    let q: u128 = scaled / (size as u128);
    clamp_i128(q as i128 - SCALE as i128, i32::MIN as i128, i32::MAX as i128) as i32
}

/// Maps a cursor position to normalized device coordinates.
pub fn screen_to_ndc(cursor: ScreenPoint, screen: ScreenSize) -> (r: Point2)
    requires
        screen.width > 0,
        screen.height > 0,
    ensures
        r.x == ndc_coord(cursor.x as int, screen.width as int),
        r.y == ndc_coord(cursor.y as int, screen.height as int),
{
    Point2 { x: ndc_axis(cursor.x, screen.width), y: ndc_axis(cursor.y, screen.height) }
}

/// A cursor at the exact center of the screen maps to the device origin,
/// whatever the screen's size.
pub proof fn lemma_screen_center_is_origin(cursor: ScreenPoint, screen: ScreenSize)
    requires
        screen.width > 0,
        screen.height > 0,
        2 * cursor.x == screen.width,
        2 * cursor.y == screen.height,
    ensures
        ndc_coord(cursor.x as int, screen.width as int) == 0,
        ndc_coord(cursor.y as int, screen.height as int) == 0,
{
    vstd::arithmetic::div_mod::lemma_div_multiples_vanish(SCALE as int, screen.width as int);
    vstd::arithmetic::div_mod::lemma_div_multiples_vanish(SCALE as int, screen.height as int);
}

/// How a mesh's vertices form primitives. Only triangle lists are picked.
#[derive(Clone, Copy, Debug, PartialEq, Eq, Structural)]
pub enum Topology {
    PointList,
    LineList,
    LineStrip,
    TriangleList,
    TriangleStrip,
}

/// A pickable mesh whose vertex positions have already been carried through
/// projection, view and world transform, keeping x and y.
#[derive(Debug)]
pub struct ProjectedMesh {
    /// The host's identifier of the mesh.
    pub id: u64,
    pub topology: Topology,
    /// The projected positions; `None` when the mesh has none.
    pub positions: Option<Vec<Point2>>,
    /// Vertex indices, three per triangle; `None` when positions are taken
    /// three at a time.
    pub indices: Option<Vec<u32>>,
}

/// The number of complete vertex triples of `m` that may form triangles.
pub open spec fn triple_count(m: ProjectedMesh) -> int {
    if m.topology != Topology::TriangleList {
        0
    } else {
        match m.positions {
            None => 0,
            Some(p) => match m.indices {
                Some(i) => i@.len() as int / 3,
                None => p@.len() as int / 3,
            },
        }
    }
}

/// The position index of corner `j` of triple `k` of `m`.
pub open spec fn corner(m: ProjectedMesh, k: int, j: int) -> int {
    match m.indices {
        Some(i) => i@[3 * k + j] as int,
        None => 3 * k + j,
    }
}

/// Triangle `k` of `m`, or `None` when one of its indices names no position.
pub open spec fn triangle_of(m: ProjectedMesh, k: int) -> Option<Triangle2> {
    let p = m.positions.unwrap()@;
    if corner(m, k, 0) < p.len() && corner(m, k, 1) < p.len() && corner(m, k, 2) < p.len() {
        Some(
            Triangle2 {
                a: p[corner(m, k, 0)],
                b: p[corner(m, k, 1)],
                c: p[corner(m, k, 2)],
            },
        )
    } else {
        None
    }
}

/// Triple `k` of `m` is a triangle that contains `p`.
pub open spec fn hits(m: ProjectedMesh, k: int, p: Point2) -> bool {
    &&& 0 <= k < triple_count(m)
    &&& triangle_of(m, k) matches Some(t)
    &&& contains(t, p)
}

/// Triple `k` of mesh `i` comes before triple `k2` of mesh `i2`.
pub open spec fn precedes(i: int, k: int, i2: int, k2: int) -> bool {
    i < i2 || (i == i2 && k < k2)
}

/// Triple `k` of mesh `i` is the first, in mesh order and then triangle
/// order, whose triangle contains `p`.
pub open spec fn is_first_hit(ms: Seq<ProjectedMesh>, p: Point2, i: int, k: int) -> bool {
    &&& 0 <= i < ms.len()
    &&& hits(ms[i], k, p)
    &&& forall|i2: int, k2: int|
        #![trigger hits(ms[i2], k2, p)]
        0 <= i2 < ms.len() && precedes(i2, k2, i, k) ==> !hits(ms[i2], k2, p)
}

/// A picked triangle: which mesh, which triple, and its projected corners.
#[derive(Clone, Copy, Debug, PartialEq, Eq, Structural)]
pub struct PickHit {
    pub mesh_index: usize,
    pub mesh: u64,
    pub triangle_index: usize,
    pub triangle: Triangle2,
}

impl ProjectedMesh {
    /// The number of vertex triples that may form triangles: none unless the
    /// mesh is a triangle list with positions.
    pub fn triangle_count(&self) -> (r: usize)
        ensures
            r == triple_count(*self),
    {
        match self.topology {
            Topology::TriangleList => {},
            _ => {
                return 0;
            },
        }
        match &self.positions {
            None => 0,
            Some(p) => match &self.indices {
                Some(i) => i.len() / 3,
                None => p.len() / 3,
            },
        }
    }

    /// Triangle `k`, or `None` when one of its indices names no position.
    pub fn triangle(&self, k: usize) -> (r: Option<Triangle2>)
        requires
            k < triple_count(*self),
        ensures
            r == triangle_of(*self, k as int),
    {
        let p = match &self.positions {
            Some(p) => p,
            None => {
                return None;
            },
        };
        let (ia, ib, ic) = match &self.indices {
            Some(i) => {
                let len = i.len();
                proof {
                    vstd::arithmetic::div_mod::lemma_fundamental_div_mod(len as int, 3);
                }
                (i[3 * k] as usize, i[3 * k + 1] as usize, i[3 * k + 2] as usize)
            },
            None => {
                let len = p.len();
                proof {
                    vstd::arithmetic::div_mod::lemma_fundamental_div_mod(len as int, 3);
                }
                (3 * k, 3 * k + 1, 3 * k + 2)
            },
        };
        if ia < p.len() && ib < p.len() && ic < p.len() {
            Some(Triangle2 { a: p[ia], b: p[ib], c: p[ic] })
        } else {
            None
        }
    }
}

/// Finds the first triangle, in mesh order and then triangle order, whose
/// projection contains `cursor`. Meshes that are not triangle lists or have
/// no positions, incomplete index triples and indices naming no position
/// are skipped.
pub fn pick(meshes: &Vec<ProjectedMesh>, cursor: Point2) -> (r: Option<PickHit>)
    ensures
        match r {
            Some(h) => {
                &&& is_first_hit(meshes@, cursor, h.mesh_index as int, h.triangle_index as int)
                &&& h.mesh == meshes@[h.mesh_index as int].id
                &&& triangle_of(meshes@[h.mesh_index as int], h.triangle_index as int) == Some(
                    h.triangle,
                )
            },
            None => forall|i: int, k: int|
                #![trigger hits(meshes@[i], k, cursor)]
                0 <= i < meshes.len() ==> !hits(meshes@[i], k, cursor),
        },
{
    let mut i: usize = 0;
    while i < meshes.len()
        invariant
            0 <= i <= meshes.len(),
            forall|i2: int, k2: int|
                #![trigger hits(meshes@[i2], k2, cursor)]
                0 <= i2 < i ==> !hits(meshes@[i2], k2, cursor),
        decreases meshes.len() - i,
    {
        let m = &meshes[i];
        let n = m.triangle_count();
        let mut k: usize = 0;
        while k < n
            invariant
                0 <= i < meshes.len(),
                m == meshes@[i as int],
                n == triple_count(*m),
                0 <= k <= n,
                forall|i2: int, k2: int|
                    #![trigger hits(meshes@[i2], k2, cursor)]
                    0 <= i2 < i ==> !hits(meshes@[i2], k2, cursor),
                forall|k2: int| #![trigger hits(*m, k2, cursor)] k2 < k ==> !hits(*m, k2, cursor),
            decreases n - k,
        {
            if let Some(t) = m.triangle(k) {
                if point_in_triangle(cursor, &t) {
                    return Some(PickHit { mesh_index: i, mesh: m.id, triangle_index: k, triangle: t });
                }
            }
            k += 1;
        }
        i += 1;
    }
    None
}

/// Picking is deterministic: of two triangles that both contain the cursor,
/// the later one in mesh-then-triangle order is never the result, and the
/// earlier one is whenever nothing before it contains the cursor.
pub proof fn lemma_first_match_wins(
    ms: Seq<ProjectedMesh>,
    p: Point2,
    ia: int,
    ka: int,
    ib: int,
    kb: int,
)
    requires
        0 <= ia < ms.len(),
        0 <= ib < ms.len(),
        hits(ms[ia], ka, p),
        hits(ms[ib], kb, p),
        precedes(ia, ka, ib, kb),
    ensures
        !is_first_hit(ms, p, ib, kb),
        is_first_hit(ms, p, ia, ka) <==> forall|i2: int, k2: int|
            #![trigger hits(ms[i2], k2, p)]
            0 <= i2 < ms.len() && precedes(i2, k2, ia, ka) ==> !hits(ms[i2], k2, p),
{
}

} // verus!
