//! The screen-space quad that the ray-marching material is drawn on: four
//! corners at (±sx, ±sy, 0), facing +Z, split into two triangles.
//!
//! Coordinates are single-precision values held by their encodings. The only
//! operation on them is negation, which flips the sign bit.
use vstd::prelude::*;
use crate::layout::{Vec3Bits, ZERO_BITS, ONE_BITS, SIGN_BIT};

verus! {

/// A two-component vector of single-precision values, each held by its encoding.
#[derive(Clone, Copy, Debug, PartialEq, Eq, Structural)]
pub struct Vec2Bits {
    pub x: u32,
    pub y: u32,
}

/// A rectangle centred on the origin of screen space; a scale of (1, 1)
/// spans the whole viewport.
#[derive(Clone, Copy, Debug, PartialEq, Eq, Structural)]
pub struct ScreenSpaceQuad {
    pub scale: Vec2Bits,
}

/// The triangle mesh of a quad: vertex attributes and a triangle list.
pub struct QuadMesh {
    pub positions: Vec<Vec3Bits>,
    pub normals: Vec<Vec3Bits>,
    pub uvs: Vec<Vec2Bits>,
    pub indices: Vec<u32>,
}

/// The negation of an encoded value.
pub open spec fn negated(w: u32) -> u32 {
    w ^ SIGN_BIT
}

/// Whether an encoded value is greater than zero: sign bit clear, not zero,
/// not infinite or NaN.
pub open spec fn is_positive(w: u32) -> bool {
    0 < w < 0x7f80_0000
}

/// The corner of vertex `i` on the unit square, as a pair of signs.
pub open spec fn corner(i: int) -> (int, int) {
    if i == 0 {
        (-1, -1)
    } else if i == 1 {
        (-1, 1)
    } else if i == 2 {
        (1, -1)
    } else {
        (1, 1)
    }
}

/// The encoding of `sign * s`, for a sign of -1 or 1.
pub open spec fn signed(sign: int, s: u32) -> u32 {
    if sign < 0 {
        negated(s)
    } else {
        s
    }
}

/// The position of vertex `i` of a quad of the given scale.
pub open spec fn quad_position(scale: Vec2Bits, i: int) -> Vec3Bits {
    Vec3Bits { x: signed(corner(i).0, scale.x), y: signed(corner(i).1, scale.y), z: ZERO_BITS }
}

/// The texture coordinate of vertex `i`: its corner mapped onto the unit square.
pub open spec fn quad_uv(i: int) -> Vec2Bits {
    Vec2Bits {
        x: if corner(i).0 < 0 {
            ZERO_BITS
        } else {
            ONE_BITS
        },
        y: if corner(i).1 < 0 {
            ZERO_BITS
        } else {
            ONE_BITS
        },
    }
}

/// The triangle list: (0, 2, 1) and (2, 3, 1).
pub open spec fn quad_indices() -> Seq<u32> {
    seq![0u32, 2, 1, 2, 3, 1]
}

/// The normal of every vertex: +Z, towards the camera.
pub open spec fn quad_normal() -> Vec3Bits {
    Vec3Bits { x: ZERO_BITS, y: ZERO_BITS, z: ONE_BITS }
}

/// Whether `mesh` is the mesh of a quad of the given scale.
pub open spec fn is_quad_mesh(mesh: &QuadMesh, scale: Vec2Bits) -> bool {
    &&& mesh.positions@.len() == 4
    &&& mesh.normals@.len() == 4
    &&& mesh.uvs@.len() == 4
    &&& forall|i: int| 0 <= i < 4 ==> #[trigger] mesh.positions@[i] == quad_position(scale, i)
    &&& forall|i: int| 0 <= i < 4 ==> #[trigger] mesh.normals@[i] == quad_normal()
    &&& forall|i: int| 0 <= i < 4 ==> #[trigger] mesh.uvs@[i] == quad_uv(i)
    &&& mesh.indices@ == quad_indices()
}

/// Twice the signed area of the triangle of corners `a`, `b`, `c`.
pub open spec fn signed_area2(a: (int, int), b: (int, int), c: (int, int)) -> int {
    (b.0 - a.0) * (c.1 - a.1) - (b.1 - a.1) * (c.0 - a.0)
}

/// Whether `p` lies on the left of, or on, the edge from `n * a` to `n * b`.
pub open spec fn left_of(a: (int, int), b: (int, int), p: (int, int), n: int) -> bool {
    (b.0 - a.0) * (p.1 - n * a.1) - (b.1 - a.1) * (p.0 - n * a.0) >= 0
}

/// Whether `p` lies in the counter-clockwise triangle of corners `a`, `b`,
/// `c` of the square scaled by `n`.
pub open spec fn in_triangle(a: (int, int), b: (int, int), c: (int, int), p: (int, int), n: int) -> bool {
    left_of(a, b, p, n) && left_of(b, c, p, n) && left_of(c, a, p, n)
}

/// Whether triangle `t` of the index list contains `p`.
pub open spec fn triangle_contains(indices: Seq<u32>, t: int, p: (int, int), n: int) -> bool {
    in_triangle(
        corner(indices[3 * t] as int),
        corner(indices[3 * t + 1] as int),
        corner(indices[3 * t + 2] as int),
        p,
        n,
    )
}

/// Whether some triangle of the index list contains `p`.
pub open spec fn covered(indices: Seq<u32>, p: (int, int), n: int) -> bool {
    exists|t: int| 0 <= t < indices.len() / 3 && #[trigger] triangle_contains(indices, t, p, n)
}

impl ScreenSpaceQuad {
    pub fn new(scale: Vec2Bits) -> (r: ScreenSpaceQuad)
        ensures
            r.scale == scale,
    {
        ScreenSpaceQuad { scale }
    }

    /// Builds the quad's mesh.
    pub fn mesh(&self) -> (r: QuadMesh)
        ensures
            is_quad_mesh(&r, self.scale),
    {
        let sx = self.scale.x;
        let sy = self.scale.y;
        let nx = sx ^ SIGN_BIT;
        let ny = sy ^ SIGN_BIT;
        let positions: Vec<Vec3Bits> = vec![
            Vec3Bits::new(nx, ny, ZERO_BITS),
            Vec3Bits::new(nx, sy, ZERO_BITS),
            Vec3Bits::new(sx, ny, ZERO_BITS),
            Vec3Bits::new(sx, sy, ZERO_BITS),
        ];
        let normal = Vec3Bits::new(ZERO_BITS, ZERO_BITS, ONE_BITS);
        let normals: Vec<Vec3Bits> = vec![normal, normal, normal, normal];
        let uvs: Vec<Vec2Bits> = vec![
            Vec2Bits { x: ZERO_BITS, y: ZERO_BITS },
            Vec2Bits { x: ZERO_BITS, y: ONE_BITS },
            Vec2Bits { x: ONE_BITS, y: ZERO_BITS },
            Vec2Bits { x: ONE_BITS, y: ONE_BITS },
        ];
        let indices: Vec<u32> = vec![0, 2, 1, 2, 3, 1];
        let mesh = QuadMesh { positions, normals, uvs, indices };
        assert(mesh.indices@ =~= quad_indices());
        mesh
    }
}

impl Default for ScreenSpaceQuad {
    /// The quad that fills the viewport: scale (1, 1).
    fn default() -> (r: ScreenSpaceQuad)
        ensures
            r.scale == (Vec2Bits { x: ONE_BITS, y: ONE_BITS }),
    {
        ScreenSpaceQuad::new(Vec2Bits { x: ONE_BITS, y: ONE_BITS })
    }
}

/// The mesh of a quad with positive scale (sx, sy) has exactly four vertices,
/// at the rectangle's corners (±sx, ±sy, 0), and six indices forming exactly
/// two triangles. Both triangles wind counter-clockwise, so they face the
/// camera, and together they cover the rectangle: every point of
/// [-n, n] x [-n, n] lies in one of them.
pub proof fn lemma_quad_covers_rectangle(mesh: &QuadMesh, scale: Vec2Bits)
    requires
        is_quad_mesh(mesh, scale),
        is_positive(scale.x),
        is_positive(scale.y),
    ensures
        mesh.positions@.len() == 4,
        mesh.indices@.len() == 6,
        mesh.indices@.len() / 3 == 2,
        forall|k: int| 0 <= k < 6 ==> #[trigger] mesh.indices@[k] < 4,
        forall|i: int, j: int| 0 <= i < j < 4 ==> #[trigger] corner(i) != #[trigger] corner(j),
        forall|t: int|
            0 <= t < 2 ==> #[trigger] signed_area2(
                corner(mesh.indices@[3 * t] as int),
                corner(mesh.indices@[3 * t + 1] as int),
                corner(mesh.indices@[3 * t + 2] as int),
            ) > 0,
        forall|u: int, v: int, n: int|
            n > 0 && -n <= u <= n && -n <= v <= n ==> #[trigger] covered(mesh.indices@, (u, v), n),
{
    let idx = mesh.indices@;
    assert(idx[0] == 0 && idx[1] == 2 && idx[2] == 1 && idx[3] == 2 && idx[4] == 3 && idx[5] == 1);
    assert(corner(0) == (-1int, -1int) && corner(1) == (-1int, 1int));
    assert(corner(2) == (1int, -1int) && corner(3) == (1int, 1int));
    assert(signed_area2((-1, -1), (1, -1), (-1, 1)) == 4) by (nonlinear_arith);
    assert(signed_area2((1, -1), (1, 1), (-1, 1)) == 4) by (nonlinear_arith);
    assert forall|t: int| 0 <= t < 2 implies #[trigger] signed_area2(
        corner(idx[3 * t] as int),
        corner(idx[3 * t + 1] as int),
        corner(idx[3 * t + 2] as int),
    ) > 0 by {
        if t == 0 {
            assert(3 * t == 0);
        } else {
            assert(3 * t == 3);
        }
    }
    assert forall|u: int, v: int, n: int| n > 0 && -n <= u <= n && -n <= v <= n implies #[trigger] covered(
        idx,
        (u, v),
        n,
    ) by {
        if u + v <= 0 {
            assert(left_of((-1, -1), (1, -1), (u, v), n)) by (nonlinear_arith)
                requires
                    n > 0,
                    -n <= u <= n,
                    -n <= v <= n,
                    u + v <= 0,
            ;
            assert(left_of((1, -1), (-1, 1), (u, v), n)) by (nonlinear_arith)
                requires
                    n > 0,
                    -n <= u <= n,
                    -n <= v <= n,
                    u + v <= 0,
            ;
            assert(left_of((-1, 1), (-1, -1), (u, v), n)) by (nonlinear_arith)
                requires
                    n > 0,
                    -n <= u <= n,
                    -n <= v <= n,
                    u + v <= 0,
            ;
            assert(triangle_contains(idx, 0, (u, v), n));
        } else {
            assert(left_of((1, -1), (1, 1), (u, v), n)) by (nonlinear_arith)
                requires
                    n > 0,
                    -n <= u <= n,
                    -n <= v <= n,
                    u + v > 0,
            ;
            assert(left_of((1, 1), (-1, 1), (u, v), n)) by (nonlinear_arith)
                requires
                    n > 0,
                    -n <= u <= n,
                    -n <= v <= n,
                    u + v > 0,
            ;
            assert(left_of((-1, 1), (1, -1), (u, v), n)) by (nonlinear_arith)
                requires
                    n > 0,
                    -n <= u <= n,
                    -n <= v <= n,
                    u + v > 0,
            ;
            assert(triangle_contains(idx, 1, (u, v), n));
        }
    }
}

} // verus!
