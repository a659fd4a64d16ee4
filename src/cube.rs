use vstd::prelude::*;

use crate::lattice::{Lattice, LatticePoint};
use crate::tables::{
    edge_mask,
    edge_mask_spec,
    lemma_triangle_entries_valid,
    triangle_entry,
    triangle_entry_spec,
    CORNER_OFFSETS,
    EDGE_CORNERS,
};

verus! {

/// One emitted vertex: it lies on the lattice edge from `start` to `end`, where the
/// density changes sign, and carries the color of the more inside endpoint.
#[derive(Clone, Copy, Debug, PartialEq, Eq, Structural)]
pub struct EdgeVertex {
    pub start: LatticePoint,
    pub end: LatticePoint,
    pub color: u32,
}

/// Position of corner `c` of the unit cube whose lowest corner is `(x, y, z)`.
pub open spec fn corner_point(x: int, y: int, z: int, c: int) -> (int, int, int) {
    (
        x + CORNER_OFFSETS@[c]@[0] as int,
        y + CORNER_OFFSETS@[c]@[1] as int,
        z + CORNER_OFFSETS@[c]@[2] as int,
    )
}

pub open spec fn corner_density(l: Lattice, x: int, y: int, z: int, c: int) -> i32 {
    let p = corner_point(x, y, z, c);
    l.density_spec(p.0, p.1, p.2)
}

/// Whether corner `c` of the cube lies inside the solid (density below zero).
pub open spec fn corner_inside(l: Lattice, x: int, y: int, z: int, c: int) -> bool {
    corner_density(l, x, y, z, c) < 0
}

pub open spec fn corner_bit(l: Lattice, x: int, y: int, z: int, c: int) -> int {
    if corner_inside(l, x, y, z, c) {
        1
    } else {
        0
    }
}

/// The cube's configuration: bit `c` is set exactly when corner `c` lies inside.
pub open spec fn cube_config_spec(l: Lattice, x: int, y: int, z: int) -> int {
    corner_bit(l, x, y, z, 0) + 2 * corner_bit(l, x, y, z, 1)
        + 4 * corner_bit(l, x, y, z, 2) + 8 * corner_bit(l, x, y, z, 3)
        + 16 * corner_bit(l, x, y, z, 4) + 32 * corner_bit(l, x, y, z, 5)
        + 64 * corner_bit(l, x, y, z, 6) + 128 * corner_bit(l, x, y, z, 7)
}

/// A cube holds surface when its configuration is neither all outside nor all
/// inside and the edge table gives it crossed edges.
pub open spec fn cube_emits(l: Lattice, x: int, y: int, z: int) -> bool {
    let config = cube_config_spec(l, x, y, z);
    config != 0 && config != 255 && edge_mask_spec(config) != 0
}

/// The vertex that edge `e` of the cube yields: the edge's two lattice points and the
/// color of the endpoint of lower density (the second one where both are equal).
pub open spec fn edge_vertex_spec(l: Lattice, x: int, y: int, z: int, e: int) -> EdgeVertex {
    let a = corner_point(x, y, z, EDGE_CORNERS@[e]@[0] as int);
    let b = corner_point(x, y, z, EDGE_CORNERS@[e]@[1] as int);
    EdgeVertex {
        start: LatticePoint { x: a.0 as u32, y: a.1 as u32, z: a.2 as u32 },
        end: LatticePoint { x: b.0 as u32, y: b.1 as u32, z: b.2 as u32 },
        color: if l.density_spec(a.0, a.1, a.2) < l.density_spec(b.0, b.1, b.2) {
            l.color_spec(a.0, a.1, a.2)
        } else {
            l.color_spec(b.0, b.1, b.2)
        },
    }
}

/// A triangle is emitted only where all three of its edge indices are set.
pub open spec fn valid_edge(e: i8) -> bool {
    e >= 0
}

/// Vertices emitted by the triangle row of `config` from triangle `k` on: three per
/// triangle whose three edge indices are all set, until the row's sentinel.
pub open spec fn row_vertices(l: Lattice, x: int, y: int, z: int, config: int, k: int) -> Seq<
    EdgeVertex,
>
    decreases 5 - k,
{
    if k >= 5 || k < 0 {
        Seq::empty()
    } else {
        let e1 = triangle_entry_spec(config, 3 * k);
        let e2 = triangle_entry_spec(config, 3 * k + 1);
        let e3 = triangle_entry_spec(config, 3 * k + 2);
        if e1 == -1 {
            Seq::empty()
        } else if valid_edge(e1) && valid_edge(e2) && valid_edge(e3) {
            seq![
                edge_vertex_spec(l, x, y, z, e1 as int),
                edge_vertex_spec(l, x, y, z, e2 as int),
                edge_vertex_spec(l, x, y, z, e3 as int),
            ] + row_vertices(l, x, y, z, config, k + 1)
        } else {
            row_vertices(l, x, y, z, config, k + 1)
        }
    }
}

/// Number of triangles emitted by the triangle row of `config` from triangle `k` on.
pub open spec fn row_triangles(config: int, k: int) -> nat
    decreases 5 - k,
{
    if k >= 5 || k < 0 {
        0
    } else {
        let e1 = triangle_entry_spec(config, 3 * k);
        let e2 = triangle_entry_spec(config, 3 * k + 1);
        let e3 = triangle_entry_spec(config, 3 * k + 2);
        if e1 == -1 {
            0
        } else if valid_edge(e1) && valid_edge(e2) && valid_edge(e3) {
            1 + row_triangles(config, k + 1)
        } else {
            row_triangles(config, k + 1)
        }
    }
}

/// Vertices that the cube emits, in emission order.
pub open spec fn cube_vertices_spec(l: Lattice, x: int, y: int, z: int) -> Seq<EdgeVertex> {
    if cube_emits(l, x, y, z) {
        row_vertices(l, x, y, z, cube_config_spec(l, x, y, z), 0)
    } else {
        Seq::empty()
    }
}

/// Triangles that the cube emits.
pub open spec fn cube_triangles(l: Lattice, x: int, y: int, z: int) -> nat {
    if cube_emits(l, x, y, z) {
        row_triangles(cube_config_spec(l, x, y, z), 0)
    } else {
        0
    }
}

/// A row emits three vertices per triangle.
pub proof fn lemma_row_vertices_len(l: Lattice, x: int, y: int, z: int, config: int, k: int)
    ensures
        row_vertices(l, x, y, z, config, k).len() == 3 * row_triangles(config, k),
    decreases 5 - k,
{
    if k < 5 && k >= 0 {
        lemma_row_vertices_len(l, x, y, z, config, k + 1);
    }
}

/// A cube emits three vertices per triangle, at most five triangles.
pub proof fn lemma_cube_vertices_len(l: Lattice, x: int, y: int, z: int)
    ensures
        cube_vertices_spec(l, x, y, z).len() == 3 * cube_triangles(l, x, y, z),
        cube_triangles(l, x, y, z) <= 5,
{
    lemma_row_vertices_len(l, x, y, z, cube_config_spec(l, x, y, z), 0);
    lemma_row_triangles_bound(cube_config_spec(l, x, y, z), 0);
}

proof fn lemma_row_triangles_bound(config: int, k: int)
    requires
        0 <= k <= 5,
    ensures
        row_triangles(config, k) <= 5 - k,
    decreases 5 - k,
{
    if k < 5 {
        lemma_row_triangles_bound(config, k + 1);
    }
}

/// A cube whose eight corners all lie on one side of the surface has configuration
/// 0 or 255, and emits nothing.
pub proof fn lemma_uniform_cube_is_empty(l: Lattice, x: int, y: int, z: int)
    requires
        forall|c: int|
            0 <= c < 8 ==> #[trigger] corner_inside(l, x, y, z, c) == corner_inside(
                l,
                x,
                y,
                z,
                0,
            ),
    ensures
        cube_config_spec(l, x, y, z) == 0 || cube_config_spec(l, x, y, z) == 255,
        !cube_emits(l, x, y, z),
        cube_vertices_spec(l, x, y, z).len() == 0,
        cube_triangles(l, x, y, z) == 0,
{
    assert(corner_inside(l, x, y, z, 1) == corner_inside(l, x, y, z, 0));
    assert(corner_inside(l, x, y, z, 2) == corner_inside(l, x, y, z, 0));
    assert(corner_inside(l, x, y, z, 3) == corner_inside(l, x, y, z, 0));
    assert(corner_inside(l, x, y, z, 4) == corner_inside(l, x, y, z, 0));
    assert(corner_inside(l, x, y, z, 5) == corner_inside(l, x, y, z, 0));
    assert(corner_inside(l, x, y, z, 6) == corner_inside(l, x, y, z, 0));
    assert(corner_inside(l, x, y, z, 7) == corner_inside(l, x, y, z, 0));
}

fn corner_bit_of(l: &Lattice, x: u32, y: u32, z: u32, c: usize) -> (b: u32)
    requires
        l.wf(),
        c < 8,
    ensures
        b == corner_bit(*l, x as int, y as int, z as int, c as int),
{
    let off = CORNER_OFFSETS[c];
    let d = l.density_at(
        x as i64 + off[0] as i64,
        y as i64 + off[1] as i64,
        z as i64 + off[2] as i64,
    );
    if d < 0 {
        1
    } else {
        0
    }
}

/// Classifies the unit cube whose lowest corner is `(x, y, z)` by the signs of its
/// eight corner densities; corners outside the lattice read as solid.
pub fn cube_config(l: &Lattice, x: u32, y: u32, z: u32) -> (config: u8)
    requires
        l.wf(),
    ensures
        config == cube_config_spec(*l, x as int, y as int, z as int),
{
    let c = corner_bit_of(l, x, y, z, 0) + 2 * corner_bit_of(l, x, y, z, 1)
        + 4 * corner_bit_of(l, x, y, z, 2) + 8 * corner_bit_of(l, x, y, z, 3)
        + 16 * corner_bit_of(l, x, y, z, 4) + 32 * corner_bit_of(l, x, y, z, 5)
        + 64 * corner_bit_of(l, x, y, z, 6) + 128 * corner_bit_of(l, x, y, z, 7);
    c as u8
}

/// The vertex on edge `e` of the cube whose lowest corner is `(x, y, z)`.
pub fn edge_vertex(l: &Lattice, x: u32, y: u32, z: u32, e: usize) -> (v: EdgeVertex)
    requires
        l.wf(),
        e < 12,
        x < u32::MAX,
        y < u32::MAX,
        z < u32::MAX,
    ensures
        v == edge_vertex_spec(*l, x as int, y as int, z as int, e as int),
{
    let ends = EDGE_CORNERS[e];
    let oa = CORNER_OFFSETS[ends[0] as usize];
    let ob = CORNER_OFFSETS[ends[1] as usize];
    let a = LatticePoint { x: x + oa[0] as u32, y: y + oa[1] as u32, z: z + oa[2] as u32 };
    let b = LatticePoint { x: x + ob[0] as u32, y: y + ob[1] as u32, z: z + ob[2] as u32 };
    let da = l.density_at(a.x as i64, a.y as i64, a.z as i64);
    let db = l.density_at(b.x as i64, b.y as i64, b.z as i64);
    let color = if da < db {
        l.color_at(a.x as i64, a.y as i64, a.z as i64)
    } else {
        l.color_at(b.x as i64, b.y as i64, b.z as i64)
    };
    EdgeVertex { start: a, end: b, color }
}

/// Appends the vertices of triangle `k` of the row of `config`, where it is emitted,
/// and says whether the row goes on after it.
fn emit_triangle(
    l: &Lattice,
    x: u32,
    y: u32,
    z: u32,
    config: u8,
    k: usize,
    out: &mut Vec<EdgeVertex>,
) -> (more: bool)
    requires
        l.wf(),
        x < u32::MAX,
        y < u32::MAX,
        z < u32::MAX,
        k < 5,
    ensures
        more ==> old(out)@ + row_vertices(*l, x as int, y as int, z as int, config as int, k as int)
            == final(out)@ + row_vertices(*l, x as int, y as int, z as int, config as int, k + 1),
        !more ==> final(out)@ == old(out)@ && row_vertices(
            *l,
            x as int,
            y as int,
            z as int,
            config as int,
            k as int,
        ) == Seq::<EdgeVertex>::empty(),
{
    let e1 = triangle_entry(config, 3 * k);
    let e2 = triangle_entry(config, 3 * k + 1);
    let e3 = triangle_entry(config, 3 * k + 2);
    if e1 == -1 {
        return false;
    }
    if e1 >= 0 && e2 >= 0 && e3 >= 0 {
        proof {
            lemma_triangle_entries_valid();
            assert(e1 < 12 && e2 < 12 && e3 < 12);
        }
        let v1 = edge_vertex(l, x, y, z, e1 as usize);
        let v2 = edge_vertex(l, x, y, z, e2 as usize);
        let v3 = edge_vertex(l, x, y, z, e3 as usize);
        let ghost before = out@;
        let ghost rest = row_vertices(*l, x as int, y as int, z as int, config as int, k + 1);
        out.push(v1);
        out.push(v2);
        out.push(v3);
        assert(out@ == before + seq![v1, v2, v3]);
        assert(before + (seq![v1, v2, v3] + rest) =~= out@ + rest);
    }
    true
}

/// Appends the vertices that the cube whose lowest corner is `(x, y, z)` emits, and
/// says whether it holds surface.
pub fn extract_cube(l: &Lattice, x: u32, y: u32, z: u32, out: &mut Vec<EdgeVertex>) -> (emits:
    bool)
    requires
        l.wf(),
        x < u32::MAX,
        y < u32::MAX,
        z < u32::MAX,
    ensures
        emits == cube_emits(*l, x as int, y as int, z as int),
        final(out)@ == old(out)@ + cube_vertices_spec(*l, x as int, y as int, z as int),
{
    let config = cube_config(l, x, y, z);
    if config == 0 || config == 255 || edge_mask(config) == 0 {
        assert(old(out)@ + Seq::<EdgeVertex>::empty() =~= old(out)@);
        return false;
    }
    let ghost row = row_vertices(*l, x as int, y as int, z as int, config as int, 0);
    assert(old(out)@ + cube_vertices_spec(*l, x as int, y as int, z as int) == old(out)@ + row);
    let mut k: usize = 0;
    while k < 5
        invariant
            l.wf(),
            x < u32::MAX,
            y < u32::MAX,
            z < u32::MAX,
            0 <= k <= 5,
            old(out)@ + row == out@ + row_vertices(
                *l,
                x as int,
                y as int,
                z as int,
                config as int,
                k as int,
            ),
        ensures
            out@ == old(out)@ + row,
        decreases 5 - k,
    {
        let more = emit_triangle(l, x, y, z, config, k, out);
        if !more {
            assert(out@ + Seq::<EdgeVertex>::empty() =~= out@);
            break;
        }
        k = k + 1;
        if k == 5 {
            assert(out@ + row_vertices(*l, x as int, y as int, z as int, config as int, 5)
                =~= out@);
        }
    }
    true
}

} // verus!
