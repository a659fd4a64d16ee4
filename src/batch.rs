use vstd::prelude::*;

use vstd::arithmetic::div_mod::{
    lemma_fundamental_div_mod,
    lemma_mod_pos_bound,
    lemma_multiply_divide_lt,
};

use crate::cube::{cube_vertices_spec, cube_emits, extract_cube, EdgeVertex};
use crate::lattice::{point_count, Lattice, MeshError};

verus! {

/// Edge length, in cubes, of the meshlets that a chunk is drawn in.
pub const MESHLET_EDGE: u32 = 8;

/// One indirect draw: `vertex_count` vertices from `first_vertex` on, one instance.
#[derive(Clone, Copy, Debug, PartialEq, Eq, Structural)]
pub struct Command {
    pub vertex_count: u32,
    pub instance_count: u32,
    pub first_vertex: u32,
    pub first_instance: u32,
}

/// The resolution is a positive multiple of the meshlet edge, and a meshlet's cubes
/// can be counted in 32 bits.
pub open spec fn valid_meshlet_edge(resolution: int, edge: int) -> bool {
    &&& edge > 0
    &&& resolution > 0
    &&& resolution % edge == 0
    &&& edge * edge * edge <= u32::MAX
}

/// Meshlets along one axis.
pub open spec fn groups(resolution: int, edge: int) -> int {
    resolution / edge
}

pub open spec fn meshlet_count(resolution: int, edge: int) -> int {
    groups(resolution, edge) * groups(resolution, edge) * groups(resolution, edge)
}

pub open spec fn cubes_per_meshlet(edge: int) -> int {
    edge * edge * edge
}

/// Lowest corner of cube `c` of meshlet `m`. Meshlets, and the cubes inside each,
/// are taken in lexicographic order: z outer, then y, x inner.
pub open spec fn meshlet_cube(resolution: int, edge: int, m: int, c: int) -> (int, int, int) {
    let g = groups(resolution, edge);
    (
        (m % g) * edge + c % edge,
        ((m / g) % g) * edge + (c / edge) % edge,
        (m / (g * g)) * edge + c / (edge * edge),
    )
}

/// Vertices emitted by the first `n` cubes of meshlet `m`.
pub open spec fn meshlet_vertices_upto(l: Lattice, edge: int, m: int, n: int) -> Seq<EdgeVertex>
    decreases n,
{
    if n <= 0 {
        Seq::empty()
    } else {
        let p = meshlet_cube(l.resolution as int, edge, m, n - 1);
        meshlet_vertices_upto(l, edge, m, n - 1) + cube_vertices_spec(l, p.0, p.1, p.2)
    }
}

/// Cubes holding surface among the first `n` cubes of meshlet `m`.
pub open spec fn meshlet_occupancy_upto(l: Lattice, edge: int, m: int, n: int) -> nat
    decreases n,
{
    if n <= 0 {
        0
    } else {
        let p = meshlet_cube(l.resolution as int, edge, m, n - 1);
        meshlet_occupancy_upto(l, edge, m, n - 1) + if cube_emits(l, p.0, p.1, p.2) {
            1nat
        } else {
            0nat
        }
    }
}

/// Triangles emitted by the first `n` cubes of meshlet `m`.
pub open spec fn meshlet_triangles_upto(l: Lattice, edge: int, m: int, n: int) -> nat
    decreases n,
{
    if n <= 0 {
        0
    } else {
        let p = meshlet_cube(l.resolution as int, edge, m, n - 1);
        meshlet_triangles_upto(l, edge, m, n - 1) + crate::cube::cube_triangles(l, p.0, p.1, p.2)
    }
}

pub open spec fn meshlet_vertices(l: Lattice, edge: int, m: int) -> Seq<EdgeVertex> {
    meshlet_vertices_upto(l, edge, m, cubes_per_meshlet(edge))
}

pub open spec fn meshlet_occupancy(l: Lattice, edge: int, m: int) -> nat {
    meshlet_occupancy_upto(l, edge, m, cubes_per_meshlet(edge))
}

pub open spec fn meshlet_triangles(l: Lattice, edge: int, m: int) -> nat {
    meshlet_triangles_upto(l, edge, m, cubes_per_meshlet(edge))
}

/// Vertices of the first `m` meshlets, one meshlet after the other.
pub open spec fn chunk_vertices_upto(l: Lattice, edge: int, m: int) -> Seq<EdgeVertex>
    decreases m,
{
    if m <= 0 {
        Seq::empty()
    } else {
        chunk_vertices_upto(l, edge, m - 1) + meshlet_vertices(l, edge, m - 1)
    }
}

/// All vertices of the chunk.
pub open spec fn chunk_vertices(l: Lattice, edge: int) -> Seq<EdgeVertex> {
    chunk_vertices_upto(l, edge, meshlet_count(l.resolution as int, edge))
}

/// The draw command of meshlet `m`: its vertices, placed after those of the meshlets
/// before it.
pub open spec fn expected_command(l: Lattice, edge: int, m: int) -> Command {
    Command {
        vertex_count: meshlet_vertices(l, edge, m).len() as u32,
        instance_count: 1,
        first_vertex: chunk_vertices_upto(l, edge, m).len() as u32,
        first_instance: 0,
    }
}

/// A chunk's surface, each vertex given as the lattice edge it lies on, with the
/// per-meshlet draw data.
pub struct EdgeMesh {
    pub vertices: Vec<EdgeVertex>,
    /// Per vertex, its material color.
    pub material_colors: Vec<u32>,
    /// Per vertex, its lit color; equal to the material color until lighting runs.
    pub colors: Vec<u32>,
    /// Per meshlet, its number of vertices.
    pub vertex_counts: Vec<u32>,
    /// Per meshlet, its number of cubes that hold surface.
    pub densities: Vec<u32>,
    /// Per meshlet, its draw command.
    pub commands: Vec<Command>,
}

impl EdgeMesh {
    /// The mesh is what extraction of lattice `l` with meshlet edge `edge` yields.
    pub open spec fn extracted_from(&self, l: Lattice, edge: int) -> bool {
        let n = meshlet_count(l.resolution as int, edge);
        &&& self.vertices@ == chunk_vertices(l, edge)
        &&& self.vertices@.len() <= u32::MAX
        &&& self.material_colors@.len() == self.vertices@.len()
        &&& forall|i: int|
            0 <= i < self.vertices@.len() ==> #[trigger] self.material_colors@[i]
                == self.vertices@[i].color
        &&& self.colors@ == self.material_colors@
        &&& self.vertex_counts@.len() == n
        &&& forall|m: int|
            0 <= m < n ==> #[trigger] self.vertex_counts@[m] == meshlet_vertices(
                l,
                edge,
                m,
            ).len()
        &&& self.densities@.len() == n
        &&& forall|m: int|
            0 <= m < n ==> #[trigger] self.densities@[m] == meshlet_occupancy(l, edge, m)
        &&& self.commands@.len() == n
        &&& forall|m: int|
            0 <= m < n ==> #[trigger] self.commands@[m] == expected_command(l, edge, m)
    }
}

/// Vertex runs only grow as meshlets are added.
pub proof fn lemma_chunk_vertices_grow(l: Lattice, edge: int, a: int, b: int)
    requires
        0 <= a <= b,
    ensures
        chunk_vertices_upto(l, edge, a).len() <= chunk_vertices_upto(l, edge, b).len(),
    decreases b,
{
    if a < b {
        lemma_chunk_vertices_grow(l, edge, a, b - 1);
    }
}

/// Sum of the first `m` entries.
pub open spec fn prefix_sum(s: Seq<u32>, m: int) -> int
    decreases m,
{
    if m <= 0 {
        0
    } else {
        prefix_sum(s, m - 1) + s[m - 1]
    }
}

proof fn lemma_meshlet_vertices_count(l: Lattice, edge: int, m: int, n: int)
    ensures
        meshlet_vertices_upto(l, edge, m, n).len() == 3 * meshlet_triangles_upto(l, edge, m, n),
    decreases n,
{
    if n > 0 {
        let p = meshlet_cube(l.resolution as int, edge, m, n - 1);
        lemma_meshlet_vertices_count(l, edge, m, n - 1);
        crate::cube::lemma_cube_vertices_len(l, p.0, p.1, p.2);
    }
}

proof fn lemma_chunk_vertices_prefix(mesh: &EdgeMesh, l: Lattice, edge: int, m: int)
    requires
        mesh.extracted_from(l, edge),
        0 <= m <= meshlet_count(l.resolution as int, edge),
    ensures
        chunk_vertices_upto(l, edge, m).len() == prefix_sum(mesh.vertex_counts@, m),
    decreases m,
{
    if m > 0 {
        lemma_chunk_vertices_prefix(mesh, l, edge, m - 1);
        lemma_chunk_vertices_grow(l, edge, m, meshlet_count(l.resolution as int, edge));
        assert(mesh.vertex_counts@[m - 1] == meshlet_vertices(l, edge, m - 1).len());
    }
}

/// Each meshlet's draw command counts three vertices per triangle that its cubes
/// emit, and the meshlets' vertex counts add up to the length of the vertex buffer.
pub proof fn lemma_vertex_conservation(mesh: &EdgeMesh, l: Lattice, edge: int)
    requires
        mesh.extracted_from(l, edge),
    ensures
        forall|m: int|
            0 <= m < mesh.commands@.len() ==> #[trigger] mesh.commands@[m].vertex_count == 3
                * meshlet_triangles(l, edge, m),
        prefix_sum(mesh.vertex_counts@, mesh.vertex_counts@.len() as int) == mesh.vertices@.len(),
{
    let n = meshlet_count(l.resolution as int, edge);
    assert forall|m: int| 0 <= m < mesh.commands@.len() implies #[trigger] mesh.commands@[m].vertex_count
        == 3 * meshlet_triangles(l, edge, m) by {
        lemma_meshlet_vertices_count(l, edge, m, cubes_per_meshlet(edge));
        lemma_chunk_vertices_grow(l, edge, m + 1, n);
    }
    lemma_chunk_vertices_prefix(mesh, l, edge, n);
}

/// Draw commands tile the vertex buffer in meshlet order: each starts at the sum of
/// the vertex counts before it, where the previous one ends, and the last one ends at
/// the end of the buffer.
pub proof fn lemma_command_offsets(mesh: &EdgeMesh, l: Lattice, edge: int)
    requires
        mesh.extracted_from(l, edge),
    ensures
        forall|m: int|
            0 <= m < mesh.commands@.len() ==> #[trigger] mesh.commands@[m].first_vertex
                == prefix_sum(mesh.vertex_counts@, m),
        forall|m: int|
            0 <= m < mesh.commands@.len() ==> #[trigger] mesh.commands@[m].vertex_count
                == mesh.vertex_counts@[m],
        forall|m: int|
            0 < m < mesh.commands@.len() ==> #[trigger] mesh.commands@[m].first_vertex
                == mesh.commands@[m - 1].first_vertex + mesh.commands@[m - 1].vertex_count,
        forall|a: int, b: int|
            0 <= a <= b < mesh.commands@.len() ==> #[trigger] mesh.commands@[a].first_vertex
                <= #[trigger] mesh.commands@[b].first_vertex,
        mesh.commands@.len() > 0 ==> mesh.commands@[mesh.commands@.len() - 1].first_vertex
            + mesh.commands@[mesh.commands@.len() - 1].vertex_count == mesh.vertices@.len(),
{
    let n = meshlet_count(l.resolution as int, edge);
    assert forall|m: int| 0 <= m < mesh.commands@.len() implies #[trigger] mesh.commands@[m].first_vertex
        == prefix_sum(mesh.vertex_counts@, m) && mesh.commands@[m].vertex_count
        == mesh.vertex_counts@[m] by {
        lemma_chunk_vertices_prefix(mesh, l, edge, m);
        lemma_chunk_vertices_grow(l, edge, m, n);
        lemma_chunk_vertices_grow(l, edge, m + 1, n);
    }
    assert forall|m: int| 0 < m < mesh.commands@.len() implies #[trigger] mesh.commands@[m].first_vertex
        == mesh.commands@[m - 1].first_vertex + mesh.commands@[m - 1].vertex_count by {
        assert(mesh.commands@[m - 1].first_vertex == prefix_sum(mesh.vertex_counts@, m - 1));
        assert(mesh.commands@[m - 1].vertex_count == mesh.vertex_counts@[m - 1]);
        assert(mesh.commands@[m].first_vertex == prefix_sum(mesh.vertex_counts@, m));
    }
    assert forall|a: int, b: int| 0 <= a <= b < mesh.commands@.len() implies #[trigger] mesh.commands@[a].first_vertex
        <= #[trigger] mesh.commands@[b].first_vertex by {
        lemma_chunk_vertices_grow(l, edge, a, b);
        lemma_chunk_vertices_grow(l, edge, b, n);
        assert(mesh.commands@[a] == expected_command(l, edge, a));
        assert(mesh.commands@[b] == expected_command(l, edge, b));
    }
    if n > 0 {
        lemma_chunk_vertices_prefix(mesh, l, edge, n);
        assert(mesh.commands@[n - 1].first_vertex == prefix_sum(mesh.vertex_counts@, n - 1));
        assert(mesh.commands@[n - 1].vertex_count == mesh.vertex_counts@[n - 1]);
    }
}

/// Two lattices hold the same samples.
pub open spec fn same_samples(l1: Lattice, l2: Lattice) -> bool {
    &&& l1.resolution == l2.resolution
    &&& l1.densities@ == l2.densities@
    &&& l1.colors@ == l2.colors@
}

proof fn lemma_rows_agree(l1: Lattice, l2: Lattice, x: int, y: int, z: int, config: int, k: int)
    requires
        same_samples(l1, l2),
    ensures
        crate::cube::row_vertices(l1, x, y, z, config, k) == crate::cube::row_vertices(
            l2,
            x,
            y,
            z,
            config,
            k,
        ),
    decreases 5 - k,
{
    if 0 <= k < 5 {
        lemma_rows_agree(l1, l2, x, y, z, config, k + 1);
    }
}

proof fn lemma_meshlets_agree(l1: Lattice, l2: Lattice, edge: int, m: int, n: int)
    requires
        same_samples(l1, l2),
    ensures
        meshlet_vertices_upto(l1, edge, m, n) == meshlet_vertices_upto(l2, edge, m, n),
        meshlet_occupancy_upto(l1, edge, m, n) == meshlet_occupancy_upto(l2, edge, m, n),
    decreases n,
{
    if n > 0 {
        let p = meshlet_cube(l1.resolution as int, edge, m, n - 1);
        lemma_meshlets_agree(l1, l2, edge, m, n - 1);
        assert(crate::cube::cube_config_spec(l1, p.0, p.1, p.2) == crate::cube::cube_config_spec(
            l2,
            p.0,
            p.1,
            p.2,
        ));
        lemma_rows_agree(l1, l2, p.0, p.1, p.2, crate::cube::cube_config_spec(l1, p.0, p.1, p.2), 0);
    }
}

proof fn lemma_chunks_agree(l1: Lattice, l2: Lattice, edge: int, m: int)
    requires
        same_samples(l1, l2),
    ensures
        chunk_vertices_upto(l1, edge, m) == chunk_vertices_upto(l2, edge, m),
    decreases m,
{
    if m > 0 {
        lemma_chunks_agree(l1, l2, edge, m - 1);
        lemma_meshlets_agree(l1, l2, edge, m - 1, cubes_per_meshlet(edge));
    }
}

/// Extraction is deterministic: lattices with the same samples, extracted with the
/// same meshlet edge, give meshes whose buffers are identical.
pub proof fn lemma_extraction_deterministic(
    l1: Lattice,
    l2: Lattice,
    edge: int,
    a: &EdgeMesh,
    b: &EdgeMesh,
)
    requires
        same_samples(l1, l2),
        a.extracted_from(l1, edge),
        b.extracted_from(l2, edge),
    ensures
        a.vertices@ == b.vertices@,
        a.material_colors@ == b.material_colors@,
        a.colors@ == b.colors@,
        a.vertex_counts@ == b.vertex_counts@,
        a.densities@ == b.densities@,
        a.commands@ == b.commands@,
{
    let n = meshlet_count(l1.resolution as int, edge);
    lemma_chunks_agree(l1, l2, edge, n);
    assert forall|m: int| 0 <= m < n implies meshlet_vertices(l1, edge, m) == meshlet_vertices(
        l2,
        edge,
        m,
    ) && meshlet_occupancy(l1, edge, m) == meshlet_occupancy(l2, edge, m)
        && chunk_vertices_upto(l1, edge, m) == chunk_vertices_upto(l2, edge, m) by {
        lemma_meshlets_agree(l1, l2, edge, m, cubes_per_meshlet(edge));
        lemma_chunks_agree(l1, l2, edge, m);
    }
    assert(a.material_colors@ =~= b.material_colors@);
    assert(a.vertex_counts@ =~= b.vertex_counts@);
    assert(a.densities@ =~= b.densities@);
    assert(a.commands@ =~= b.commands@);
}

proof fn lemma_outside_cube_is_empty(l: Lattice, x: int, y: int, z: int)
    requires
        l.wf(),
        forall|i: int| 0 <= i < l.densities@.len() ==> #[trigger] l.densities@[i] >= 0,
    ensures
        cube_vertices_spec(l, x, y, z) == Seq::<EdgeVertex>::empty(),
        !cube_emits(l, x, y, z),
{
    assert forall|c: int| 0 <= c < 8 implies !#[trigger] crate::cube::corner_inside(
        l,
        x,
        y,
        z,
        c,
    ) by {
        let p = crate::cube::corner_point(x, y, z, c);
        if crate::lattice::in_lattice(l.resolution as int, p.0, p.1, p.2) {
            crate::lattice::lemma_point_index_bounds(l.resolution as int, p.0, p.1, p.2);
        }
    }
    crate::cube::lemma_uniform_cube_is_empty(l, x, y, z);
}

proof fn lemma_outside_meshlet_is_empty(l: Lattice, edge: int, m: int, n: int)
    requires
        l.wf(),
        forall|i: int| 0 <= i < l.densities@.len() ==> #[trigger] l.densities@[i] >= 0,
    ensures
        meshlet_vertices_upto(l, edge, m, n) == Seq::<EdgeVertex>::empty(),
    decreases n,
{
    if n > 0 {
        let p = meshlet_cube(l.resolution as int, edge, m, n - 1);
        lemma_outside_meshlet_is_empty(l, edge, m, n - 1);
        lemma_outside_cube_is_empty(l, p.0, p.1, p.2);
        assert(Seq::<EdgeVertex>::empty() + Seq::<EdgeVertex>::empty() =~= Seq::<
            EdgeVertex,
        >::empty());
    }
}

proof fn lemma_outside_chunk_is_empty(l: Lattice, edge: int, m: int)
    requires
        l.wf(),
        forall|i: int| 0 <= i < l.densities@.len() ==> #[trigger] l.densities@[i] >= 0,
    ensures
        chunk_vertices_upto(l, edge, m) == Seq::<EdgeVertex>::empty(),
    decreases m,
{
    if m > 0 {
        lemma_outside_chunk_is_empty(l, edge, m - 1);
        lemma_outside_meshlet_is_empty(l, edge, m - 1, cubes_per_meshlet(edge));
        assert(Seq::<EdgeVertex>::empty() + Seq::<EdgeVertex>::empty() =~= Seq::<
            EdgeVertex,
        >::empty());
    }
}

/// A lattice with no density below zero, of any resolution, yields no vertices: every
/// meshlet's vertex count and draw command count zero.
pub proof fn lemma_all_outside_is_empty(l: Lattice, edge: int, mesh: &EdgeMesh)
    requires
        l.wf(),
        forall|i: int| 0 <= i < l.densities@.len() ==> #[trigger] l.densities@[i] >= 0,
        mesh.extracted_from(l, edge),
    ensures
        mesh.vertices@.len() == 0,
        forall|m: int| 0 <= m < mesh.vertex_counts@.len() ==> #[trigger] mesh.vertex_counts@[m] == 0,
        forall|m: int|
            0 <= m < mesh.commands@.len() ==> #[trigger] mesh.commands@[m].vertex_count == 0,
{
    lemma_outside_chunk_is_empty(l, edge, meshlet_count(l.resolution as int, edge));
    assert forall|m: int| 0 <= m < mesh.vertex_counts@.len() implies #[trigger] mesh.vertex_counts@[m]
        == 0 by {
        lemma_outside_meshlet_is_empty(l, edge, m, cubes_per_meshlet(edge));
    }
    assert forall|m: int| 0 <= m < mesh.commands@.len() implies #[trigger] mesh.commands@[m].vertex_count
        == 0 by {
        lemma_outside_meshlet_is_empty(l, edge, m, cubes_per_meshlet(edge));
    }
}

proof fn lemma_meshlet_layout(resolution: int, edge: int, g: int)
    requires
        edge > 0,
        resolution > 0,
        resolution % edge == 0,
        g == resolution / edge,
    ensures
        g * edge == resolution,
        0 < g <= resolution,
        g * g * g < point_count(resolution),
        g * g <= g * g * g,
{
    lemma_fundamental_div_mod(resolution, edge);
    assert(0 < g <= resolution) by (nonlinear_arith)
        requires
            edge * g == resolution,
            edge > 0,
            resolution > 0,
    ;
    assert(g * g * g < (resolution + 1) * (resolution + 1) * (resolution + 1) && g * g <= g * g
        * g) by (nonlinear_arith)
        requires
            0 < g <= resolution,
    ;
}

proof fn lemma_split_index(i: int, n: int)
    requires
        n > 0,
        0 <= i < n * n * n,
    ensures
        0 <= i % n < n,
        0 <= (i / n) % n < n,
        0 <= i / (n * n) < n,
{
    lemma_mod_pos_bound(i, n);
    assert(i / n >= 0) by (nonlinear_arith)
        requires
            i >= 0,
            n > 0,
    ;
    lemma_mod_pos_bound(i / n, n);
    assert(n * n > 0) by (nonlinear_arith)
        requires
            n > 0,
    ;
    assert(i < (n * n) * n) by (nonlinear_arith)
        requires
            i < n * n * n,
    ;
    lemma_multiply_divide_lt(i, n * n, n);
    assert(i / (n * n) >= 0) by (nonlinear_arith)
        requires
            i >= 0,
            n * n > 0,
    ;
}

proof fn lemma_cube_in_range(g: int, edge: int, gi: int, ci: int)
    requires
        edge > 0,
        0 <= gi < g,
        0 <= ci < edge,
    ensures
        0 <= gi * edge + ci < g * edge,
        gi * edge <= g * edge,
{
    assert(0 <= gi * edge + ci < g * edge && gi * edge <= g * edge) by (nonlinear_arith)
        requires
            edge > 0,
            0 <= gi < g,
            0 <= ci < edge,
    ;
}

/// Walks the chunk's meshlets in lexicographic order and, inside each, its cubes; each
/// cube adds the vertices of its triangles, and each meshlet its vertex count, its
/// count of cubes holding surface and a draw command placed after the vertices of the
/// meshlets before it.
pub fn extract_chunk(l: &Lattice, edge: u32) -> (r: Result<EdgeMesh, MeshError>)
    requires
        l.wf(),
    ensures
        !valid_meshlet_edge(l.resolution as int, edge as int) ==> r == Err::<EdgeMesh, MeshError>(
            MeshError::BadMeshletSize,
        ),
        valid_meshlet_edge(l.resolution as int, edge as int) && chunk_vertices(
            *l,
            edge as int,
        ).len() > u32::MAX ==> r == Err::<EdgeMesh, MeshError>(MeshError::TooManyVertices),
        r is Ok <==> valid_meshlet_edge(l.resolution as int, edge as int) && chunk_vertices(
            *l,
            edge as int,
        ).len() <= u32::MAX,
        r matches Ok(mesh) ==> mesh.extracted_from(*l, edge as int),
{
    let res = l.resolution;
    if edge == 0 || res == 0 || res % edge != 0 {
        return Err(MeshError::BadMeshletSize);
    }
    let e: u128 = edge as u128;
    assert(e * e <= 0x1_0000_0000 * 0x1_0000_0000 && e * e * e <= 0x1_0000_0000 * 0x1_0000_0000
        * 0x1_0000_0000) by (nonlinear_arith)
        requires
            0 < e <= 0x1_0000_0000,
    ;
    if e * e * e > 0xFFFF_FFFF {
        return Err(MeshError::BadMeshletSize);
    }
    let cubes: u32 = (e * e * e) as u32;
    assert(0 < edge as int * edge as int <= cubes as int) by (nonlinear_arith)
        requires
            cubes as int == edge as int * edge as int * edge as int,
            edge > 0,
    ;
    let g: u32 = res / edge;
    let points = l.densities.len();
    proof {
        lemma_meshlet_layout(res as int, edge as int, g as int);
    }
    let gs: usize = g as usize;
    let count: usize = gs * gs * gs;

    let mut vertices: Vec<EdgeVertex> = Vec::new();
    let mut material_colors: Vec<u32> = Vec::new();
    let mut colors: Vec<u32> = Vec::new();
    let mut vertex_counts: Vec<u32> = Vec::new();
    let mut densities: Vec<u32> = Vec::new();
    let mut commands: Vec<Command> = Vec::new();
    let ghost lv = *l;
    let ghost ed = edge as int;
    let mut m: usize = 0;
    while m < count
        invariant
            l.wf(),
            lv == *l,
            ed == edge as int,
            valid_meshlet_edge(res as int, ed),
            res == l.resolution,
            g as int == groups(res as int, ed),
            g as int * ed == res as int,
            gs == g,
            count as int == meshlet_count(res as int, ed),
            cubes as int == cubes_per_meshlet(ed),
            gs as int * gs as int <= count as int,
            0 < edge as int * edge as int <= cubes as int,
            0 <= m <= count,
            vertices@ == chunk_vertices_upto(lv, ed, m as int),
            vertices@.len() <= u32::MAX,
            material_colors@.len() == vertices@.len(),
            forall|i: int|
                0 <= i < vertices@.len() ==> #[trigger] material_colors@[i]
                    == vertices@[i].color,
            colors@ == material_colors@,
            vertex_counts@.len() == m,
            forall|j: int|
                0 <= j < m ==> #[trigger] vertex_counts@[j] == meshlet_vertices(lv, ed, j).len(),
            densities@.len() == m,
            forall|j: int|
                0 <= j < m ==> #[trigger] densities@[j] == meshlet_occupancy(lv, ed, j),
            commands@.len() == m,
            forall|j: int| 0 <= j < m ==> #[trigger] commands@[j] == expected_command(lv, ed, j),
        decreases count - m,
    {
        proof {
            lemma_split_index(m as int, g as int);
        }
        let gx: usize = m % gs;
        let gy: usize = (m / gs) % gs;
        let gz: usize = m / (gs * gs);
        proof {
            lemma_cube_in_range(g as int, ed, gx as int, 0);
            lemma_cube_in_range(g as int, ed, gy as int, 0);
            lemma_cube_in_range(g as int, ed, gz as int, 0);
        }
        let ox: u32 = gx as u32 * edge;
        let oy: u32 = gy as u32 * edge;
        let oz: u32 = gz as u32 * edge;

        let mut local: Vec<EdgeVertex> = Vec::new();
        let mut occupied: u32 = 0;
        let mut c: u32 = 0;
        while c < cubes
            invariant
                l.wf(),
                lv == *l,
                ed == edge as int,
                edge > 0,
                res == l.resolution,
                g as int == groups(res as int, ed),
                g as int * ed == res as int,
                cubes as int == cubes_per_meshlet(ed),
                0 < edge as int * edge as int <= cubes as int,
                0 <= gx < g,
                0 <= gy < g,
                0 <= gz < g,
                gx as int == (m as int) % (g as int),
                gy as int == ((m as int) / (g as int)) % (g as int),
                gz as int == (m as int) / ((g as int) * (g as int)),
                ox as int == gx as int * ed,
                oy as int == gy as int * ed,
                oz as int == gz as int * ed,
                0 <= c <= cubes,
                local@ == meshlet_vertices_upto(lv, ed, m as int, c as int),
                occupied as int == meshlet_occupancy_upto(lv, ed, m as int, c as int),
                occupied <= c,
            decreases cubes - c,
        {
            proof {
                lemma_split_index(c as int, ed);
            }
            let cx: u32 = c % edge;
            let cy: u32 = (c / edge) % edge;
            let cz: u32 = c / (edge * edge);
            proof {
                lemma_cube_in_range(g as int, ed, gx as int, cx as int);
                lemma_cube_in_range(g as int, ed, gy as int, cy as int);
                lemma_cube_in_range(g as int, ed, gz as int, cz as int);
            }
            let x: u32 = ox + cx;
            let y: u32 = oy + cy;
            let z: u32 = oz + cz;
            assert((x as int, y as int, z as int) == meshlet_cube(
                res as int,
                ed,
                m as int,
                c as int,
            ));
            if extract_cube(l, x, y, z, &mut local) {
                occupied = occupied + 1;
            }
            c = c + 1;
        }

        let first: usize = vertices.len();
        let run: usize = local.len();
        assert(chunk_vertices_upto(lv, ed, m as int + 1) == vertices@ + local@);
        if run as u64 > 0xFFFF_FFFF - first as u64 {
            proof {
                lemma_chunk_vertices_grow(lv, ed, m as int + 1, count as int);
            }
            return Err(MeshError::TooManyVertices);
        }
        let mut i: usize = 0;
        while i < run
            invariant
                0 <= i <= run,
                run == local@.len(),
                first == chunk_vertices_upto(lv, ed, m as int).len(),
                vertices@ == chunk_vertices_upto(lv, ed, m as int) + local@.subrange(0, i as int),
                material_colors@.len() == vertices@.len(),
                forall|k: int|
                    0 <= k < vertices@.len() ==> #[trigger] material_colors@[k]
                        == vertices@[k].color,
                colors@ == material_colors@,
            decreases run - i,
        {
            let v = local[i];
            vertices.push(v);
            material_colors.push(v.color);
            colors.push(v.color);
            assert(local@.subrange(0, i as int + 1) == local@.subrange(0, i as int).push(v));
            i = i + 1;
        }
        assert(local@.subrange(0, run as int) == local@);
        let cmd = Command {
            vertex_count: run as u32,
            instance_count: 1,
            first_vertex: first as u32,
            first_instance: 0,
        };
        vertex_counts.push(run as u32);
        densities.push(occupied);
        commands.push(cmd);
        m = m + 1;
    }
    Ok(EdgeMesh { vertices, material_colors, colors, vertex_counts, densities, commands })
}

} // verus!
