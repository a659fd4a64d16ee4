use vstd::prelude::*;

use vstd::arithmetic::div_mod::{lemma_fundamental_div_mod, lemma_mod_pos_bound, lemma_multiply_divide_lt};

verus! {

/// Density key of a point outside the lattice: the key of `1.0`, solid.
pub const OUTSIDE_DENSITY: i32 = 0x3F80_0000;

/// Color of a point outside the lattice: neutral gray.
pub const OUTSIDE_COLOR: u32 = 0x8080_80FF;

/// A point of the lattice, in lattice coordinates.
#[derive(Clone, Copy, Debug, PartialEq, Eq, Structural)]
pub struct LatticePoint {
    pub x: u32,
    pub y: u32,
    pub z: u32,
}

/// World-space edge length of a chunk at full detail.
pub const CHUNK_SIZE: u32 = 256;

/// Errors reported for malformed requests.
#[derive(Clone, Copy, Debug, PartialEq, Eq, Structural)]
pub enum MeshError {
    /// The number of lattice points does not fit in memory indexes.
    LatticeTooLarge,
    /// A sample buffer does not hold one entry per lattice point.
    SampleCountMismatch,
    /// The resolution is not a positive multiple of the meshlet edge length.
    BadMeshletSize,
    /// The chunk holds more vertices than a draw command can count.
    TooManyVertices,
}

/// Points along one axis of a lattice of the given resolution.
pub open spec fn side(resolution: int) -> int {
    resolution + 1
}

/// Number of points of a lattice of the given resolution.
pub open spec fn point_count(resolution: int) -> int {
    side(resolution) * side(resolution) * side(resolution)
}

pub open spec fn in_lattice(resolution: int, x: int, y: int, z: int) -> bool {
    0 <= x <= resolution && 0 <= y <= resolution && 0 <= z <= resolution
}

/// Position of a lattice point in the flat sample order: z outer, then y, then x.
pub open spec fn point_index(resolution: int, x: int, y: int, z: int) -> int {
    z * side(resolution) * side(resolution) + y * side(resolution) + x
}

/// Every point of the lattice has its own place in the flat order.
pub proof fn lemma_point_index_bounds(resolution: int, x: int, y: int, z: int)
    requires
        resolution >= 0,
        in_lattice(resolution, x, y, z),
    ensures
        0 <= point_index(resolution, x, y, z) < point_count(resolution),
        0 <= z * side(resolution) * side(resolution) <= point_index(resolution, x, y, z),
        0 <= y * side(resolution) <= point_index(resolution, x, y, z),
        0 <= z * side(resolution) <= z * side(resolution) * side(resolution),
        side(resolution) <= point_count(resolution),
{
    let s = side(resolution);
    assert(0 <= z * s * s + y * s + x < s * s * s) by (nonlinear_arith)
        requires
            0 <= x < s,
            0 <= y < s,
            0 <= z < s,
    ;
    assert(0 <= z * s * s && 0 <= y * s && 0 <= z * s <= z * s * s && s <= s * s * s)
        by (nonlinear_arith)
        requires
            0 <= y,
            0 <= z,
            1 <= s,
    ;
}

/// The density and color samples of one chunk, one per lattice point in the flat order.
///
/// A density is held as an ordered integer key: a key is negative exactly when the
/// density is below zero, and keys order as the densities do.
pub struct Lattice {
    pub resolution: u32,
    pub densities: Vec<i32>,
    pub colors: Vec<u32>,
}

impl Lattice {
    pub open spec fn wf(&self) -> bool {
        &&& self.densities@.len() == point_count(self.resolution as int)
        &&& self.colors@.len() == point_count(self.resolution as int)
    }

    /// Density key at a lattice point, or the solid sentinel outside the lattice.
    pub open spec fn density_spec(&self, x: int, y: int, z: int) -> i32 {
        if in_lattice(self.resolution as int, x, y, z) {
            self.densities@[point_index(self.resolution as int, x, y, z)]
        } else {
            OUTSIDE_DENSITY
        }
    }

    /// Color at a lattice point, or neutral gray outside the lattice.
    pub open spec fn color_spec(&self, x: int, y: int, z: int) -> u32 {
        if in_lattice(self.resolution as int, x, y, z) {
            self.colors@[point_index(self.resolution as int, x, y, z)]
        } else {
            OUTSIDE_COLOR
        }
    }

    /// Builds a lattice from samples listed in the flat order.
    pub fn new(resolution: u32, densities: Vec<i32>, colors: Vec<u32>) -> (r: Result<
        Lattice,
        MeshError,
    >)
        ensures
            point_count(resolution as int) > usize::MAX ==> r == Err::<Lattice, MeshError>(
                MeshError::LatticeTooLarge,
            ),
            point_count(resolution as int) <= usize::MAX && (densities@.len() != point_count(
                resolution as int,
            ) || colors@.len() != point_count(resolution as int)) ==> r == Err::<
                Lattice,
                MeshError,
            >(MeshError::SampleCountMismatch),
            r is Ok <==> point_count(resolution as int) <= usize::MAX && densities@.len()
                == point_count(resolution as int) && colors@.len() == point_count(
                resolution as int,
            ),
            r matches Ok(l) ==> l.wf() && l.resolution == resolution && l.densities@
                == densities@ && l.colors@ == colors@,
    {
        match lattice_points(resolution) {
            None => Err(MeshError::LatticeTooLarge),
            Some(n) => {
                if densities.len() != n || colors.len() != n {
                    Err(MeshError::SampleCountMismatch)
                } else {
                    Ok(Lattice { resolution, densities, colors })
                }
            },
        }
    }

    /// Flat index of a lattice point, or `None` where the point lies outside.
    pub fn index_of(&self, x: i64, y: i64, z: i64) -> (r: Option<usize>)
        requires
            self.wf(),
        ensures
            r is Some <==> in_lattice(self.resolution as int, x as int, y as int, z as int),
            r matches Some(i) ==> i == point_index(
                self.resolution as int,
                x as int,
                y as int,
                z as int,
            ) && i < self.densities@.len(),
    {
        let r = self.resolution as i64;
        if x < 0 || y < 0 || z < 0 || x > r || y > r || z > r {
            return None;
        }
        let n = self.densities.len();
        proof {
            lemma_point_index_bounds(r as int, x as int, y as int, z as int);
        }
        let s = self.resolution as usize + 1;
        let zi = z as usize * s * s;
        let yi = y as usize * s;
        Some(zi + yi + x as usize)
    }

    /// Density key at a point; points outside the lattice read as solid.
    pub fn density_at(&self, x: i64, y: i64, z: i64) -> (d: i32)
        requires
            self.wf(),
        ensures
            d == self.density_spec(x as int, y as int, z as int),
    {
        match self.index_of(x, y, z) {
            Some(i) => self.densities[i],
            None => OUTSIDE_DENSITY,
        }
    }

    /// Color at a point; points outside the lattice read as neutral gray.
    pub fn color_at(&self, x: i64, y: i64, z: i64) -> (c: u32)
        requires
            self.wf(),
        ensures
            c == self.color_spec(x as int, y as int, z as int),
    {
        match self.index_of(x, y, z) {
            Some(i) => self.colors[i],
            None => OUTSIDE_COLOR,
        }
    }
}

/// Number of points of a lattice of the given resolution, where it fits in `usize`.
pub fn lattice_points(resolution: u32) -> (r: Option<usize>)
    ensures
        r is Some <==> point_count(resolution as int) <= usize::MAX,
        r matches Some(n) ==> n == point_count(resolution as int),
{
    let s: u128 = resolution as u128 + 1;
    assert(s * s <= 0x1_0000_0000 * 0x1_0000_0000 && s * s * s <= 0x1_0000_0000
        * 0x1_0000_0000 * 0x1_0000_0000) by (nonlinear_arith)
        requires
            0 < s <= 0x1_0000_0000,
    ;
    let n: u128 = s * s * s;
    if n > usize::MAX as u128 {
        None
    } else {
        Some(n as usize)
    }
}

/// The lattice point at position `index` of the flat order.
pub fn point_at(resolution: u32, index: usize) -> (p: LatticePoint)
    requires
        index < point_count(resolution as int),
    ensures
        in_lattice(resolution as int, p.x as int, p.y as int, p.z as int),
        point_index(resolution as int, p.x as int, p.y as int, p.z as int) == index,
{
    let s: u128 = resolution as u128 + 1;
    let i: u128 = index as u128;
    proof {
        let si = s as int;
        lemma_mod_pos_bound(i as int, si);
        lemma_fundamental_div_mod(i as int, si);
        assert(i as int / si >= 0) by (nonlinear_arith)
            requires
                i >= 0,
                si > 0,
        ;
        lemma_mod_pos_bound(i as int / si, si);
        lemma_fundamental_div_mod(i as int / si, si);
        assert(i < (si * si) * si) by (nonlinear_arith)
            requires
                i < si * si * si,
        ;
        assert(si * si > 0) by (nonlinear_arith)
            requires
                si > 0,
        ;
        lemma_multiply_divide_lt(i as int, si * si, si);
        assert((i as int / si) / si == i as int / (si * si)) by {
            vstd::arithmetic::div_mod::lemma_div_denominator(i as int, si, si);
        }
        assert(si * si <= 0x1_0000_0000 * 0x1_0000_0000) by (nonlinear_arith)
            requires
                0 < si <= 0x1_0000_0000,
        ;
        assert(i as int == (i as int / (si * si)) * si * si + ((i as int / si) % si) * si + i as int
            % si) by (nonlinear_arith)
            requires
                i as int == si * (i as int / si) + i as int % si,
                i as int / si == si * ((i as int / si) / si) + (i as int / si) % si,
                (i as int / si) / si == i as int / (si * si),
        ;
    }
    let x: u128 = i % s;
    let y: u128 = (i / s) % s;
    let z: u128 = i / (s * s);
    LatticePoint { x: x as u32, y: y as u32, z: z as u32 }
}

/// World position of a chunk's lowest lattice point: the chunk's coordinates times
/// its resolution.
pub fn chunk_origin(chunk_x: i32, chunk_y: i32, chunk_z: i32, resolution: u32) -> (o: (
    i64,
    i64,
    i64,
))
    ensures
        o.0 == chunk_x * resolution,
        o.1 == chunk_y * resolution,
        o.2 == chunk_z * resolution,
{
    proof {
        assert(-0x8000_0000 * 0xFFFF_FFFF <= chunk_x * resolution <= 0x7FFF_FFFF * 0xFFFF_FFFF
            && -0x8000_0000 * 0xFFFF_FFFF <= chunk_y * resolution <= 0x7FFF_FFFF * 0xFFFF_FFFF
            && -0x8000_0000 * 0xFFFF_FFFF <= chunk_z * resolution <= 0x7FFF_FFFF * 0xFFFF_FFFF)
            by (nonlinear_arith)
            requires
                -0x8000_0000 <= chunk_x <= 0x7FFF_FFFF,
                -0x8000_0000 <= chunk_y <= 0x7FFF_FFFF,
                -0x8000_0000 <= chunk_z <= 0x7FFF_FFFF,
                0 <= resolution <= 0xFFFF_FFFF,
        ;
    }
    let r = resolution as i64;
    (chunk_x as i64 * r, chunk_y as i64 * r, chunk_z as i64 * r)
}

/// Resolution of a chunk at a level of detail: the full-detail size divided by one
/// more than the level.
pub fn lod_resolution(lod: u32) -> (r: u32)
    ensures
        r as int == CHUNK_SIZE as int / (lod as int + 1),
{
    (CHUNK_SIZE as u64 / (lod as u64 + 1)) as u32
}

} // verus!
