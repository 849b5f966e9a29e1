use vstd::prelude::*;

use crate::block::Block;
use crate::face::{neighbor_dir, neighbor_dir_at, pack_block, packed, FaceDir};
use crate::terrain::{Terrain, TerrainView, MAX_VOXELS};

verus! {

/// One exposed unit face: the cell it covers, the way it points, and the
/// cell's block.
pub struct Face {
    pub x: int,
    pub y: int,
    pub z: int,
    pub dir: FaceDir,
    pub block: Block,
}

/// Whether the cell `(x, y, z)` shows its face towards its `i`-th neighbour:
/// when that neighbour is not filled, and always for the top face of the
/// last visible layer, which caps the cut.
pub open spec fn emits(t: TerrainView, x: int, y: int, z: int, i: int) -> bool {
    (i == 0 && y == t.slice - 1) || !t.neighbor(x, y, z, neighbor_dir(i)).filled()
}

/// The faces that the cell `(x, y, z)` shows towards its first `k`
/// neighbours, in neighbour order.
pub open spec fn faces_upto(t: TerrainView, x: int, y: int, z: int, k: int) -> Seq<Face>
    decreases k,
{
    if k <= 0 {
        Seq::empty()
    } else {
        let prev = faces_upto(t, x, y, z, k - 1);
        if emits(t, x, y, z, k - 1) {
            prev.push(Face { x, y, z, dir: neighbor_dir(k - 1), block: t.cell(x, y, z) })
        } else {
            prev
        }
    }
}

/// The faces that the cell `(x, y, z)` shows: none unless it is filled.
pub open spec fn cell_faces(t: TerrainView, x: int, y: int, z: int) -> Seq<Face> {
    if t.cell(x, y, z).filled() {
        faces_upto(t, x, y, z, 6)
    } else {
        Seq::empty()
    }
}

/// The faces of the cells `(x, 0..n, z)`.
pub open spec fn column_faces(t: TerrainView, x: int, z: int, n: int) -> Seq<Face>
    decreases n,
{
    if n <= 0 {
        Seq::empty()
    } else {
        column_faces(t, x, z, n - 1) + cell_faces(t, x, n - 1, z)
    }
}

/// The faces of the visible columns `(x, _, 0..m)`.
pub open spec fn row_faces(t: TerrainView, x: int, m: int) -> Seq<Face>
    decreases m,
{
    if m <= 0 {
        Seq::empty()
    } else {
        row_faces(t, x, m - 1) + column_faces(t, x, m - 1, t.slice)
    }
}

/// The faces of the visible rows `0..k`.
pub open spec fn rows_faces(t: TerrainView, k: int) -> Seq<Face>
    decreases k,
{
    if k <= 0 {
        Seq::empty()
    } else {
        rows_faces(t, k - 1) + row_faces(t, k - 1, t.size_z)
    }
}

/// Every face of the mesh of `t`, in the order the mesh holds them: x, then
/// z, then y up to the slice, then the neighbour order.
pub open spec fn visible_faces(t: TerrainView) -> Seq<Face> {
    rows_faces(t.content(), t.size_x)
}

/// The `k`-th vertex of `f`.
pub open spec fn vertex(f: Face, k: int) -> (u32, u32, u32) {
    let c = f.dir.corner(k);
    ((f.x + c.0) as u32, (f.y + c.1) as u32, (f.z + c.2) as u32)
}

/// The positions of a mesh made of `fs`: four per face.
pub open spec fn positions_of(fs: Seq<Face>) -> Seq<(u32, u32, u32)>
    decreases fs.len(),
{
    if fs.len() == 0 {
        Seq::empty()
    } else {
        let f = fs.last();
        positions_of(fs.drop_last()) + Seq::new(4, |k: int| vertex(f, k))
    }
}

/// The normals of a mesh made of `fs`: the face's normal at each vertex.
pub open spec fn normals_of(fs: Seq<Face>) -> Seq<(i32, i32, i32)>
    decreases fs.len(),
{
    if fs.len() == 0 {
        Seq::empty()
    } else {
        let f = fs.last();
        normals_of(fs.drop_last()) + Seq::new(4, |k: int| f.dir.normal())
    }
}

/// The packed attributes of a mesh made of `fs`.
pub open spec fn packed_of(fs: Seq<Face>) -> Seq<u32>
    decreases fs.len(),
{
    if fs.len() == 0 {
        Seq::empty()
    } else {
        let f = fs.last();
        packed_of(fs.drop_last()) + Seq::new(4, |k: int| packed(f.block.texture(), f.dir.code()))
    }
}

/// The triangle indices of a mesh made of `fs`: six per face, into the
/// face's own four vertices, wound by its direction.
pub open spec fn indices_of(fs: Seq<Face>) -> Seq<u32>
    decreases fs.len(),
{
    if fs.len() == 0 {
        Seq::empty()
    } else {
        let f = fs.last();
        let base = 4 * (fs.len() - 1);
        indices_of(fs.drop_last()) + Seq::new(6, |j: int| (base + f.dir.winding(j)) as u32)
    }
}

/// Each face adds four vertices and six indices.
pub proof fn lemma_buffer_lengths(fs: Seq<Face>)
    ensures
        positions_of(fs).len() == 4 * fs.len(),
        normals_of(fs).len() == 4 * fs.len(),
        packed_of(fs).len() == 4 * fs.len(),
        indices_of(fs).len() == 6 * fs.len(),
    decreases fs.len(),
{
    if fs.len() > 0 {
        lemma_buffer_lengths(fs.drop_last());
    }
}

/// The buffers of a triangle mesh: four parallel per-vertex buffers and a
/// triangle list of indices into them.
pub struct TerrainMeshData {
    pub positions: Vec<(u32, u32, u32)>,
    pub normals: Vec<(i32, i32, i32)>,
    pub indices: Vec<u32>,
    pub packed: Vec<u32>,
}

impl TerrainMeshData {
    /// The buffers are those of the faces `fs`, in that order.
    pub open spec fn holds(&self, fs: Seq<Face>) -> bool {
        &&& self.positions@ == positions_of(fs)
        &&& self.normals@ == normals_of(fs)
        &&& self.packed@ == packed_of(fs)
        &&& self.indices@ == indices_of(fs)
    }

    /// A mesh with no faces.
    pub fn new() -> (r: TerrainMeshData)
        ensures
            r.holds(Seq::empty()),
    {
        TerrainMeshData {
            positions: Vec::new(),
            normals: Vec::new(),
            indices: Vec::new(),
            packed: Vec::new(),
        }
    }
}

fn push_face(
    data: &mut TerrainMeshData,
    Ghost(fs): Ghost<Seq<Face>>,
    x: u16,
    y: u16,
    z: u16,
    dir: FaceDir,
    block: Block,
)
    requires
        old(data).holds(fs),
        4 * fs.len() + 4 <= u32::MAX,
    ensures
        final(data).holds(
            fs.push(Face { x: x as int, y: y as int, z: z as int, dir, block }),
        ),
{
    let ghost f = Face { x: x as int, y: y as int, z: z as int, dir, block };
    let ghost nfs = fs.push(f);
    proof {
        lemma_buffer_lengths(fs);
        assert(nfs.drop_last() =~= fs);
    }
    let base = data.positions.len() as u32;
    let normal = dir.normal_vector();
    let attr = pack_block(block, dir);
    let mut k: usize = 0;
    while k < 4
        invariant
            k <= 4,
            data.positions@ =~= positions_of(fs) + Seq::new(k as nat, |i: int| vertex(f, i)),
            data.normals@ =~= normals_of(fs) + Seq::new(k as nat, |i: int| dir.normal()),
            data.packed@ =~= packed_of(fs) + Seq::new(
                k as nat,
                |i: int| packed(block.texture(), dir.code()),
            ),
            data.indices@ == indices_of(fs),
            f == (Face { x: x as int, y: y as int, z: z as int, dir, block }),
            normal == dir.normal(),
            attr == packed(block.texture(), dir.code()),
        decreases 4 - k,
    {
        let c = dir.corner_offset(k);
        data.positions.push((x as u32 + c.0, y as u32 + c.1, z as u32 + c.2));
        data.normals.push(normal);
        data.packed.push(attr);
        k = k + 1;
    }
    let mut j: usize = 0;
    while j < 6
        invariant
            j <= 6,
            data.positions@ == positions_of(nfs),
            data.normals@ == normals_of(nfs),
            data.packed@ == packed_of(nfs),
            data.indices@ =~= indices_of(fs) + Seq::new(
                j as nat,
                |i: int| (base + dir.winding(i)) as u32,
            ),
            base == 4 * fs.len(),
            base + 4 <= u32::MAX,
        decreases 6 - j,
    {
        let w = dir.winding_index(j);
        data.indices.push(base + w);
        j = j + 1;
    }
}

/// Builds, from scratch, the mesh of every exposed face of the filled cells
/// below the slice.
pub fn mesh_terrain_simple(terrain: &Terrain) -> (r: TerrainMeshData)
    requires
        terrain@.valid(),
    ensures
        r.holds(visible_faces(terrain@)),
{
    let ghost t = terrain@.content();
    let sx = terrain.size_x();
    let sz = terrain.size_z();
    let slice = terrain.slice();
    let ghost layer: int = sz * slice;
    assert(sx * layer <= MAX_VOXELS) by (nonlinear_arith)
        requires
            layer == sz * slice,
            slice < t.size_y,
            1 <= sx,
            1 <= sz,
            t.size_x * t.size_y * t.size_z <= MAX_VOXELS,
            sx == t.size_x,
            sz == t.size_z,
    ;
    let mut data = TerrainMeshData::new();
    let ghost mut done: Seq<Face> = Seq::empty();
    let mut x: u16 = 0;
    while x < sx
        invariant
            t == terrain@.content(),
            t.valid(),
            sx == t.size_x,
            sz == t.size_z,
            slice == t.slice,
            layer == sz * slice,
            sx * layer <= MAX_VOXELS,
            x <= sx,
            done == rows_faces(t, x as int),
            data.holds(done),
            done.len() <= 6 * (x * layer),
        decreases sx - x,
    {
        let mut z: u16 = 0;
        while z < sz
            invariant
                t == terrain@.content(),
                t.valid(),
                sx == t.size_x,
                sz == t.size_z,
                slice == t.slice,
                layer == sz * slice,
                sx * layer <= MAX_VOXELS,
                x < sx,
                z <= sz,
                done == rows_faces(t, x as int) + row_faces(t, x as int, z as int),
                data.holds(done),
                done.len() <= 6 * (x * layer + z * slice),
            decreases sz - z,
        {
            let mut y: u16 = 0;
            while y < slice
                invariant
                    t == terrain@.content(),
                    t.valid(),
                    sx == t.size_x,
                    sz == t.size_z,
                    slice == t.slice,
                    layer == sz * slice,
                    sx * layer <= MAX_VOXELS,
                    x < sx,
                    z < sz,
                    y <= slice,
                    done == rows_faces(t, x as int) + row_faces(t, x as int, z as int)
                        + column_faces(t, x as int, z as int, y as int),
                    data.holds(done),
                    done.len() <= 6 * (x * layer + z * slice + y),
                decreases slice - y,
            {
                assert(x * layer + z * slice + y + 1 <= sx * layer) by (nonlinear_arith)
                    requires
                        x < sx,
                        z < sz,
                        y < slice,
                        layer == sz * slice,
                ;
                let ghost start = done;
                let block = terrain.get(x as i16, y as i16, z as i16);
                if block.is_filled() {
                    let neighbors = terrain.get_neighbors_immediate(x as i16, y as i16, z as i16);
                    let mut i: usize = 0;
                    while i < 6
                        invariant
                            t == terrain@.content(),
                            t.valid(),
                            slice == t.slice,
                            y < slice,
                            i <= 6,
                            block == t.cell(x as int, y as int, z as int),
                            forall|k: int|
                                0 <= k < 6 ==> #[trigger] neighbors@[k] == t.neighbor(
                                    x as int,
                                    y as int,
                                    z as int,
                                    neighbor_dir(k),
                                ),
                            done == start + faces_upto(t, x as int, y as int, z as int, i as int),
                            data.holds(done),
                            done.len() <= start.len() + i,
                            start.len() + 6 <= 6 * MAX_VOXELS,
                        decreases 6 - i,
                    {
                        let dir = neighbor_dir_at(i);
                        if (i == 0 && y == slice - 1) || !neighbors[i].is_filled() {
                            push_face(&mut data, Ghost(done), x, y, z, dir, block);
                            proof {
                                let f = Face {
                                    x: x as int,
                                    y: y as int,
                                    z: z as int,
                                    dir,
                                    block,
                                };
                                assert(start + faces_upto(t, x as int, y as int, z as int, i + 1)
                                    =~= done.push(f));
                                done = done.push(f);
                            }
                        }
                        i = i + 1;
                    }
                }
                proof {
                    let a = rows_faces(t, x as int);
                    let b = row_faces(t, x as int, z as int);
                    let c = column_faces(t, x as int, z as int, y as int);
                    let d = cell_faces(t, x as int, y as int, z as int);
                    assert(start + d =~= done);
                    assert(a + b + (c + d) =~= done);
                    assert(done.len() <= 6 * (x * layer + z * slice + y + 1));
                }
                y = y + 1;
            }
            proof {
                let a = rows_faces(t, x as int);
                let b = row_faces(t, x as int, z as int);
                let c = column_faces(t, x as int, z as int, slice as int);
                assert(a + (b + c) =~= done);
                assert(x * layer + z * slice + slice == x * layer + (z + 1) * slice)
                    by (nonlinear_arith);
            }
            z = z + 1;
        }
        proof {
            assert(x * layer + sz * slice == (x + 1) * layer) by (nonlinear_arith)
                requires
                    layer == sz * slice,
            ;
        }
        x = x + 1;
    }
    data
}

impl Terrain {
    /// Builds the mesh of the current content and clears the dirty flag.
    pub fn rebuild(&mut self) -> (r: TerrainMeshData)
        requires
            old(self)@.valid(),
        ensures
            final(self)@ == old(self)@.content(),
            r.holds(visible_faces(old(self)@)),
    {
        let r = mesh_terrain_simple(self);
        self.mark_clean();
        r
    }

    /// The host's per-tick check: a fresh mesh if the terrain is dirty,
    /// which it then no longer is; nothing otherwise. Any number of changes
    /// since the last rebuild lead to one rebuild.
    pub fn update(&mut self) -> (r: Option<TerrainMeshData>)
        requires
            old(self)@.valid(),
        ensures
            final(self)@ == old(self)@.content(),
            old(self)@.dirty ==> r is Some && r->0.holds(visible_faces(old(self)@)),
            !old(self)@.dirty ==> r is None,
    {
        if self.is_dirty() {
            Some(self.rebuild())
        } else {
            None
        }
    }
}

} // verus!
