use vstd::prelude::*;

use crate::face::{neighbor_dir, FaceDir};
use crate::mesh::{
    cell_faces, column_faces, emits, faces_upto, indices_of, lemma_buffer_lengths, normals_of,
    packed_of, positions_of, row_faces, rows_faces, visible_faces, Face, TerrainMeshData,
};
use crate::terrain::TerrainView;

verus! {

/// Whether the mesher visits the cell `(x, y, z)`: it lies in the grid,
/// below the slice.
pub open spec fn visited(t: TerrainView, x: int, y: int, z: int) -> bool {
    0 <= x < t.size_x && 0 <= y < t.slice && 0 <= z < t.size_z
}

/// No filled cell of `t` but possibly `p` and `q`.
pub open spec fn filled_at_most(t: TerrainView, p: (int, int, int), q: (int, int, int)) -> bool {
    forall|x: int, y: int, z: int|
        #[trigger] t.cell(x, y, z).filled() ==> (x, y, z) == p || (x, y, z) == q
}

/// The number of faces that the cell `p` shows.
pub open spec fn face_count(t: TerrainView, p: (int, int, int)) -> int {
    cell_faces(t, p.0, p.1, p.2).len() as int
}

/// The position of `d` in the neighbour order.
pub open spec fn neighbor_index(d: FaceDir) -> int {
    match d {
        FaceDir::PosY => 0,
        FaceDir::NegZ => 1,
        FaceDir::PosX => 2,
        FaceDir::PosZ => 3,
        FaceDir::NegX => 4,
        FaceDir::NegY => 5,
    }
}

/// The direction opposite to `d`.
pub open spec fn opposite(d: FaceDir) -> FaceDir {
    match d {
        FaceDir::PosX => FaceDir::NegX,
        FaceDir::NegX => FaceDir::PosX,
        FaceDir::PosY => FaceDir::NegY,
        FaceDir::NegY => FaceDir::PosY,
        FaceDir::PosZ => FaceDir::NegZ,
        FaceDir::NegZ => FaceDir::PosZ,
    }
}

/// The cell next to `p` towards `d`.
pub open spec fn step_from(p: (int, int, int), d: FaceDir) -> (int, int, int) {
    (p.0 + d.step().0, p.1 + d.step().1, p.2 + d.step().2)
}

proof fn lemma_faces_upto_len(t: TerrainView, x: int, y: int, z: int, j: int, k: int)
    requires
        0 <= k <= 6,
        forall|i: int| 0 <= i < 6 && i != j ==> emits(t, x, y, z, i),
        0 <= j < 6 ==> !emits(t, x, y, z, j),
    ensures
        faces_upto(t, x, y, z, k).len() == k - (if 0 <= j < k {
            1int
        } else {
            0
        }),
    decreases k,
{
    if k > 0 {
        lemma_faces_upto_len(t, x, y, z, j, k - 1);
    }
}

proof fn lemma_column_count(
    t: TerrainView,
    p: (int, int, int),
    q: (int, int, int),
    x: int,
    z: int,
    n: int,
)
    requires
        p != q,
        filled_at_most(t, p, q),
    ensures
        column_faces(t, x, z, n).len() == (if p.0 == x && p.2 == z && 0 <= p.1 < n {
            face_count(t, p)
        } else {
            0
        }) + (if q.0 == x && q.2 == z && 0 <= q.1 < n {
            face_count(t, q)
        } else {
            0
        }),
    decreases n,
{
    if n > 0 {
        lemma_column_count(t, p, q, x, z, n - 1);
        if !t.cell(x, n - 1, z).filled() {
            assert(cell_faces(t, x, n - 1, z).len() == 0);
        }
    }
}

proof fn lemma_row_count(t: TerrainView, p: (int, int, int), q: (int, int, int), x: int, m: int)
    requires
        p != q,
        filled_at_most(t, p, q),
    ensures
        row_faces(t, x, m).len() == (if p.0 == x && 0 <= p.2 < m && 0 <= p.1 < t.slice {
            face_count(t, p)
        } else {
            0
        }) + (if q.0 == x && 0 <= q.2 < m && 0 <= q.1 < t.slice {
            face_count(t, q)
        } else {
            0
        }),
    decreases m,
{
    if m > 0 {
        lemma_row_count(t, p, q, x, m - 1);
        lemma_column_count(t, p, q, x, m - 1, t.slice);
    }
}

proof fn lemma_rows_count(t: TerrainView, p: (int, int, int), q: (int, int, int), k: int)
    requires
        p != q,
        filled_at_most(t, p, q),
    ensures
        rows_faces(t, k).len() == (if 0 <= p.0 < k && 0 <= p.2 < t.size_z && 0 <= p.1
            < t.slice {
            face_count(t, p)
        } else {
            0
        }) + (if 0 <= q.0 < k && 0 <= q.2 < t.size_z && 0 <= q.1 < t.slice {
            face_count(t, q)
        } else {
            0
        }),
    decreases k,
{
    if k > 0 {
        lemma_rows_count(t, p, q, k - 1);
        lemma_row_count(t, p, q, k - 1, t.size_z);
    }
}

/// The mesh has as many faces as the two cells `p` and `q` show together,
/// counting only those of them that are visited, when no other cell is
/// filled.
proof fn lemma_two_cells_count(t: TerrainView, p: (int, int, int), q: (int, int, int))
    requires
        p != q,
        filled_at_most(t, p, q),
    ensures
        visible_faces(t).len() == (if visited(t, p.0, p.1, p.2) {
            face_count(t.content(), p)
        } else {
            0
        }) + (if visited(t, q.0, q.1, q.2) {
            face_count(t.content(), q)
        } else {
            0
        }),
{
    let c = t.content();
    assert forall|x: int, y: int, z: int| #[trigger]
        c.cell(x, y, z).filled() implies (x, y, z) == p || (x, y, z) == q by {
        assert(c.cell(x, y, z) == t.cell(x, y, z));
    }
    lemma_rows_count(c, p, q, t.size_x);
}

/// A grid with no filled cell has an empty mesh.
pub proof fn lemma_empty_grid_empty_mesh(t: TerrainView)
    requires
        t.valid(),
        forall|x: int, y: int, z: int| !(#[trigger] t.cell(x, y, z).filled()),
    ensures
        visible_faces(t).len() == 0,
        positions_of(visible_faces(t)).len() == 0,
        normals_of(visible_faces(t)).len() == 0,
        packed_of(visible_faces(t)).len() == 0,
        indices_of(visible_faces(t)).len() == 0,
{
    lemma_two_cells_count(t, (-1, -1, -1), (-2, -2, -2));
    lemma_buffer_lengths(visible_faces(t));
}

/// A filled cell whose neighbours are all unfilled shows all six faces,
/// whatever the slice.
proof fn lemma_isolated_cell_faces(t: TerrainView, p: (int, int, int))
    requires
        t.cell(p.0, p.1, p.2).filled(),
        forall|i: int| 0 <= i < 6 ==> !(#[trigger] t.neighbor(p.0, p.1, p.2, neighbor_dir(i)).filled()),
    ensures
        face_count(t, p) == 6,
{
    assert forall|i: int| 0 <= i < 6 && i != -1 implies emits(t, p.0, p.1, p.2, i) by {
        assert(!t.neighbor(p.0, p.1, p.2, neighbor_dir(i)).filled());
    }
    lemma_faces_upto_len(t, p.0, p.1, p.2, -1, 6);
}

/// A single filled cell below the slice, with every other cell unfilled,
/// gives a mesh of six faces: 24 vertices and 36 indices.
pub proof fn lemma_single_cell_mesh(t: TerrainView, x: int, y: int, z: int)
    requires
        t.valid(),
        visited(t, x, y, z),
        t.cell(x, y, z).filled(),
        forall|a: int, b: int, c: int|
            (a, b, c) != (x, y, z) ==> !(#[trigger] t.cell(a, b, c).filled()),
    ensures
        visible_faces(t).len() == 6,
        positions_of(visible_faces(t)).len() == 24,
        normals_of(visible_faces(t)).len() == 24,
        packed_of(visible_faces(t)).len() == 24,
        indices_of(visible_faces(t)).len() == 36,
{
    let p = (x, y, z);
    let c = t.content();
    assert forall|i: int| 0 <= i < 6 implies !(#[trigger] c.neighbor(
        x,
        y,
        z,
        neighbor_dir(i),
    ).filled()) by {
        let s = step_from(p, neighbor_dir(i));
        assert(s != p);
        assert(c.cell(s.0, s.1, s.2) == t.cell(s.0, s.1, s.2));
        assert(!t.cell(s.0, s.1, s.2).filled());
    }
    lemma_isolated_cell_faces(c, p);
    lemma_two_cells_count(t, p, (-1, -1, -1));
    lemma_buffer_lengths(visible_faces(t));
}

/// A filled cell whose only filled neighbour lies towards `d`, and which is
/// not capped by the slice on that side, shows five faces.
proof fn lemma_five_faces(t: TerrainView, p: (int, int, int), d: FaceDir)
    requires
        t.cell(p.0, p.1, p.2).filled(),
        t.neighbor(p.0, p.1, p.2, d).filled(),
        d == FaceDir::PosY ==> p.1 != t.slice - 1,
        forall|i: int|
            0 <= i < 6 && neighbor_dir(i) != d ==> !(#[trigger] t.neighbor(
                p.0,
                p.1,
                p.2,
                neighbor_dir(i),
            ).filled()),
    ensures
        face_count(t, p) == 5,
{
    let j = neighbor_index(d);
    assert(neighbor_dir(j) == d);
    assert forall|i: int| 0 <= i < 6 && i != j implies emits(t, p.0, p.1, p.2, i) by {
        assert(neighbor_dir(i) != d);
        assert(!t.neighbor(p.0, p.1, p.2, neighbor_dir(i)).filled());
    }
    lemma_faces_upto_len(t, p.0, p.1, p.2, j, 6);
}

/// Two filled cells side by side below the slice, with every other cell
/// unfilled, give a mesh of ten faces: the face they share is shown by
/// neither.
pub proof fn lemma_adjacent_pair_mesh(t: TerrainView, x: int, y: int, z: int, d: FaceDir)
    requires
        t.valid(),
        visited(t, x, y, z),
        visited(t, x + d.step().0, y + d.step().1, z + d.step().2),
        t.cell(x, y, z).filled(),
        t.cell(x + d.step().0, y + d.step().1, z + d.step().2).filled(),
        forall|a: int, b: int, c: int|
            (a, b, c) != (x, y, z) && (a, b, c) != (x + d.step().0, y + d.step().1, z
                + d.step().2) ==> !(#[trigger] t.cell(a, b, c).filled()),
    ensures
        visible_faces(t).len() == 10,
        positions_of(visible_faces(t)).len() == 40,
        normals_of(visible_faces(t)).len() == 40,
        packed_of(visible_faces(t)).len() == 40,
        indices_of(visible_faces(t)).len() == 60,
{
    let p = (x, y, z);
    let q = step_from(p, d);
    let e = opposite(d);
    let c = t.content();
    assert(step_from(q, e) == p);
    assert forall|i: int|
        0 <= i < 6 && neighbor_dir(i) != d implies !(#[trigger] c.neighbor(
        p.0,
        p.1,
        p.2,
        neighbor_dir(i),
    ).filled()) by {
        let s = step_from(p, neighbor_dir(i));
        assert(s != p);
        assert(s != q);
        assert(c.cell(s.0, s.1, s.2) == t.cell(s.0, s.1, s.2));
        assert(!t.cell(s.0, s.1, s.2).filled());
    }
    assert forall|i: int|
        0 <= i < 6 && neighbor_dir(i) != e implies !(#[trigger] c.neighbor(
        q.0,
        q.1,
        q.2,
        neighbor_dir(i),
    ).filled()) by {
        let s = step_from(q, neighbor_dir(i));
        assert(s != p);
        assert(s != q);
        assert(c.cell(s.0, s.1, s.2) == t.cell(s.0, s.1, s.2));
        assert(!t.cell(s.0, s.1, s.2).filled());
    }
    lemma_five_faces(c, p, d);
    lemma_five_faces(c, q, e);
    lemma_two_cells_count(t, p, q);
    lemma_buffer_lengths(visible_faces(t));
}

proof fn lemma_concat_contains(a: Seq<Face>, b: Seq<Face>, f: Face)
    ensures
        (a + b).contains(f) <==> a.contains(f) || b.contains(f),
{
    if a.contains(f) {
        let i = choose|i: int| 0 <= i < a.len() && a[i] == f;
        assert((a + b)[i] == f);
    }
    if b.contains(f) {
        let i = choose|i: int| 0 <= i < b.len() && b[i] == f;
        assert((a + b)[a.len() + i] == f);
    }
    if (a + b).contains(f) {
        let i = choose|i: int| 0 <= i < (a + b).len() && (a + b)[i] == f;
        if i < a.len() {
            assert(a[i] == f);
        } else {
            assert(b[i - a.len()] == f);
        }
    }
}

proof fn lemma_faces_upto_contains(t: TerrainView, x: int, y: int, z: int, k: int, f: Face)
    requires
        0 <= k <= 6,
    ensures
        faces_upto(t, x, y, z, k).contains(f) <==> (f.x == x && f.y == y && f.z == z && f.block
            == t.cell(x, y, z) && neighbor_index(f.dir) < k && emits(
            t,
            x,
            y,
            z,
            neighbor_index(f.dir),
        )),
    decreases k,
{
    if k > 0 {
        lemma_faces_upto_contains(t, x, y, z, k - 1, f);
        let prev = faces_upto(t, x, y, z, k - 1);
        let g = Face { x, y, z, dir: neighbor_dir(k - 1), block: t.cell(x, y, z) };
        assert(neighbor_index(neighbor_dir(k - 1)) == k - 1);
        if emits(t, x, y, z, k - 1) {
            lemma_concat_contains(prev, seq![g], f);
            assert(prev.push(g) == prev + seq![g]);
            if f == g {
                assert(seq![g][0] == f);
            }
        }
    }
}

proof fn lemma_cell_faces_contains(t: TerrainView, x: int, y: int, z: int, f: Face)
    ensures
        cell_faces(t, x, y, z).contains(f) <==> (f.x == x && f.y == y && f.z == z
            && t.cell(x, y, z).filled() && f.block == t.cell(x, y, z) && emits(
            t,
            x,
            y,
            z,
            neighbor_index(f.dir),
        )),
{
    lemma_faces_upto_contains(t, x, y, z, 6, f);
}

proof fn lemma_column_contains(t: TerrainView, x: int, z: int, n: int, f: Face)
    ensures
        column_faces(t, x, z, n).contains(f) <==> (f.x == x && f.z == z && 0 <= f.y < n
            && cell_faces(t, x, f.y, z).contains(f)),
    decreases n,
{
    if n > 0 {
        lemma_column_contains(t, x, z, n - 1, f);
        lemma_concat_contains(column_faces(t, x, z, n - 1), cell_faces(t, x, n - 1, z), f);
        lemma_cell_faces_contains(t, x, n - 1, z, f);
        lemma_cell_faces_contains(t, x, f.y, z, f);
    }
}

proof fn lemma_row_contains(t: TerrainView, x: int, m: int, f: Face)
    ensures
        row_faces(t, x, m).contains(f) <==> (f.x == x && 0 <= f.z < m && 0 <= f.y < t.slice
            && cell_faces(t, x, f.y, f.z).contains(f)),
    decreases m,
{
    if m > 0 {
        lemma_row_contains(t, x, m - 1, f);
        lemma_concat_contains(row_faces(t, x, m - 1), column_faces(t, x, m - 1, t.slice), f);
        lemma_column_contains(t, x, m - 1, t.slice, f);
    }
}

proof fn lemma_rows_contains(t: TerrainView, k: int, f: Face)
    ensures
        rows_faces(t, k).contains(f) <==> (0 <= f.x < k && 0 <= f.z < t.size_z && 0 <= f.y
            < t.slice && cell_faces(t, f.x, f.y, f.z).contains(f)),
    decreases k,
{
    if k > 0 {
        lemma_rows_contains(t, k - 1, f);
        lemma_concat_contains(rows_faces(t, k - 1), row_faces(t, k - 1, t.size_z), f);
        lemma_row_contains(t, k - 1, t.size_z, f);
    }
}

/// A face is in the mesh exactly when its cell is visited and filled, it
/// carries the cell's block, and its side is exposed: the neighbour there
/// is unfilled, or it is the top of the last visible layer.
pub proof fn lemma_face_shown(t: TerrainView, f: Face)
    ensures
        visible_faces(t).contains(f) <==> (visited(t, f.x, f.y, f.z) && t.cell(
            f.x,
            f.y,
            f.z,
        ).filled() && f.block == t.cell(f.x, f.y, f.z) && emits(
            t,
            f.x,
            f.y,
            f.z,
            neighbor_index(f.dir),
        )),
{
    let c = t.content();
    lemma_rows_contains(c, t.size_x, f);
    lemma_cell_faces_contains(c, f.x, f.y, f.z, f);
    let d = neighbor_dir(neighbor_index(f.dir));
    let s = (f.x + d.step().0, f.y + d.step().1, f.z + d.step().2);
    assert(c.cell(s.0, s.1, s.2) == t.cell(s.0, s.1, s.2));
    assert(c.cell(f.x, f.y, f.z) == t.cell(f.x, f.y, f.z));
}

/// Lowering the slice to just above a filled cell caps it: its top face is
/// in the mesh even where the cell above is filled. With the same cells and
/// a higher slice, that face is there only if the cell above is unfilled.
pub proof fn lemma_slice_cap(low: TerrainView, high: TerrainView, x: int, y: int, z: int)
    requires
        low.cells == high.cells,
        low.size_x == high.size_x,
        low.size_y == high.size_y,
        low.size_z == high.size_z,
        0 <= x < low.size_x,
        0 <= z < low.size_z,
        0 <= y,
        low.slice == y + 1,
        high.slice > y + 1,
        low.cell(x, y, z).filled(),
    ensures
        visible_faces(low).contains(
            Face { x, y, z, dir: FaceDir::PosY, block: low.cell(x, y, z) },
        ),
        visible_faces(high).contains(
            Face { x, y, z, dir: FaceDir::PosY, block: high.cell(x, y, z) },
        ) <==> !high.cell(x, y + 1, z).filled(),
{
    lemma_face_shown(low, Face { x, y, z, dir: FaceDir::PosY, block: low.cell(x, y, z) });
    lemma_face_shown(high, Face { x, y, z, dir: FaceDir::PosY, block: high.cell(x, y, z) });
    assert(low.cell(x, y, z) == high.cell(x, y, z));
}

/// Two rebuilds of the same cells and slice give the same buffers, whatever
/// the dirty flag: the mesh depends on the content alone.
pub proof fn lemma_rebuild_deterministic(
    t1: TerrainView,
    t2: TerrainView,
    m1: TerrainMeshData,
    m2: TerrainMeshData,
)
    requires
        t1.same_content(t2),
        m1.holds(visible_faces(t1)),
        m2.holds(visible_faces(t2)),
    ensures
        m1.positions@ == m2.positions@,
        m1.normals@ == m2.normals@,
        m1.packed@ == m2.packed@,
        m1.indices@ == m2.indices@,
{
    assert(t1.content() == t2.content());
}

} // verus!
