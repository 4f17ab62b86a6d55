use vstd::prelude::*;
use crate::atlas::AtlasCell;
use crate::face::Face;

verus! {

/// A vector of three small integers.
///
/// Corner positions are given in units of half the voxel's edge, so every
/// component of a corner is `-1` or `1`; normals are signed unit axes.
#[derive(Clone, Copy, PartialEq, Eq, Structural, Hash, Debug)]
pub struct IVec3 {
    pub x: i8,
    pub y: i8,
    pub z: i8,
}

/// A grid point of the atlas, in units of one cell.
///
/// The texture coordinate it stands for is `column / columns` across and
/// `row / rows` down, where `columns` and `rows` are the atlas dimensions.
#[derive(Clone, Copy, PartialEq, Eq, Structural, Hash, Debug)]
pub struct UvCorner {
    pub column: u16,
    pub row: u16,
}

/// One corner of a face quad.
#[derive(Clone, Copy, PartialEq, Eq, Structural, Hash, Debug)]
pub struct Vertex {
    pub position: IVec3,
    pub normal: IVec3,
    pub uv: UvCorner,
}

/// The renderable description of one voxel face: four corners, their
/// normals and texture corners, and the order in which a triangle strip
/// walks them.
#[derive(Clone, PartialEq, Eq, Debug)]
pub struct VoxelFaceMesh {
    pub face: Face,
    pub positions: Vec<IVec3>,
    pub normals: Vec<IVec3>,
    pub uvs: Vec<UvCorner>,
    pub indices: Vec<u32>,
}

pub open spec fn ivec3(x: int, y: int, z: int) -> IVec3 {
    IVec3 { x: x as i8, y: y as i8, z: z as i8 }
}

/// The components of `v` as unbounded integers.
pub open spec fn components(v: IVec3) -> (int, int, int) {
    (v.x as int, v.y as int, v.z as int)
}

/// Cross product of `a` and `b`.
pub open spec fn cross(a: (int, int, int), b: (int, int, int)) -> (int, int, int) {
    (a.1 * b.2 - a.2 * b.1, a.2 * b.0 - a.0 * b.2, a.0 * b.1 - a.1 * b.0)
}

/// Scalar product of `a` and `b`.
pub open spec fn dot(a: (int, int, int), b: (int, int, int)) -> int {
    a.0 * b.0 + a.1 * b.1 + a.2 * b.2
}

/// The vector from `a` to `b`.
pub open spec fn edge(a: IVec3, b: IVec3) -> (int, int, int) {
    (b.x - a.x, b.y - a.y, b.z - a.z)
}

/// One component is `1` or `-1` and the other two are `0`.
pub open spec fn is_signed_unit_axis(v: IVec3) -> bool {
    ||| (v.x == 1 || v.x == -1) && v.y == 0 && v.z == 0
    ||| v.x == 0 && (v.y == 1 || v.y == -1) && v.z == 0
    ||| v.x == 0 && v.y == 0 && (v.z == 1 || v.z == -1)
}

/// Every component is `1` or `-1`.
pub open spec fn is_cube_corner(v: IVec3) -> bool {
    &&& v.x == 1 || v.x == -1
    &&& v.y == 1 || v.y == -1
    &&& v.z == 1 || v.z == -1
}

/// The corner `p` lies on the side of the cube that `axis` points to: where
/// `axis` is not zero, `p` has the same component.
pub open spec fn lies_towards(p: IVec3, axis: IVec3) -> bool {
    &&& axis.x != 0 ==> p.x == axis.x
    &&& axis.y != 0 ==> p.y == axis.y
    &&& axis.z != 0 ==> p.z == axis.z
}

/// The outward normal of `face`.
pub open spec fn face_normal(face: Face) -> IVec3 {
    match face {
        Face::Front => ivec3(0, 0, 1),
        Face::Back => ivec3(0, 0, -1),
        Face::Right => ivec3(1, 0, 0),
        Face::Left => ivec3(-1, 0, 0),
        Face::Top => ivec3(0, 1, 0),
        Face::Bottom => ivec3(0, -1, 0),
    }
}

/// The direction in which the texture's top edge lies on `face`.
pub open spec fn face_up(face: Face) -> IVec3 {
    match face {
        Face::Front | Face::Back | Face::Right | Face::Left => ivec3(0, 1, 0),
        Face::Top => ivec3(0, 0, -1),
        Face::Bottom => ivec3(0, 0, 1),
    }
}

/// The direction in which the texture's right edge lies on `face`.
pub open spec fn face_right(face: Face) -> IVec3 {
    match face {
        Face::Front | Face::Top | Face::Bottom => ivec3(1, 0, 0),
        Face::Back => ivec3(-1, 0, 0),
        Face::Right => ivec3(0, 0, -1),
        Face::Left => ivec3(0, 0, 1),
    }
}

pub open spec fn top_left(cell: AtlasCell) -> UvCorner {
    UvCorner { column: cell.column as u16, row: cell.row as u16 }
}

pub open spec fn top_right(cell: AtlasCell) -> UvCorner {
    UvCorner { column: (cell.column + 1) as u16, row: cell.row as u16 }
}

pub open spec fn bottom_left(cell: AtlasCell) -> UvCorner {
    UvCorner { column: cell.column as u16, row: (cell.row + 1) as u16 }
}

pub open spec fn bottom_right(cell: AtlasCell) -> UvCorner {
    UvCorner { column: (cell.column + 1) as u16, row: (cell.row + 1) as u16 }
}

pub open spec fn vertex(x: int, y: int, z: int, normal: IVec3, uv: UvCorner) -> Vertex {
    Vertex { position: ivec3(x, y, z), normal, uv }
}

/// The four corners of `face`, textured with `cell`, in strip order.
///
/// The order is fixed face by face: together with the normal it decides
/// which side of each triangle faces outward.
pub open spec fn face_vertices(face: Face, cell: AtlasCell) -> Seq<Vertex> {
    let n = face_normal(face);
    let tl = top_left(cell);
    let tr = top_right(cell);
    let bl = bottom_left(cell);
    let br = bottom_right(cell);
    match face {
        Face::Front => seq![
            vertex(-1, -1, 1, n, bl),
            vertex(1, -1, 1, n, br),
            vertex(-1, 1, 1, n, tl),
            vertex(1, 1, 1, n, tr),
        ],
        Face::Back => seq![
            vertex(-1, 1, -1, n, tr),
            vertex(1, 1, -1, n, tl),
            vertex(-1, -1, -1, n, br),
            vertex(1, -1, -1, n, bl),
        ],
        Face::Right => seq![
            vertex(1, -1, -1, n, br),
            vertex(1, 1, -1, n, tr),
            vertex(1, -1, 1, n, bl),
            vertex(1, 1, 1, n, tl),
        ],
        Face::Left => seq![
            vertex(-1, -1, 1, n, br),
            vertex(-1, 1, 1, n, tr),
            vertex(-1, -1, -1, n, bl),
            vertex(-1, 1, -1, n, tl),
        ],
        Face::Top => seq![
            vertex(1, 1, -1, n, tr),
            vertex(-1, 1, -1, n, tl),
            vertex(1, 1, 1, n, br),
            vertex(-1, 1, 1, n, bl),
        ],
        Face::Bottom => seq![
            vertex(1, -1, 1, n, tr),
            vertex(-1, -1, 1, n, tl),
            vertex(1, -1, -1, n, br),
            vertex(-1, -1, -1, n, bl),
        ],
    }
}

/// The index buffer of every face: the four corners in the order given,
/// read as a triangle strip (triangles 0-1-2 and 1-2-3).
pub open spec fn strip_indices() -> Seq<u32> {
    seq![0u32, 1u32, 2u32, 3u32]
}

/// The mesh of `face` textured with `cell`.
pub open spec fn face_mesh(face: Face, cell: AtlasCell) -> VoxelFaceMeshView {
    let vertices = face_vertices(face, cell);
    VoxelFaceMeshView {
        face,
        positions: vertices.map_values(|v: Vertex| v.position),
        normals: vertices.map_values(|v: Vertex| v.normal),
        uvs: vertices.map_values(|v: Vertex| v.uv),
        indices: strip_indices(),
    }
}

/// What a [`VoxelFaceMesh`] holds, as mathematical sequences.
pub struct VoxelFaceMeshView {
    pub face: Face,
    pub positions: Seq<IVec3>,
    pub normals: Seq<IVec3>,
    pub uvs: Seq<UvCorner>,
    pub indices: Seq<u32>,
}

impl View for VoxelFaceMesh {
    type V = VoxelFaceMeshView;

    open spec fn view(&self) -> VoxelFaceMeshView {
        VoxelFaceMeshView {
            face: self.face,
            positions: self.positions@,
            normals: self.normals@,
            uvs: self.uvs@,
            indices: self.indices@,
        }
    }
}

/// The outward normal of `face`.
pub fn normal_of(face: Face) -> (normal: IVec3)
    ensures
        normal == face_normal(face),
{
    match face {
        Face::Front => IVec3 { x: 0, y: 0, z: 1 },
        Face::Back => IVec3 { x: 0, y: 0, z: -1 },
        Face::Right => IVec3 { x: 1, y: 0, z: 0 },
        Face::Left => IVec3 { x: -1, y: 0, z: 0 },
        Face::Top => IVec3 { x: 0, y: 1, z: 0 },
        Face::Bottom => IVec3 { x: 0, y: -1, z: 0 },
    }
}

fn corner(x: i8, y: i8, z: i8, normal: IVec3, uv: UvCorner) -> (v: Vertex)
    ensures
        v == vertex(x as int, y as int, z as int, normal, uv),
{
    Vertex { position: IVec3 { x, y, z }, normal, uv }
}

/// The four corners of `face`, textured with `cell`, in strip order.
pub fn vertices_of(face: Face, cell: AtlasCell) -> (vertices: [Vertex; 4])
    ensures
        vertices@ == face_vertices(face, cell),
{
    let column: u16 = cell.column as u16;
    let row: u16 = cell.row as u16;
    let tl = UvCorner { column, row };
    let tr = UvCorner { column: column + 1, row };
    let bl = UvCorner { column, row: row + 1 };
    let br = UvCorner { column: column + 1, row: row + 1 };
    let n = normal_of(face);
    let vertices = match face {
        Face::Front => [
            corner(-1, -1, 1, n, bl),
            corner(1, -1, 1, n, br),
            corner(-1, 1, 1, n, tl),
            corner(1, 1, 1, n, tr),
        ],
        Face::Back => [
            corner(-1, 1, -1, n, tr),
            corner(1, 1, -1, n, tl),
            corner(-1, -1, -1, n, br),
            corner(1, -1, -1, n, bl),
        ],
        Face::Right => [
            corner(1, -1, -1, n, br),
            corner(1, 1, -1, n, tr),
            corner(1, -1, 1, n, bl),
            corner(1, 1, 1, n, tl),
        ],
        Face::Left => [
            corner(-1, -1, 1, n, br),
            corner(-1, 1, 1, n, tr),
            corner(-1, -1, -1, n, bl),
            corner(-1, 1, -1, n, tl),
        ],
        Face::Top => [
            corner(1, 1, -1, n, tr),
            corner(-1, 1, -1, n, tl),
            corner(1, 1, 1, n, br),
            corner(-1, 1, 1, n, bl),
        ],
        Face::Bottom => [
            corner(1, -1, 1, n, tr),
            corner(-1, -1, 1, n, tl),
            corner(1, -1, -1, n, br),
            corner(-1, -1, -1, n, bl),
        ],
    };
    vertices
}

/// Splits a list of vertices into its three attribute lists, each in the
/// order of the vertices.
pub fn destructure_vertices(vertices: &[Vertex]) -> (attributes: (
    Vec<IVec3>,
    Vec<IVec3>,
    Vec<UvCorner>,
))
    ensures
        attributes.0@ == vertices@.map_values(|v: Vertex| v.position),
        attributes.1@ == vertices@.map_values(|v: Vertex| v.normal),
        attributes.2@ == vertices@.map_values(|v: Vertex| v.uv),
{
    let capacity: usize = vertices.len();
    let mut positions: Vec<IVec3> = Vec::with_capacity(capacity);
    let mut normals: Vec<IVec3> = Vec::with_capacity(capacity);
    let mut uvs: Vec<UvCorner> = Vec::with_capacity(capacity);
    let mut i: usize = 0;
    while i < capacity
        invariant
            capacity == vertices@.len(),
            i <= capacity,
            positions@ == vertices@.take(i as int).map_values(|v: Vertex| v.position),
            normals@ == vertices@.take(i as int).map_values(|v: Vertex| v.normal),
            uvs@ == vertices@.take(i as int).map_values(|v: Vertex| v.uv),
        decreases capacity - i,
    {
        let v = vertices[i];
        positions.push(v.position);
        normals.push(v.normal);
        uvs.push(v.uv);
        i += 1;
    }
    (positions, normals, uvs)
}

/// Builds the mesh of one voxel face.
///
/// `texture_coordinates` is the atlas cell that the face shows. Positions
/// come out in units of half the voxel's edge and texture corners in units
/// of one atlas cell; the index buffer is always `[0, 1, 2, 3]`.
pub fn create_voxel_face(face: Face, texture_coordinates: AtlasCell) -> (mesh: VoxelFaceMesh)
    ensures
        mesh@ == face_mesh(face, texture_coordinates),
        mesh.indices@ == strip_indices(),
        mesh.positions@.len() == 4,
        mesh.normals@.len() == 4,
        mesh.uvs@.len() == 4,
        forall|i: int| 0 <= i < 4 ==> mesh.normals@[i] == face_normal(face),
{
    let vertices = vertices_of(face, texture_coordinates);
    let (positions, normals, uvs) = destructure_vertices(vertices.as_slice());
    let mut indices: Vec<u32> = Vec::with_capacity(4);
    indices.push(0);
    indices.push(1);
    indices.push(2);
    indices.push(3);
    assert(indices@ =~= strip_indices());
    VoxelFaceMesh { face, positions, normals, uvs, indices }
}

/// Every face has four corners, one normal shared by all of them, four
/// texture corners and the strip order `0, 1, 2, 3`.
pub proof fn lemma_face_mesh_shape(face: Face, cell: AtlasCell)
    ensures
        face_vertices(face, cell).len() == 4,
        face_mesh(face, cell).positions.len() == 4,
        face_mesh(face, cell).normals.len() == 4,
        face_mesh(face, cell).uvs.len() == 4,
        forall|i: int| 0 <= i < 4 ==> face_mesh(face, cell).normals[i] == face_normal(face),
        forall|i: int|
            0 <= i < 4 ==> (#[trigger] face_vertices(face, cell)[i]).normal == face_normal(face),
        face_mesh(face, cell).indices =~= seq![0u32, 1u32, 2u32, 3u32],
{
}

/// The six normals are the six signed unit axes, each used by exactly one
/// face.
pub proof fn lemma_normals_are_the_signed_axes()
    ensures
        forall|face: Face| is_signed_unit_axis(#[trigger] face_normal(face)),
        forall|a: Face, b: Face| face_normal(a) == face_normal(b) ==> a == b,
        forall|v: IVec3|
            is_signed_unit_axis(v) ==> exists|face: Face| #[trigger] face_normal(face) == v,
{
    assert forall|v: IVec3| is_signed_unit_axis(v) implies exists|face: Face| #[trigger]
        face_normal(face) == v by {
        if v.z == 1 {
            assert(face_normal(Face::Front) == v);
        } else if v.z == -1 {
            assert(face_normal(Face::Back) == v);
        } else if v.x == 1 {
            assert(face_normal(Face::Right) == v);
        } else if v.x == -1 {
            assert(face_normal(Face::Left) == v);
        } else if v.y == 1 {
            assert(face_normal(Face::Top) == v);
        } else {
            assert(face_normal(Face::Bottom) == v);
        }
    }
}

/// `uv` is one of the four corners of `cell`: for the cell in column `c`
/// and row `r` these are `(c, r)`, `(c + 1, r)`, `(c, r + 1)` and
/// `(c + 1, r + 1)`.
pub open spec fn is_corner_of(uv: UvCorner, cell: AtlasCell) -> bool {
    &&& uv.column == cell.column || uv.column == cell.column + 1
    &&& uv.row == cell.row || uv.row == cell.row + 1
}

/// The texture corners of a face are the four corners of its atlas cell,
/// each used by exactly one vertex.
pub proof fn lemma_uvs_are_the_cell_corners(face: Face, cell: AtlasCell)
    ensures
        forall|i: int|
            0 <= i < 4 ==> is_corner_of((#[trigger] face_vertices(face, cell)[i]).uv, cell),
        forall|i: int, j: int|
            0 <= i < j < 4 ==> (#[trigger] face_vertices(face, cell)[i]).uv != (
            #[trigger] face_vertices(face, cell)[j]).uv,
        forall|uv: UvCorner| #[trigger]
            is_corner_of(uv, cell) ==> exists|i: int|
                0 <= i < 4 && (#[trigger] face_vertices(face, cell)[i]).uv == uv,
        is_corner_of(top_left(cell), cell),
        is_corner_of(top_right(cell), cell),
        is_corner_of(bottom_left(cell), cell),
        is_corner_of(bottom_right(cell), cell),
{
    let vs = face_vertices(face, cell);
    assert forall|uv: UvCorner| #[trigger] is_corner_of(uv, cell) implies exists|i: int|
        0 <= i < 4 && (#[trigger] face_vertices(face, cell)[i]).uv == uv by {
        if vs[0].uv == uv {
        } else if vs[1].uv == uv {
        } else if vs[2].uv == uv {
        } else {
        }
    }
}

/// Every corner of a face is a corner of the cube and lies in the face's
/// plane: its component along the normal is that of the normal. The four
/// corners of a face are distinct.
pub proof fn lemma_corners_lie_on_the_face(face: Face, cell: AtlasCell)
    ensures
        forall|i: int|
            0 <= i < 4 ==> {
                let p = (#[trigger] face_vertices(face, cell)[i]).position;
                is_cube_corner(p) && lies_towards(p, face_normal(face))
            },
        forall|i: int, j: int|
            0 <= i < j < 4 ==> (#[trigger] face_vertices(face, cell)[i]).position != (
            #[trigger] face_vertices(face, cell)[j]).position,
{
}

/// The front face lies in the plane `z = 1` and the back face in the plane
/// `z = -1`, in units of half the voxel's edge; on both, `x` and `y` are `1`
/// or `-1`.
pub proof fn lemma_front_and_back_planes(cell: AtlasCell)
    ensures
        forall|i: int|
            0 <= i < 4 ==> {
                let p = (#[trigger] face_vertices(Face::Front, cell)[i]).position;
                p.z == 1 && (p.x == 1 || p.x == -1) && (p.y == 1 || p.y == -1)
            },
        forall|i: int|
            0 <= i < 4 ==> {
                let p = (#[trigger] face_vertices(Face::Back, cell)[i]).position;
                p.z == -1 && (p.x == 1 || p.x == -1) && (p.y == 1 || p.y == -1)
            },
{
}

/// How the triangle `a`, `b`, `c` turns for an observer who looks against
/// `normal`: positive if counter-clockwise, negative if clockwise.
#[verifier::opaque]
pub open spec fn turning(a: IVec3, b: IVec3, c: IVec3, normal: IVec3) -> int {
    dot(cross(edge(a, b), edge(a, c)), components(normal))
}

/// Seen from outside the voxel, the first triangle of every strip
/// (corners 0, 1, 2) turns counter-clockwise and the second (corners 1, 2, 3)
/// clockwise, as a triangle strip expects of front-facing triangles.
pub proof fn lemma_strip_faces_outward(face: Face, cell: AtlasCell)
    ensures
        ({
            let v = face_vertices(face, cell);
            let n = face_normal(face);
            &&& turning(v[0].position, v[1].position, v[2].position, n) > 0
            &&& turning(v[1].position, v[2].position, v[3].position, n) < 0
        }),
{
    let v = face_vertices(face, cell);
    let n = face_normal(face);
    let (p0, p1, p2, p3) = (v[0].position, v[1].position, v[2].position, v[3].position);
    lemma_turning_expands(p0, p1, p2, n);
    lemma_turning_expands(p1, p2, p3, n);
}

/// `x * y` for a factor `x` between `-2` and `2`, written without a product
/// of two unknowns.
spec fn scaled(x: int, y: int) -> int {
    if x == 0 {
        0
    } else if x == 1 {
        y
    } else if x == -1 {
        -y
    } else if x == 2 {
        2 * y
    } else {
        -2 * y
    }
}

proof fn lemma_scaled_is_product(x: int, y: int)
    requires
        -2 <= x <= 2,
    ensures
        x * y == scaled(x, y),
        y * x == scaled(x, y),
{
    assert(x == 0 ==> x * y == 0 && y * x == 0) by (nonlinear_arith);
    assert(x == 1 ==> x * y == y && y * x == y) by (nonlinear_arith);
    assert(x == -1 ==> x * y == -y && y * x == -y) by (nonlinear_arith);
    assert(x == 2 ==> x * y == 2 * y && y * x == 2 * y) by (nonlinear_arith);
    assert(x == -2 ==> x * y == -2 * y && y * x == -2 * y) by (nonlinear_arith);
}

/// For three corners of the cube and a signed unit axis, every product in
/// `turning` has a factor between `-2` and `2`, so that its value follows by
/// linear arithmetic.
proof fn lemma_turning_expands(a: IVec3, b: IVec3, c: IVec3, normal: IVec3)
    requires
        is_cube_corner(a),
        is_cube_corner(b),
        is_cube_corner(c),
        is_signed_unit_axis(normal),
    ensures
        ({
            let e = edge(a, b);
            let f = edge(a, c);
            let n = components(normal);
            turning(a, b, c, normal) == scaled(n.0, scaled(e.1, f.2) - scaled(e.2, f.1)) + scaled(
                n.1,
                scaled(e.2, f.0) - scaled(e.0, f.2),
            ) + scaled(n.2, scaled(e.0, f.1) - scaled(e.1, f.0))
        }),
{
    reveal(turning);
    let e = edge(a, b);
    let f = edge(a, c);
    let n = components(normal);
    let k = cross(e, f);
    lemma_scaled_is_product(e.1, f.2);
    lemma_scaled_is_product(e.2, f.1);
    lemma_scaled_is_product(e.2, f.0);
    lemma_scaled_is_product(e.0, f.2);
    lemma_scaled_is_product(e.0, f.1);
    lemma_scaled_is_product(e.1, f.0);
    lemma_scaled_is_product(n.0, k.0);
    lemma_scaled_is_product(n.1, k.1);
    lemma_scaled_is_product(n.2, k.2);
}

/// Seen from outside the voxel with `face_up` pointing up, the texture is
/// upright and not mirrored: `face_right` points to the right of an observer
/// who looks against the normal, a corner shows the cell's right edge exactly
/// if it lies towards `face_right`, and the cell's top edge exactly if it
/// lies towards `face_up`.
pub proof fn lemma_texture_is_upright(face: Face, cell: AtlasCell)
    ensures
        is_signed_unit_axis(face_up(face)),
        is_signed_unit_axis(face_right(face)),
        ({
            let n = components(face_normal(face));
            components(face_right(face)) == cross((-n.0, -n.1, -n.2), components(face_up(face)))
        }),
        forall|i: int|
            0 <= i < 4 ==> {
                let v = #[trigger] face_vertices(face, cell)[i];
                &&& v.uv.column == cell.column + (if lies_towards(v.position, face_right(face)) {
                    1int
                } else {
                    0int
                })
                &&& v.uv.row == cell.row + (if lies_towards(v.position, face_up(face)) {
                    0int
                } else {
                    1int
                })
            },
{
    let n = components(face_normal(face));
    let u = components(face_up(face));
    lemma_scaled_is_product(-n.1, u.2);
    lemma_scaled_is_product(-n.2, u.1);
    lemma_scaled_is_product(-n.2, u.0);
    lemma_scaled_is_product(-n.0, u.2);
    lemma_scaled_is_product(-n.0, u.1);
    lemma_scaled_is_product(-n.1, u.0);
}

} // verus!
