use voxel_atlas::atlas::AtlasCell;
use voxel_atlas::face::Face;
use voxel_atlas::geometry::{
    create_voxel_face, destructure_vertices, normal_of, vertices_of, IVec3, UvCorner, Vertex,
};

fn v(x: i8, y: i8, z: i8) -> IVec3 {
    IVec3 { x, y, z }
}

fn uv(column: u16, row: u16) -> UvCorner {
    UvCorner { column, row }
}

#[test]
fn every_face_has_four_corners_one_normal_and_the_strip_order() {
    let cell = AtlasCell::new(8, 0);
    for face in Face::all() {
        let mesh = create_voxel_face(face, cell);
        assert_eq!(mesh.face, face);
        assert_eq!(mesh.positions.len(), 4);
        assert_eq!(mesh.normals.len(), 4);
        assert_eq!(mesh.uvs.len(), 4);
        assert_eq!(mesh.indices, vec![0, 1, 2, 3]);
        for normal in &mesh.normals {
            assert_eq!(*normal, mesh.normals[0]);
            assert_eq!(*normal, normal_of(face));
        }
    }
}

#[test]
fn normals_are_the_six_signed_axes_each_once() {
    let mut normals: Vec<IVec3> = Face::all().iter().map(|face| normal_of(*face)).collect();
    assert_eq!(
        normals,
        vec![v(0, 0, 1), v(0, 0, -1), v(1, 0, 0), v(-1, 0, 0), v(0, 1, 0), v(0, -1, 0)]
    );
    normals.sort_by_key(|n| (n.x, n.y, n.z));
    normals.dedup();
    assert_eq!(normals.len(), 6);
    for n in normals {
        assert_eq!(n.x as i32 * n.x as i32 + n.y as i32 * n.y as i32 + n.z as i32 * n.z as i32, 1);
    }
}

#[test]
fn uv_corners_are_the_corners_of_the_cell_in_a_16_by_16_atlas() {
    let (c, r) = (9u8, 3u8);
    let expected = [
        (c as f32 / 16.0, r as f32 / 16.0),
        ((c as f32 + 1.0) / 16.0, r as f32 / 16.0),
        (c as f32 / 16.0, (r as f32 + 1.0) / 16.0),
        ((c as f32 + 1.0) / 16.0, (r as f32 + 1.0) / 16.0),
    ];
    for face in Face::all() {
        let mesh = create_voxel_face(face, AtlasCell::new(c, r));
        let mut found: Vec<(f32, f32)> =
            mesh.uvs.iter().map(|uv| (uv.column as f32 / 16.0, uv.row as f32 / 16.0)).collect();
        for corner in expected {
            let at = found.iter().position(|f| *f == corner);
            assert!(at.is_some(), "{:?} lacks {:?}", face, corner);
            found.remove(at.unwrap());
        }
        assert!(found.is_empty());
    }
}

#[test]
fn uv_corners_follow_each_face_s_own_order() {
    let cell = AtlasCell::new(8, 2);
    let (tl, tr, bl, br) = (uv(8, 2), uv(9, 2), uv(8, 3), uv(9, 3));
    assert_eq!(create_voxel_face(Face::Front, cell).uvs, vec![bl, br, tl, tr]);
    assert_eq!(create_voxel_face(Face::Back, cell).uvs, vec![tr, tl, br, bl]);
    assert_eq!(create_voxel_face(Face::Right, cell).uvs, vec![br, tr, bl, tl]);
    assert_eq!(create_voxel_face(Face::Left, cell).uvs, vec![br, tr, bl, tl]);
    assert_eq!(create_voxel_face(Face::Top, cell).uvs, vec![tr, tl, br, bl]);
    assert_eq!(create_voxel_face(Face::Bottom, cell).uvs, vec![tr, tl, br, bl]);
}

#[test]
fn corner_positions_follow_each_face_s_own_order() {
    let cell = AtlasCell::new(0, 0);
    assert_eq!(
        create_voxel_face(Face::Front, cell).positions,
        vec![v(-1, -1, 1), v(1, -1, 1), v(-1, 1, 1), v(1, 1, 1)]
    );
    assert_eq!(
        create_voxel_face(Face::Back, cell).positions,
        vec![v(-1, 1, -1), v(1, 1, -1), v(-1, -1, -1), v(1, -1, -1)]
    );
    assert_eq!(
        create_voxel_face(Face::Right, cell).positions,
        vec![v(1, -1, -1), v(1, 1, -1), v(1, -1, 1), v(1, 1, 1)]
    );
    assert_eq!(
        create_voxel_face(Face::Left, cell).positions,
        vec![v(-1, -1, 1), v(-1, 1, 1), v(-1, -1, -1), v(-1, 1, -1)]
    );
    assert_eq!(
        create_voxel_face(Face::Top, cell).positions,
        vec![v(1, 1, -1), v(-1, 1, -1), v(1, 1, 1), v(-1, 1, 1)]
    );
    assert_eq!(
        create_voxel_face(Face::Bottom, cell).positions,
        vec![v(1, -1, 1), v(-1, -1, 1), v(1, -1, -1), v(-1, -1, -1)]
    );
}

#[test]
fn front_and_back_corners_for_a_voxel_offset_of_one_half() {
    let voxel_offset = 0.5f32;
    let front = create_voxel_face(Face::Front, AtlasCell::new(8, 0));
    for p in &front.positions {
        assert_eq!(p.z as f32 * voxel_offset, 0.5);
        assert!(p.x as f32 * voxel_offset == 0.5 || p.x as f32 * voxel_offset == -0.5);
        assert!(p.y as f32 * voxel_offset == 0.5 || p.y as f32 * voxel_offset == -0.5);
    }
    let back = create_voxel_face(Face::Back, AtlasCell::new(8, 0));
    for p in &back.positions {
        assert_eq!(p.z as f32 * voxel_offset, -0.5);
    }
}

#[test]
fn first_triangle_of_every_strip_turns_counter_clockwise_seen_from_outside() {
    for face in Face::all() {
        let mesh = create_voxel_face(face, AtlasCell::new(0, 0));
        let p: Vec<(i32, i32, i32)> =
            mesh.positions.iter().map(|p| (p.x as i32, p.y as i32, p.z as i32)).collect();
        let n = normal_of(face);
        let turning = |a: (i32, i32, i32), b: (i32, i32, i32), c: (i32, i32, i32)| {
            let e = (b.0 - a.0, b.1 - a.1, b.2 - a.2);
            let f = (c.0 - a.0, c.1 - a.1, c.2 - a.2);
            let k = (e.1 * f.2 - e.2 * f.1, e.2 * f.0 - e.0 * f.2, e.0 * f.1 - e.1 * f.0);
            k.0 * n.x as i32 + k.1 * n.y as i32 + k.2 * n.z as i32
        };
        assert_eq!(turning(p[0], p[1], p[2]), 4, "{:?}", face);
        assert_eq!(turning(p[1], p[2], p[3]), -4, "{:?}", face);
    }
}

#[test]
fn cell_in_the_last_column_and_row_does_not_overflow() {
    let mesh = create_voxel_face(Face::Front, AtlasCell::new(255, 255));
    assert_eq!(mesh.uvs, vec![uv(255, 256), uv(256, 256), uv(255, 255), uv(256, 255)]);
}

#[test]
fn vertices_of_pairs_each_corner_with_normal_and_uv() {
    let vertices = vertices_of(Face::Top, AtlasCell::new(9, 0));
    let n = v(0, 1, 0);
    assert_eq!(
        vertices,
        [
            Vertex { position: v(1, 1, -1), normal: n, uv: uv(10, 0) },
            Vertex { position: v(-1, 1, -1), normal: n, uv: uv(9, 0) },
            Vertex { position: v(1, 1, 1), normal: n, uv: uv(10, 1) },
            Vertex { position: v(-1, 1, 1), normal: n, uv: uv(9, 1) },
        ]
    );
}

#[test]
fn destructure_vertices_keeps_the_order() {
    let vertices = [
        Vertex { position: v(1, 2, 3), normal: v(0, 0, 1), uv: uv(4, 5) },
        Vertex { position: v(-1, -2, -3), normal: v(0, 1, 0), uv: uv(6, 7) },
        Vertex { position: v(9, 8, 7), normal: v(1, 0, 0), uv: uv(0, 1) },
    ];
    let (positions, normals, uvs) = destructure_vertices(&vertices);
    assert_eq!(positions, vec![v(1, 2, 3), v(-1, -2, -3), v(9, 8, 7)]);
    assert_eq!(normals, vec![v(0, 0, 1), v(0, 1, 0), v(1, 0, 0)]);
    assert_eq!(uvs, vec![uv(4, 5), uv(6, 7), uv(0, 1)]);
    let (positions, normals, uvs) = destructure_vertices(&[]);
    assert!(positions.is_empty() && normals.is_empty() && uvs.is_empty());
}

#[test]
fn building_a_face_twice_gives_the_same_mesh() {
    for face in Face::all() {
        assert_eq!(
            create_voxel_face(face, AtlasCell::new(3, 7)),
            create_voxel_face(face, AtlasCell::new(3, 7))
        );
    }
}
