use voxel_atlas::atlas::{AtlasCell, FaceCells};
use voxel_atlas::face::Face;
use voxel_atlas::format::LineFormat;
use voxel_atlas::geometry::{create_voxel_face, UvCorner};
use voxel_atlas::kind::Kind;
use voxel_atlas::mapping::TextureMapping;
use voxel_atlas::parser::Reason;
use voxel_atlas::placement::{kind_for, random_kind, random_placement};
use voxel_atlas::voxel::{load_voxel_metadata, spawn_voxel, VoxelMetadata};

const MAPPING: &str = "tnt:8,0;8,0;8,0;8,0;9,0;10,0\n";

fn format() -> LineFormat {
    LineFormat::mapping_file().unwrap()
}

#[test]
fn loaded_metadata_describes_the_16_by_16_atlas() {
    let (metadata, diagnostics) = load_voxel_metadata(&format(), MAPPING);
    assert!(diagnostics.is_empty());
    assert_eq!(metadata.atlas_columns, 16);
    assert_eq!(metadata.atlas_rows, 16);
    assert_eq!(metadata.wip_texture_coordinates, FaceCells::uniform(AtlasCell::new(12, 14)));
    assert!(metadata.texture_mapping.contains(Kind::Tnt));
    assert!(!metadata.texture_mapping.contains(Kind::OakWood));
}

#[test]
fn loading_reports_the_lines_it_skipped() {
    let (metadata, diagnostics) =
        load_voxel_metadata(&format(), "nonsense\ntnt:8,0;8,0;8,0;8,0;9,0;10,0\n");
    assert_eq!(diagnostics.len(), 1);
    assert_eq!(diagnostics[0].line, 1);
    assert_eq!(diagnostics[0].reason, Reason::Malformed);
    assert_eq!(diagnostics[0].text, "nonsense");
    assert!(metadata.texture_mapping.contains(Kind::Tnt));
}

#[test]
fn texture_coordinates_fall_back_to_the_placeholder() {
    let (metadata, _) = load_voxel_metadata(&format(), MAPPING);
    let tnt = metadata.texture_coordinates(Kind::Tnt);
    assert_eq!(tnt.get(Face::Top), AtlasCell { column: 9, row: 0 });
    assert_eq!(tnt.get(Face::Bottom), AtlasCell { column: 10, row: 0 });
    assert_eq!(tnt.get(Face::Left), AtlasCell { column: 8, row: 0 });
    let oak = metadata.texture_coordinates(Kind::OakWood);
    for face in Face::all() {
        assert_eq!(oak.get(face), AtlasCell { column: 12, row: 14 });
    }
}

#[test]
fn resolve_gives_the_cell_of_one_face() {
    let (metadata, _) = load_voxel_metadata(&format(), MAPPING);
    assert_eq!(metadata.resolve(Kind::Tnt, Face::Top), AtlasCell { column: 9, row: 0 });
    assert_eq!(metadata.resolve(Kind::Tnt, Face::Bottom), AtlasCell { column: 10, row: 0 });
    assert_eq!(metadata.resolve(Kind::Tnt, Face::Front), AtlasCell { column: 8, row: 0 });
    for face in Face::all() {
        assert_eq!(metadata.resolve(Kind::OakWood, face), AtlasCell { column: 12, row: 14 });
    }
}

#[test]
fn the_placeholder_can_be_chosen() {
    let metadata = VoxelMetadata::new(32, 8, TextureMapping::new(), AtlasCell::new(3, 4));
    assert_eq!(metadata.atlas_columns, 32);
    assert_eq!(metadata.atlas_rows, 8);
    for kind in [Kind::Tnt, Kind::OakWood] {
        assert_eq!(metadata.texture_coordinates(kind), FaceCells::uniform(AtlasCell::new(3, 4)));
    }
}

#[test]
fn a_spawned_voxel_has_six_faces_in_face_order() {
    let (metadata, _) = load_voxel_metadata(&format(), MAPPING);
    let voxel = spawn_voxel(Kind::Tnt, &metadata);
    assert_eq!(voxel.kind, Kind::Tnt);
    assert_eq!(voxel.faces.len(), 6);
    let cells = metadata.texture_coordinates(Kind::Tnt);
    for (i, face) in Face::all().into_iter().enumerate() {
        assert_eq!(voxel.faces[i].face, face);
        assert_eq!(voxel.faces[i], create_voxel_face(face, cells.get(face)));
    }
    assert_eq!(
        voxel.faces[4].uvs,
        vec![
            UvCorner { column: 10, row: 0 },
            UvCorner { column: 9, row: 0 },
            UvCorner { column: 10, row: 1 },
            UvCorner { column: 9, row: 1 },
        ]
    );
}

#[test]
fn a_voxel_of_an_unmapped_kind_shows_the_placeholder_on_every_face() {
    let (metadata, _) = load_voxel_metadata(&format(), MAPPING);
    let voxel = spawn_voxel(Kind::OakWood, &metadata);
    assert_eq!(voxel.kind, Kind::OakWood);
    assert_eq!(voxel.faces.len(), 6);
    for (i, face) in Face::all().into_iter().enumerate() {
        assert_eq!(voxel.faces[i], create_voxel_face(face, AtlasCell::new(12, 14)));
    }
}

#[test]
fn a_coin_picks_the_kind() {
    assert_eq!(kind_for(true), Kind::Tnt);
    assert_eq!(kind_for(false), Kind::OakWood);
}

#[test]
fn random_kinds_are_kinds() {
    for _ in 0..100 {
        let kind = random_kind();
        assert!(kind == Kind::Tnt || kind == Kind::OakWood);
    }
}

#[test]
fn random_placements_lie_in_the_box_and_vary() {
    let mut seen = Vec::new();
    for _ in 0..500 {
        let p = random_placement();
        assert!(-5 <= p.x && p.x < 5, "{:?}", p);
        assert!(-5 <= p.y && p.y < 5, "{:?}", p);
        assert!(-30 <= p.z && p.z < -20, "{:?}", p);
        if !seen.contains(&p) {
            seen.push(p);
        }
    }
    assert!(seen.len() > 1);
}
