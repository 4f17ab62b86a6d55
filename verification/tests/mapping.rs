use voxel_atlas::atlas::{AtlasCell, FaceCells};
use voxel_atlas::face::Face;
use voxel_atlas::kind::Kind;
use voxel_atlas::mapping::TextureMapping;

fn tnt_cells() -> FaceCells {
    FaceCells::from_ordered([
        AtlasCell::new(8, 0),
        AtlasCell::new(8, 0),
        AtlasCell::new(8, 0),
        AtlasCell::new(8, 0),
        AtlasCell::new(9, 0),
        AtlasCell::new(10, 0),
    ])
}

#[test]
fn new_mapping_has_no_entries() {
    let mapping = TextureMapping::new();
    assert!(!mapping.contains(Kind::Tnt));
    assert!(!mapping.contains(Kind::OakWood));
    assert_eq!(mapping.get(Kind::Tnt), None);
    assert_eq!(mapping.get(Kind::OakWood), None);
}

#[test]
fn insert_gives_the_kind_its_cells_and_no_other() {
    let mut mapping = TextureMapping::new();
    mapping.insert(Kind::Tnt, tnt_cells());
    assert!(mapping.contains(Kind::Tnt));
    assert_eq!(mapping.get(Kind::Tnt), Some(tnt_cells()));
    assert!(!mapping.contains(Kind::OakWood));
    assert_eq!(mapping.get(Kind::OakWood), None);
}

#[test]
fn insert_keeps_the_six_faces_apart() {
    let cells = FaceCells::from_ordered([
        AtlasCell::new(1, 2),
        AtlasCell::new(3, 4),
        AtlasCell::new(5, 6),
        AtlasCell::new(7, 8),
        AtlasCell::new(9, 10),
        AtlasCell::new(11, 12),
    ]);
    let mut mapping = TextureMapping::new();
    mapping.insert(Kind::OakWood, cells);
    let found = mapping.get(Kind::OakWood).unwrap();
    assert_eq!(found.get(Face::Front), AtlasCell { column: 1, row: 2 });
    assert_eq!(found.get(Face::Back), AtlasCell { column: 3, row: 4 });
    assert_eq!(found.get(Face::Right), AtlasCell { column: 5, row: 6 });
    assert_eq!(found.get(Face::Left), AtlasCell { column: 7, row: 8 });
    assert_eq!(found.get(Face::Top), AtlasCell { column: 9, row: 10 });
    assert_eq!(found.get(Face::Bottom), AtlasCell { column: 11, row: 12 });
}

#[test]
fn second_insert_replaces_the_first() {
    let mut mapping = TextureMapping::new();
    mapping.insert(Kind::Tnt, FaceCells::uniform(AtlasCell::new(1, 1)));
    mapping.insert(Kind::OakWood, FaceCells::uniform(AtlasCell::new(4, 1)));
    mapping.insert(Kind::Tnt, tnt_cells());
    assert_eq!(mapping.get(Kind::Tnt), Some(tnt_cells()));
    assert_eq!(mapping.get(Kind::OakWood), Some(FaceCells::uniform(AtlasCell::new(4, 1))));
}

#[test]
fn resolve_returns_the_entry_where_there_is_one() {
    let mut mapping = TextureMapping::new();
    mapping.insert(Kind::Tnt, tnt_cells());
    let fallback = FaceCells::uniform(AtlasCell::new(12, 14));
    assert_eq!(mapping.resolve(Kind::Tnt, fallback), tnt_cells());
}

#[test]
fn resolve_returns_the_fallback_for_every_face_of_an_absent_kind() {
    let mut mapping = TextureMapping::new();
    mapping.insert(Kind::Tnt, tnt_cells());
    let fallback = FaceCells::uniform(AtlasCell::new(12, 14));
    let cells = mapping.resolve(Kind::OakWood, fallback);
    for face in Face::all() {
        assert_eq!(cells.get(face), AtlasCell { column: 12, row: 14 });
    }
    let empty = TextureMapping::new();
    for kind in [Kind::Tnt, Kind::OakWood] {
        assert_eq!(empty.resolve(kind, fallback), fallback);
    }
}
