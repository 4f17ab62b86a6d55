use voxel_atlas::atlas::{AtlasCell, FaceCells};
use voxel_atlas::face::Face;
use voxel_atlas::kind::Kind;
use voxel_atlas::text::spells;

#[test]
fn faces_come_in_the_fixed_order() {
    assert_eq!(
        Face::all(),
        [Face::Front, Face::Back, Face::Right, Face::Left, Face::Top, Face::Bottom]
    );
}

#[test]
fn face_index_is_the_place_in_the_fixed_order() {
    let faces = Face::all();
    for i in 0..6u8 {
        assert_eq!(faces[i as usize].index(), i);
    }
}

#[test]
fn kind_index_is_the_place_in_declaration_order() {
    assert_eq!(Kind::Tnt.index(), 0);
    assert_eq!(Kind::OakWood.index(), 1);
}

#[test]
fn kind_names_are_snake_case() {
    assert_eq!(Kind::Tnt.name(), "tnt");
    assert_eq!(Kind::OakWood.name(), "oak_wood");
}

#[test]
fn kind_is_read_back_from_its_name() {
    for kind in [Kind::Tnt, Kind::OakWood] {
        assert_eq!(Kind::from_name(kind.name()), Some(kind));
    }
}

#[test]
fn other_names_are_no_kind() {
    for name in
        ["", "Tnt", "TNT", "tnt ", " tnt", "oakwood", "OakWood", "oak_woo", "oak_woods", "grass"]
    {
        assert_eq!(Kind::from_name(name), None, "{:?}", name);
    }
}

#[test]
fn kind_from_chars_reads_the_characters() {
    let chars: Vec<char> = "oak_wood".chars().collect();
    assert_eq!(Kind::from_chars(&chars), Some(Kind::OakWood));
    assert_eq!(Kind::from_chars(&chars[..3]), None);
    assert_eq!(Kind::from_chars(&['t', 'n', 't']), Some(Kind::Tnt));
}

#[test]
fn spells_compares_with_a_literal() {
    assert!(spells(&['a', 'b'], "ab"));
    assert!(!spells(&['a', 'b'], "abc"));
    assert!(!spells(&['a', 'b'], "ac"));
    assert!(spells(&[], ""));
    assert!(spells(&['é'], "é"));
}

#[test]
fn face_cells_get_returns_the_cell_of_each_face() {
    let cells = FaceCells::from_ordered([
        AtlasCell::new(1, 10),
        AtlasCell::new(2, 20),
        AtlasCell::new(3, 30),
        AtlasCell::new(4, 40),
        AtlasCell::new(5, 50),
        AtlasCell::new(6, 60),
    ]);
    assert_eq!(cells.get(Face::Front), AtlasCell { column: 1, row: 10 });
    assert_eq!(cells.get(Face::Back), AtlasCell { column: 2, row: 20 });
    assert_eq!(cells.get(Face::Right), AtlasCell { column: 3, row: 30 });
    assert_eq!(cells.get(Face::Left), AtlasCell { column: 4, row: 40 });
    assert_eq!(cells.get(Face::Top), AtlasCell { column: 5, row: 50 });
    assert_eq!(cells.get(Face::Bottom), AtlasCell { column: 6, row: 60 });
}

#[test]
fn uniform_face_cells_show_one_cell_everywhere() {
    let cells = FaceCells::uniform(AtlasCell::new(12, 14));
    for face in Face::all() {
        assert_eq!(cells.get(face), AtlasCell { column: 12, row: 14 });
    }
}
