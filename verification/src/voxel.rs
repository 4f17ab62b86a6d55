use vstd::prelude::*;
use crate::atlas::{AtlasCell, FaceCells};
use crate::face::{all_faces, Face};
use crate::format::LineFormat;
use crate::geometry::{create_voxel_face, face_mesh, VoxelFaceMesh};
use crate::kind::Kind;
use crate::mapping::{resolved, TextureMapping};
use crate::parser::{diagnostic_views, parse_texture_mapping, parsed, Diagnostic};
use crate::text::lines_of;

verus! {

/// Number of cells in one row of the atlas.
pub const ATLAS_COLUMNS: u16 = 16;

/// Number of cells in one column of the atlas.
pub const ATLAS_ROWS: u16 = 16;

/// Column of the placeholder cell shown where a kind has no entry.
pub const WIP_COLUMN: u8 = 12;

/// Row of the placeholder cell shown where a kind has no entry.
pub const WIP_ROW: u8 = 14;

/// What every voxel is built from: the dimensions of the atlas, the
/// mapping from kind to cells, and the cells to show where the mapping has
/// no entry.
///
/// Texture corners count cells, so the caller divides their column by
/// `atlas_columns` and their row by `atlas_rows` to get texture
/// coordinates between zero and one.
pub struct VoxelMetadata {
    pub atlas_columns: u16,
    pub atlas_rows: u16,
    pub texture_mapping: TextureMapping,
    pub wip_texture_coordinates: FaceCells,
}

/// One voxel: its kind and the meshes of its six faces, in face order.
pub struct Voxel {
    pub kind: Kind,
    pub faces: Vec<VoxelFaceMesh>,
}

impl VoxelMetadata {
    /// The cells that the faces of a voxel of `kind` show.
    pub open spec fn spec_texture_coordinates(&self, kind: Kind) -> FaceCells {
        resolved(self.texture_mapping@, kind, self.wip_texture_coordinates)
    }

    /// Metadata for an atlas of `atlas_columns` by `atlas_rows` cells, with
    /// `fallback` as the cell of every face of a kind that `texture_mapping`
    /// does not hold.
    pub fn new(
        atlas_columns: u16,
        atlas_rows: u16,
        texture_mapping: TextureMapping,
        fallback: AtlasCell,
    ) -> (metadata: VoxelMetadata)
        ensures
            metadata.atlas_columns == atlas_columns,
            metadata.atlas_rows == atlas_rows,
            metadata.texture_mapping@ == texture_mapping@,
            forall|face: Face| metadata.wip_texture_coordinates.spec_get(face) == fallback,
    {
        VoxelMetadata {
            atlas_columns,
            atlas_rows,
            texture_mapping,
            wip_texture_coordinates: FaceCells::uniform(fallback),
        }
    }

    /// The cells that the faces of a voxel of `kind` show: those of the
    /// mapping's entry for `kind`, or the placeholder on every face where
    /// the mapping has none.
    pub fn texture_coordinates(&self, kind: Kind) -> (cells: FaceCells)
        ensures
            cells == self.spec_texture_coordinates(kind),
    {
        self.texture_mapping.resolve(kind, self.wip_texture_coordinates)
    }

    /// The cell that `face` of a voxel of `kind` shows.
    pub fn resolve(&self, kind: Kind, face: Face) -> (cell: AtlasCell)
        ensures
            cell == self.spec_texture_coordinates(kind).spec_get(face),
            !self.texture_mapping@.contains_key(kind) ==> cell
                == self.wip_texture_coordinates.spec_get(face),
            self.texture_mapping@.contains_key(kind) ==> cell
                == self.texture_mapping@[kind].spec_get(face),
    {
        self.texture_coordinates(kind).get(face)
    }
}

/// Builds the metadata from the text of a mapping file, for the 16 by 16
/// atlas and its placeholder cell in column 12, row 14.
///
/// Returns, beside the metadata, a diagnostic for every line of the text
/// that was skipped.
pub fn load_voxel_metadata(format: &LineFormat, mapping_text: &str) -> (loaded: (
    VoxelMetadata,
    Vec<Diagnostic>,
))
    ensures
        loaded.0.atlas_columns == 16,
        loaded.0.atlas_rows == 16,
        loaded.0.texture_mapping@ == parsed(format@, lines_of(mapping_text@)).mapping,
        forall|face: Face|
            loaded.0.wip_texture_coordinates.spec_get(face) == (AtlasCell { column: 12, row: 14 }),
        diagnostic_views(loaded.1@) == parsed(format@, lines_of(mapping_text@)).diagnostics,
{
    let report = parse_texture_mapping(format, mapping_text);
    let metadata = VoxelMetadata::new(
        ATLAS_COLUMNS,
        ATLAS_ROWS,
        report.mapping,
        AtlasCell { column: WIP_COLUMN, row: WIP_ROW },
    );
    (metadata, report.diagnostics)
}

/// Builds a voxel of `kind`: the meshes of its six faces in face order, each
/// textured with the cell that the metadata gives to that face of `kind`.
pub fn spawn_voxel(kind: Kind, voxel_metadata: &VoxelMetadata) -> (voxel: Voxel)
    ensures
        voxel.kind == kind,
        voxel.faces@.len() == 6,
        forall|i: int|
            0 <= i < 6 ==> (#[trigger] voxel.faces@[i])@ == face_mesh(
                all_faces()[i],
                voxel_metadata.spec_texture_coordinates(kind).spec_get(all_faces()[i]),
            ),
{
    let texture_coordinates = voxel_metadata.texture_coordinates(kind);
    let faces = Face::all();
    let mut meshes: Vec<VoxelFaceMesh> = Vec::with_capacity(6);
    let mut i: usize = 0;
    while i < 6
        invariant
            i <= 6,
            faces@ == all_faces(),
            texture_coordinates == voxel_metadata.spec_texture_coordinates(kind),
            meshes@.len() == i,
            forall|j: int|
                0 <= j < i ==> (#[trigger] meshes@[j])@ == face_mesh(
                    all_faces()[j],
                    texture_coordinates.spec_get(all_faces()[j]),
                ),
        decreases 6 - i,
    {
        let face = faces[i];
        meshes.push(create_voxel_face(face, texture_coordinates.get(face)));
        i += 1;
    }
    Voxel { kind, faces: meshes }
}

} // verus!
