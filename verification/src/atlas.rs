use vstd::prelude::*;
use crate::face::Face;

verus! {

/// One square of the texture atlas, addressed by column and row.
#[derive(Clone, Copy, PartialEq, Eq, Structural, Hash, Debug)]
pub struct AtlasCell {
    pub column: u8,
    pub row: u8,
}

impl AtlasCell {
    /// The cell in column `column` and row `row`.
    pub fn new(column: u8, row: u8) -> (cell: AtlasCell)
        ensures
            cell == (AtlasCell { column, row }),
    {
        AtlasCell { column, row }
    }
}

/// The atlas cells of one voxel kind: one for each face.
///
/// A value of this type always names a cell for all six faces; no face can
/// be left without one.
#[derive(Clone, Copy, PartialEq, Eq, Structural, Hash, Debug)]
pub struct FaceCells {
    pub front: AtlasCell,
    pub back: AtlasCell,
    pub right: AtlasCell,
    pub left: AtlasCell,
    pub top: AtlasCell,
    pub bottom: AtlasCell,
}

impl FaceCells {
    /// The cell that `face` is textured with.
    pub open spec fn spec_get(self, face: Face) -> AtlasCell {
        match face {
            Face::Front => self.front,
            Face::Back => self.back,
            Face::Right => self.right,
            Face::Left => self.left,
            Face::Top => self.top,
            Face::Bottom => self.bottom,
        }
    }

    /// The cells listed in the fixed face order.
    pub open spec fn spec_ordered(self) -> Seq<AtlasCell> {
        seq![self.front, self.back, self.right, self.left, self.top, self.bottom]
    }

    /// The cell set that lists `cells` in the fixed face order.
    pub open spec fn spec_from_ordered(cells: Seq<AtlasCell>) -> FaceCells
        recommends
            cells.len() == 6,
    {
        FaceCells {
            front: cells[0],
            back: cells[1],
            right: cells[2],
            left: cells[3],
            top: cells[4],
            bottom: cells[5],
        }
    }

    /// The cell that `face` is textured with.
    pub fn get(&self, face: Face) -> (cell: AtlasCell)
        ensures
            cell == self.spec_get(face),
            cell == self.spec_ordered()[face.spec_index()],
    {
        match face {
            Face::Front => self.front,
            Face::Back => self.back,
            Face::Right => self.right,
            Face::Left => self.left,
            Face::Top => self.top,
            Face::Bottom => self.bottom,
        }
    }

    /// The same cell on every face.
    pub fn uniform(cell: AtlasCell) -> (cells: FaceCells)
        ensures
            forall|face: Face| cells.spec_get(face) == cell,
    {
        FaceCells { front: cell, back: cell, right: cell, left: cell, top: cell, bottom: cell }
    }

    /// Builds the cell set from six cells given in the fixed face order:
    /// front, back, right, left, top, bottom.
    pub fn from_ordered(cells: [AtlasCell; 6]) -> (result: FaceCells)
        ensures
            result == FaceCells::spec_from_ordered(cells@),
            result.spec_ordered() == cells@,
            forall|face: Face| result.spec_get(face) == cells@[face.spec_index()],
    {
        FaceCells {
            front: cells[0],
            back: cells[1],
            right: cells[2],
            left: cells[3],
            top: cells[4],
            bottom: cells[5],
        }
    }
}

/// Listing a cell set in face order and reading the list back gives the same
/// set, and the list holds at each face's index the cell of that face.
pub proof fn lemma_ordered_round_trip(cells: FaceCells)
    ensures
        cells.spec_ordered().len() == 6,
        FaceCells::spec_from_ordered(cells.spec_ordered()) == cells,
        forall|face: Face| cells.spec_ordered()[face.spec_index()] == cells.spec_get(face),
{
}

} // verus!
