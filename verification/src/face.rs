use vstd::prelude::*;

verus! {

/// One of the six sides of a cube-shaped voxel.
///
/// The declaration order is the iteration order used everywhere in the crate
/// and the order in which a mapping record lists its cells.
#[derive(Clone, Copy, PartialEq, Eq, Structural, Hash, Debug)]
pub enum Face {
    Front,
    Back,
    Right,
    Left,
    Top,
    Bottom,
}

/// The six faces in their fixed order.
pub open spec fn all_faces() -> Seq<Face> {
    seq![Face::Front, Face::Back, Face::Right, Face::Left, Face::Top, Face::Bottom]
}

impl Face {
    /// Number of faces of a cube.
    pub const COUNT: u8 = 6;

    /// Position of the face in the fixed order.
    pub open spec fn spec_index(self) -> int {
        match self {
            Face::Front => 0,
            Face::Back => 1,
            Face::Right => 2,
            Face::Left => 3,
            Face::Top => 4,
            Face::Bottom => 5,
        }
    }

    /// Position of the face in the fixed order.
    pub fn index(self) -> (i: u8)
        ensures
            i == self.spec_index(),
            i < Face::COUNT,
            all_faces()[i as int] == self,
    {
        match self {
            Face::Front => 0,
            Face::Back => 1,
            Face::Right => 2,
            Face::Left => 3,
            Face::Top => 4,
            Face::Bottom => 5,
        }
    }

    /// All six faces, each exactly once, in the fixed order.
    pub fn all() -> (faces: [Face; 6])
        ensures
            faces@ == all_faces(),
    {
        [Face::Front, Face::Back, Face::Right, Face::Left, Face::Top, Face::Bottom]
    }
}

/// The fixed order lists every face exactly once: a face stands at its own
/// index, and every index below six holds the face with that index.
pub proof fn lemma_all_faces_is_a_bijection()
    ensures
        all_faces().len() == 6,
        forall|face: Face|
            0 <= #[trigger] face.spec_index() < 6 && all_faces()[face.spec_index()] == face,
        forall|i: int| 0 <= i < 6 ==> (#[trigger] all_faces()[i]).spec_index() == i,
{
}

} // verus!
