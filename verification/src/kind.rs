use vstd::prelude::*;
use crate::text::{chars_of, spells};

verus! {

/// The archetype of a voxel. It decides which atlas cells the six faces
/// show.
#[derive(Clone, Copy, PartialEq, Eq, Structural, Hash, Debug)]
pub enum Kind {
    Tnt,
    OakWood,
}

/// All kinds in declaration order.
pub open spec fn all_kinds() -> Seq<Kind> {
    seq![Kind::Tnt, Kind::OakWood]
}

/// The identifier under which a mapping file lists `kind`: the variant's
/// name in lower case, its words joined by underscores.
pub open spec fn kind_name(kind: Kind) -> Seq<char> {
    match kind {
        Kind::Tnt => "tnt"@,
        Kind::OakWood => "oak_wood"@,
    }
}

/// The kind that a mapping file calls `name`, if there is one.
pub open spec fn kind_of_name(name: Seq<char>) -> Option<Kind> {
    if name == kind_name(Kind::Tnt) {
        Some(Kind::Tnt)
    } else if name == kind_name(Kind::OakWood) {
        Some(Kind::OakWood)
    } else {
        None
    }
}

impl Kind {
    /// Number of kinds.
    pub const COUNT: u8 = 2;

    /// Position of the kind in declaration order.
    pub open spec fn spec_index(self) -> int {
        match self {
            Kind::Tnt => 0,
            Kind::OakWood => 1,
        }
    }

    /// Position of the kind in declaration order.
    pub fn index(self) -> (i: u8)
        ensures
            i == self.spec_index(),
            i < Kind::COUNT,
            all_kinds()[i as int] == self,
    {
        match self {
            Kind::Tnt => 0,
            Kind::OakWood => 1,
        }
    }

    /// The identifier under which a mapping file lists this kind.
    pub fn name(self) -> (name: &'static str)
        ensures
            name@ == kind_name(self),
    {
        match self {
            Kind::Tnt => "tnt",
            Kind::OakWood => "oak_wood",
        }
    }

    /// The kind spelled by `name`, if there is one.
    pub fn from_chars(name: &[char]) -> (kind: Option<Kind>)
        ensures
            kind == kind_of_name(name@),
    {
        if spells(name, "tnt") {
            Some(Kind::Tnt)
        } else if spells(name, "oak_wood") {
            Some(Kind::OakWood)
        } else {
            None
        }
    }

    /// Reads a kind from its identifier. Any other text, also one that
    /// differs only in case, names no kind.
    pub fn from_name(name: &str) -> (kind: Option<Kind>)
        ensures
            kind == kind_of_name(name@),
    {
        let chars = chars_of(name);
        Kind::from_chars(chars.as_slice())
    }
}

/// Every kind is read back from its own identifier, so no two kinds share
/// one; and a text names a kind only if it is that kind's identifier.
pub proof fn lemma_kind_names_round_trip()
    ensures
        forall|kind: Kind| kind_of_name(#[trigger] kind_name(kind)) == Some(kind),
        forall|a: Kind, b: Kind| kind_name(a) == kind_name(b) ==> a == b,
        forall|name: Seq<char>, kind: Kind|
            kind_of_name(name) == Some(kind) ==> name == kind_name(kind),
{
    reveal_strlit("tnt");
    reveal_strlit("oak_wood");
    assert("tnt"@.len() != "oak_wood"@.len());
}

/// The identifiers, character by character.
pub proof fn lemma_kind_names_spelled()
    ensures
        kind_name(Kind::Tnt) =~= seq!['t', 'n', 't'],
        kind_name(Kind::OakWood) =~= seq!['o', 'a', 'k', '_', 'w', 'o', 'o', 'd'],
{
    reveal_strlit("tnt");
    reveal_strlit("oak_wood");
}

} // verus!
