use vstd::prelude::*;
use bevy::utils::HashMap;
use crate::atlas::{AtlasCell, FaceCells};
use crate::face::Face;
use crate::kind::Kind;

verus! {

/// A hash table from a pair of indices (kind, face) to a pair of atlas
/// coordinates (column, row): `bevy::utils::HashMap`, which is hashbrown's
/// `HashMap` with bevy's choice of hasher.
///
/// Trusted: the table is opaque to the verifier. What it holds is known
/// only as [`table_entries`], through the contracts of [`table_new`],
/// [`table_insert`] and [`table_get`].
#[verifier::external_body]
pub struct CellTable {
    entries: HashMap<(u8, u8), (u8, u8)>,
}

/// What a [`CellTable`] holds: atlas coordinates (column, row) under pairs
/// of indices (kind, face).
pub type Entries = Map<(u8, u8), (u8, u8)>;

/// The entries of `table`: the keys it holds, each with its value.
pub uninterp spec fn table_entries(table: CellTable) -> Map<(u8, u8), (u8, u8)>;

/// Calls `HashMap::new`.
///
/// Trusted: the new table has no entries.
#[verifier::external_body]
fn table_new() -> (table: CellTable)
    ensures
        table_entries(table) == Entries::empty(),
{
    CellTable { entries: HashMap::new() }
}

/// Calls `HashMap::insert`.
///
/// Trusted: afterwards `key` has the value `value`, whether or not it had
/// one before, and every other key is as it was.
#[verifier::external_body]
fn table_insert(table: &mut CellTable, key: (u8, u8), value: (u8, u8))
    ensures
        table_entries(*final(table)) == table_entries(*old(table)).insert(key, value),
{
    table.entries.insert(key, value);
}

/// Calls `HashMap::get` and copies the value out.
///
/// Trusted: the result is the value of `key`, or `None` if the table does
/// not hold `key`.
#[verifier::external_body]
fn table_get(table: &CellTable, key: (u8, u8)) -> (value: Option<(u8, u8)>)
    ensures
        value == if table_entries(*table).contains_key(key) {
            Some(table_entries(*table)[key])
        } else {
            None
        },
{
    table.entries.get(&key).copied()
}

/// The cell stored as the pair `value`.
pub open spec fn cell_of(value: (u8, u8)) -> AtlasCell {
    AtlasCell { column: value.0, row: value.1 }
}

/// The table's key for `face` of `kind`.
pub open spec fn key_of(kind: Kind, face: Face) -> (u8, u8) {
    (kind.spec_index() as u8, face.spec_index() as u8)
}

/// The cells that `entries` holds for `kind`, face by face.
pub open spec fn stored_cells(entries: Entries, kind: Kind) -> FaceCells {
    FaceCells {
        front: cell_of(entries[key_of(kind, Face::Front)]),
        back: cell_of(entries[key_of(kind, Face::Back)]),
        right: cell_of(entries[key_of(kind, Face::Right)]),
        left: cell_of(entries[key_of(kind, Face::Left)]),
        top: cell_of(entries[key_of(kind, Face::Top)]),
        bottom: cell_of(entries[key_of(kind, Face::Bottom)]),
    }
}

/// `entries` holds a cell for every face of every kind whose front face it
/// holds.
pub open spec fn complete(entries: Entries) -> bool {
    forall|kind: Kind, face: Face|
        entries.contains_key(key_of(kind, Face::Front)) ==> #[trigger] entries.contains_key(
            key_of(kind, face),
        )
}

/// The cells that `mapping` gives to `kind`: its own where it has an entry,
/// else those of `fallback`.
pub open spec fn resolved(
    mapping: Map<Kind, FaceCells>,
    kind: Kind,
    fallback: FaceCells,
) -> FaceCells {
    if mapping.contains_key(kind) {
        mapping[kind]
    } else {
        fallback
    }
}

/// The mapping that has no entry for any kind.
pub open spec fn no_kinds() -> Map<Kind, FaceCells> {
    Map::empty()
}

/// The table from voxel kind to the atlas cells of its six faces.
///
/// A kind is either absent or has a cell for every face. The view of a
/// mapping is the map from each kind it holds to that kind's cells.
pub struct TextureMapping {
    table: CellTable,
}

impl View for TextureMapping {
    type V = Map<Kind, FaceCells>;

    closed spec fn view(&self) -> Map<Kind, FaceCells> {
        let entries = table_entries(self.table);
        Map::new(
            |kind: Kind| entries.contains_key(key_of(kind, Face::Front)),
            |kind: Kind| stored_cells(entries, kind),
        )
    }
}

impl TextureMapping {
    #[verifier::type_invariant]
    closed spec fn well_formed(self) -> bool {
        complete(table_entries(self.table))
    }

    /// A mapping without entries.
    pub fn new() -> (mapping: TextureMapping)
        ensures
            mapping@ == no_kinds(),
    {
        TextureMapping { table: table_new() }
    }

    /// Gives `kind` the cells `cells`, in place of any it had.
    pub fn insert(&mut self, kind: Kind, cells: FaceCells)
        ensures
            final(self)@ == old(self)@.insert(kind, cells),
    {
        proof {
            use_type_invariant(&*self);
        }
        let k: u8 = kind.index();
        // The table is taken out while it is filled, so that the mapping
        // never holds a kind with only some of its faces.
        let mut table = table_new();
        core::mem::swap(&mut self.table, &mut table);
        table_insert(&mut table, (k, Face::Front.index()), (cells.front.column, cells.front.row));
        table_insert(&mut table, (k, Face::Back.index()), (cells.back.column, cells.back.row));
        table_insert(&mut table, (k, Face::Right.index()), (cells.right.column, cells.right.row));
        table_insert(&mut table, (k, Face::Left.index()), (cells.left.column, cells.left.row));
        table_insert(&mut table, (k, Face::Top.index()), (cells.top.column, cells.top.row));
        table_insert(
            &mut table,
            (k, Face::Bottom.index()),
            (cells.bottom.column, cells.bottom.row),
        );
        self.table = table;
    }

    /// The cells of `kind`, if the mapping has an entry for it.
    pub fn get(&self, kind: Kind) -> (cells: Option<FaceCells>)
        ensures
            cells == if self@.contains_key(kind) {
                Some(self@[kind])
            } else {
                None
            },
    {
        proof {
            use_type_invariant(self);
        }
        let k: u8 = kind.index();
        match table_get(&self.table, (k, Face::Front.index())) {
            None => None,
            Some(front) => {
                let ghost entries = table_entries(self.table);
                assert(entries.contains_key(key_of(kind, Face::Back)));
                assert(entries.contains_key(key_of(kind, Face::Right)));
                assert(entries.contains_key(key_of(kind, Face::Left)));
                assert(entries.contains_key(key_of(kind, Face::Top)));
                assert(entries.contains_key(key_of(kind, Face::Bottom)));
                let back = table_get(&self.table, (k, Face::Back.index())).unwrap();
                let right = table_get(&self.table, (k, Face::Right.index())).unwrap();
                let left = table_get(&self.table, (k, Face::Left.index())).unwrap();
                let top = table_get(&self.table, (k, Face::Top.index())).unwrap();
                let bottom = table_get(&self.table, (k, Face::Bottom.index())).unwrap();
                Some(
                    FaceCells {
                        front: AtlasCell { column: front.0, row: front.1 },
                        back: AtlasCell { column: back.0, row: back.1 },
                        right: AtlasCell { column: right.0, row: right.1 },
                        left: AtlasCell { column: left.0, row: left.1 },
                        top: AtlasCell { column: top.0, row: top.1 },
                        bottom: AtlasCell { column: bottom.0, row: bottom.1 },
                    },
                )
            },
        }
    }

    /// Whether the mapping has an entry for `kind`.
    pub fn contains(&self, kind: Kind) -> (present: bool)
        ensures
            present == self@.contains_key(kind),
    {
        table_get(&self.table, (kind.index(), Face::Front.index())).is_some()
    }

    /// The cells to texture `kind` with: its entry if the mapping has one,
    /// else `fallback`, for every face.
    pub fn resolve(&self, kind: Kind, fallback: FaceCells) -> (cells: FaceCells)
        ensures
            cells == resolved(self@, kind, fallback),
    {
        match self.get(kind) {
            Some(cells) => cells,
            None => fallback,
        }
    }
}

/// A kind without an entry is textured with the fallback on every face; a
/// kind with an entry is textured with its own cells on every face.
pub proof fn lemma_resolved_cells(
    mapping: Map<Kind, FaceCells>,
    kind: Kind,
    fallback: FaceCells,
    face: Face,
)
    ensures
        !mapping.contains_key(kind) ==> resolved(mapping, kind, fallback).spec_get(face)
            == fallback.spec_get(face),
        mapping.contains_key(kind) ==> resolved(mapping, kind, fallback).spec_get(face)
            == mapping[kind].spec_get(face),
{
}

} // verus!
