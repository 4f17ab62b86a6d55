use vstd::prelude::*;
use crate::atlas::{AtlasCell, FaceCells};
use crate::kind::{kind_name, lemma_kind_names_round_trip, lemma_kind_names_spelled, Kind};
use crate::parser::{cell_in, cells_in, identifier_of, reading_of, Reading};
use crate::text::{
    byte_of, first_index, is_numeral, join, lacks, lemma_first_index, lemma_first_index_is,
    lemma_join_lacks, lemma_join_undoes_split, lemma_split_undoes_join, numeral_value, split,
};

verus! {

/// The character that writes the digit `d`.
pub open spec fn digit_char(d: nat) -> char
    recommends
        d < 10,
{
    ('0' as int + d) as char
}

/// The decimal numeral of `n`, without leading zeros.
pub open spec fn decimal(n: nat) -> Seq<char>
    decreases n,
{
    if n < 10 {
        seq![digit_char(n)]
    } else {
        decimal(n / 10).push(digit_char(n % 10))
    }
}

/// How a cell is written in a mapping file: column, comma, row.
pub open spec fn cell_text(cell: AtlasCell) -> Seq<char> {
    join(seq![decimal(cell.column as nat), decimal(cell.row as nat)], ',')
}

/// How the record of `kind` with the cells `cells` is written in a mapping
/// file: the identifier of the kind, a colon, and the six cells in face
/// order with semicolons between them.
pub open spec fn record_text(kind: Kind, cells: FaceCells) -> Seq<char> {
    kind_name(kind) + seq![':'] + join(
        cells.spec_ordered().map_values(|cell: AtlasCell| cell_text(cell)),
        ';',
    )
}

/// The decimal numeral of a number is a numeral, and its value is the
/// number.
pub proof fn lemma_decimal_is_read_back(n: nat)
    ensures
        is_numeral(decimal(n)),
        numeral_value(decimal(n)) == n,
    decreases n,
{
    if n < 10 {
        assert(numeral_value(decimal(n).drop_last()) == 0);
    } else {
        lemma_decimal_is_read_back(n / 10);
        assert(decimal(n).drop_last() =~= decimal(n / 10));
    }
}

/// Every byte is read back from its decimal numeral.
pub proof fn lemma_byte_is_read_back(byte: u8)
    ensures
        byte_of(decimal(byte as nat)) == Some(byte),
        lacks(decimal(byte as nat), ','),
        lacks(decimal(byte as nat), ';'),
        lacks(decimal(byte as nat), ':'),
{
    lemma_decimal_is_read_back(byte as nat);
}

/// Every cell is read back from its text.
pub proof fn lemma_cell_is_read_back(cell: AtlasCell)
    ensures
        cell_in(cell_text(cell)) == Some(cell),
        lacks(cell_text(cell), ';'),
        lacks(cell_text(cell), ':'),
{
    let pieces = seq![decimal(cell.column as nat), decimal(cell.row as nat)];
    lemma_byte_is_read_back(cell.column);
    lemma_byte_is_read_back(cell.row);
    lemma_split_undoes_join(pieces, ',');
    lemma_join_lacks(pieces, ',', ';');
    lemma_join_lacks(pieces, ',', ':');
}

/// Every record is read back from its text: for every kind and every six
/// cells, the line that writes them reads as the record of that kind with
/// those cells, each cell on the face whose turn it is, provided that the
/// format's regular expression matched the line.
pub proof fn lemma_record_is_read_back(kind: Kind, cells: FaceCells)
    ensures
        reading_of(record_text(kind, cells), true) == Reading::Record(kind, cells),
        reading_of(record_text(kind, cells), false) == Reading::Malformed,
{
    let name = kind_name(kind);
    let texts = cells.spec_ordered().map_values(|cell: AtlasCell| cell_text(cell));
    let body = join(texts, ';');
    let line = record_text(kind, cells);
    lemma_kind_names_round_trip();
    lemma_kind_names_spelled();
    assert forall|i: int| 0 <= i < texts.len() implies lacks(#[trigger] texts[i], ';') && cell_in(
        texts[i],
    ) == Some(cells.spec_ordered()[i]) by {
        lemma_cell_is_read_back(cells.spec_ordered()[i]);
    }
    lemma_split_undoes_join(texts, ';');
    lemma_first_index_is(line, ':', name.len() as int);
    assert(identifier_of(line) =~= name);
    assert(line.skip(name.len() as int + 1) =~= body);
}

/// Only a record in shape reads as a record: the format's regular
/// expression matched the line, the text before the first colon is the
/// identifier of the kind, and the text after it is six fields joined by
/// semicolons, each field two numerals joined by a comma that write the
/// column and the row of that face's cell. A line with five cells or seven,
/// or with a cell that is no pair of bytes, is therefore no record.
pub proof fn lemma_only_records_read_as_records(line: Seq<char>, matched: bool)
    requires
        reading_of(line, matched) is Record,
    ensures
        matched,
        ({
            let kind = reading_of(line, matched)->Record_0;
            let cells = reading_of(line, matched)->Record_1;
            let fields = split(line.skip(first_index(line, ':') + 1), ';');
            &&& line == kind_name(kind) + seq![':'] + join(fields, ';')
            &&& fields.len() == 6
            &&& forall|i: int|
                0 <= i < 6 ==> {
                    let numerals = split(#[trigger] fields[i], ',');
                    &&& fields[i] == join(numerals, ',')
                    &&& numerals.len() == 2
                    &&& byte_of(numerals[0]) == Some(cells.spec_ordered()[i].column)
                    &&& byte_of(numerals[1]) == Some(cells.spec_ordered()[i].row)
                }
        }),
{
    let colon = first_index(line, ':');
    let body = line.skip(colon + 1);
    let fields = split(body, ';');
    lemma_kind_names_round_trip();
    lemma_first_index(line, ':');
    lemma_join_undoes_split(body, ';');
    assert forall|i: int| 0 <= i < 6 implies {
        let numerals = split(#[trigger] fields[i], ',');
        fields[i] == join(numerals, ',')
    } by {
        lemma_join_undoes_split(fields[i], ',');
    }
    assert forall|i: int| 0 <= i < 6 implies (#[trigger] cell_in(fields[i])) == Some(
        reading_of(line, matched)->Record_1.spec_ordered()[i],
    ) by {}
}

} // verus!
