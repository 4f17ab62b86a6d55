use vstd::prelude::*;
use vstd::string::StrSliceExecFns;
use vstd::string::StringExecFns;
use crate::atlas::{AtlasCell, FaceCells};
use crate::format::{regex_is_match, LineFormat};
use crate::kind::{kind_of_name, Kind};
use crate::mapping::TextureMapping;
use crate::text::{
    byte_of, chars_of, copy_range, find_from, first_index, line_spans, lines_of, parse_byte, split,
    split_chars, span_texts,
};

verus! {

/// What a line of a mapping file turned out to be.
#[derive(Clone, Copy, PartialEq, Eq, Structural, Debug)]
pub enum Reading {
    /// A record: the cells of the six faces of one kind.
    Record(Kind, FaceCells),
    /// Not a record: the line does not have the shape of one, or one of its
    /// numbers does not fit a byte.
    Malformed,
    /// A record in shape, but for an identifier that names no kind.
    UnknownKind,
}

/// Why a line of a mapping file was skipped.
#[derive(Clone, Copy, PartialEq, Eq, Structural, Debug)]
pub enum Reason {
    /// The line is not a record.
    Malformed,
    /// The line is a record for an identifier that names no kind.
    UnknownKind,
}

/// A note on one line of a mapping file that was skipped.
#[derive(Clone, Debug)]
pub struct Diagnostic {
    /// The number of the line in the file, counted from one.
    pub line: usize,
    pub reason: Reason,
    /// The text in question: the whole line if it is malformed, the
    /// identifier if that names no kind.
    pub text: String,
}

/// A [`Diagnostic`] with its text as a sequence of characters.
pub struct DiagnosticView {
    pub line: nat,
    pub reason: Reason,
    pub text: Seq<char>,
}

impl View for Diagnostic {
    type V = DiagnosticView;

    open spec fn view(&self) -> DiagnosticView {
        DiagnosticView { line: self.line as nat, reason: self.reason, text: self.text@ }
    }
}

/// The result of reading a mapping file: the mapping built from its
/// records and a note on every line that was skipped, in file order.
pub struct ParseReport {
    pub mapping: TextureMapping,
    pub diagnostics: Vec<Diagnostic>,
}

/// A [`ParseReport`] as mathematical values.
pub struct ParseReportView {
    pub mapping: Map<Kind, FaceCells>,
    pub diagnostics: Seq<DiagnosticView>,
}

/// The views of a list of diagnostics.
pub open spec fn diagnostic_views(diagnostics: Seq<Diagnostic>) -> Seq<DiagnosticView> {
    Seq::new(diagnostics.len(), |i: int| diagnostics[i]@)
}

impl View for ParseReport {
    type V = ParseReportView;

    open spec fn view(&self) -> ParseReportView {
        ParseReportView {
            mapping: self.mapping@,
            diagnostics: diagnostic_views(self.diagnostics@),
        }
    }
}

/// The cell written as `field`: two bytes in decimal, column then row,
/// with one comma between them.
pub open spec fn cell_in(field: Seq<char>) -> Option<AtlasCell> {
    let parts = split(field, ',');
    if parts.len() == 2 && byte_of(parts[0]) is Some && byte_of(parts[1]) is Some {
        Some(AtlasCell { column: byte_of(parts[0])->0, row: byte_of(parts[1])->0 })
    } else {
        None
    }
}

/// The cells written as `s`: six cells with one semicolon between each two,
/// in the order front, back, right, left, top, bottom.
pub open spec fn cells_in(s: Seq<char>) -> Option<FaceCells> {
    let fields = split(s, ';');
    if fields.len() == 6 && (forall|i: int|
        0 <= i < 6 ==> (#[trigger] cell_in(fields[i])) is Some) {
        Some(
            FaceCells {
                front: cell_in(fields[0])->0,
                back: cell_in(fields[1])->0,
                right: cell_in(fields[2])->0,
                left: cell_in(fields[3])->0,
                top: cell_in(fields[4])->0,
                bottom: cell_in(fields[5])->0,
            },
        )
    } else {
        None
    }
}

/// The identifier of a line: the text before its first colon.
pub open spec fn identifier_of(line: Seq<char>) -> Seq<char> {
    line.take(first_index(line, ':'))
}

/// How a line that is not empty reads, given whether the format's regular
/// expression matched it.
///
/// A line that the expression did not match is malformed. On a line that it
/// matched, the identifier is looked up first: if it names no kind, the line
/// is reported for that, whatever its numbers. Else the six cells after the
/// colon are read, and the line is malformed if one of them is not two
/// bytes.
pub open spec fn reading_of(line: Seq<char>, matched: bool) -> Reading {
    let colon = first_index(line, ':');
    if !matched || !(0 <= colon < line.len()) {
        Reading::Malformed
    } else {
        match kind_of_name(identifier_of(line)) {
            None => Reading::UnknownKind,
            Some(kind) => match cells_in(line.skip(colon + 1)) {
                Some(cells) => Reading::Record(kind, cells),
                None => Reading::Malformed,
            },
        }
    }
}

/// What reading `lines` in order gives, under the format compiled from
/// `pattern`.
///
/// Empty lines are passed over. A record gives its kind the cells it lists,
/// in place of any that an earlier record gave. Every other line adds a
/// diagnostic with its line number and leaves the mapping as it is.
pub open spec fn parsed(pattern: Seq<char>, lines: Seq<Seq<char>>) -> ParseReportView
    decreases lines.len(),
{
    if lines.len() == 0 {
        ParseReportView { mapping: Map::empty(), diagnostics: Seq::empty() }
    } else {
        let before = parsed(pattern, lines.drop_last());
        let line = lines.last();
        if line.len() == 0 {
            before
        } else {
            match reading_of(line, regex_is_match(pattern, line)) {
                Reading::Record(kind, cells) => ParseReportView {
                    mapping: before.mapping.insert(kind, cells),
                    diagnostics: before.diagnostics,
                },
                Reading::Malformed => ParseReportView {
                    mapping: before.mapping,
                    diagnostics: before.diagnostics.push(
                        DiagnosticView {
                            line: lines.len(),
                            reason: Reason::Malformed,
                            text: line,
                        },
                    ),
                },
                Reading::UnknownKind => ParseReportView {
                    mapping: before.mapping,
                    diagnostics: before.diagnostics.push(
                        DiagnosticView {
                            line: lines.len(),
                            reason: Reason::UnknownKind,
                            text: identifier_of(line),
                        },
                    ),
                },
            }
        }
    }
}

/// Reads one cell.
pub fn read_cell(field: &[char]) -> (cell: Option<AtlasCell>)
    ensures
        cell == cell_in(field@),
{
    let parts = split_chars(field, ',');
    if parts.len() != 2 {
        return None;
    }
    let column = match parse_byte(parts[0].as_slice()) {
        Some(byte) => byte,
        None => { return None; },
    };
    let row = match parse_byte(parts[1].as_slice()) {
        Some(byte) => byte,
        None => { return None; },
    };
    Some(AtlasCell { column, row })
}

/// Reads the six cells of a record.
pub fn read_cells(s: &[char]) -> (cells: Option<FaceCells>)
    ensures
        cells == cells_in(s@),
{
    let fields = split_chars(s, ';');
    if fields.len() != 6 {
        return None;
    }
    let front = match read_cell(fields[0].as_slice()) {
        Some(cell) => cell,
        None => { return None; },
    };
    let back = match read_cell(fields[1].as_slice()) {
        Some(cell) => cell,
        None => { return None; },
    };
    let right = match read_cell(fields[2].as_slice()) {
        Some(cell) => cell,
        None => { return None; },
    };
    let left = match read_cell(fields[3].as_slice()) {
        Some(cell) => cell,
        None => { return None; },
    };
    let top = match read_cell(fields[4].as_slice()) {
        Some(cell) => cell,
        None => { return None; },
    };
    let bottom = match read_cell(fields[5].as_slice()) {
        Some(cell) => cell,
        None => { return None; },
    };
    Some(FaceCells::from_ordered([front, back, right, left, top, bottom]))
}

/// Reads one line that is not empty, given whether the format's regular
/// expression matched it.
pub fn read_line(line: &[char], matched: bool) -> (reading: Reading)
    ensures
        reading == reading_of(line@, matched),
{
    if !matched {
        return Reading::Malformed;
    }
    let colon: usize = find_from(line, 0, ':');
    assert(line@.skip(0) =~= line@);
    if colon == line.len() {
        return Reading::Malformed;
    }
    let identifier = copy_range(line, 0, colon);
    match Kind::from_chars(identifier.as_slice()) {
        None => Reading::UnknownKind,
        Some(kind) => {
            let rest = copy_range(line, colon + 1, line.len());
            match read_cells(rest.as_slice()) {
                Some(cells) => Reading::Record(kind, cells),
                None => Reading::Malformed,
            }
        },
    }
}

/// Reads a mapping file from its text.
///
/// Each line of `content` that is not empty is given to the format's
/// regular expression and then read by [`read_line`]. Reading never fails as
/// a whole: a line that cannot be used is reported in the result and the
/// next line is read as if it had not been there.
pub fn parse_texture_mapping(format: &LineFormat, content: &str) -> (report: ParseReport)
    ensures
        report@ == parsed(format@, lines_of(content@)),
{
    let chars = chars_of(content);
    let spans = line_spans(chars.as_slice());
    let ghost lines = lines_of(content@);
    let mut mapping = TextureMapping::new();
    let mut diagnostics: Vec<Diagnostic> = Vec::new();
    let mut i: usize = 0;
    while i < spans.len()
        invariant
            i <= spans@.len(),
            chars@ == content@,
            lines == lines_of(content@),
            span_texts(chars@, spans@) == lines,
            forall|k: int|
                0 <= k < spans@.len() ==> (#[trigger] spans@[k]).0 <= spans@[k].1 <= chars@.len(),
            spans@.len() <= chars@.len(),
            mapping@ == parsed(format@, lines.take(i as int)).mapping,
            diagnostic_views(diagnostics@) == parsed(format@, lines.take(i as int)).diagnostics,
        decreases spans@.len() - i,
    {
        let (start, end) = spans[i];
        let ghost line = lines[i as int];
        proof {
            assert(lines.take(i + 1).drop_last() =~= lines.take(i as int));
        }
        if start < end {
            let text: &str = content.substring_char(start, end);
            let line_chars = copy_range(chars.as_slice(), start, end);
            let matched = format.is_match(text);
            match read_line(line_chars.as_slice(), matched) {
                Reading::Record(kind, cells) => {
                    mapping.insert(kind, cells);
                },
                Reading::Malformed => {
                    diagnostics.push(
                        Diagnostic {
                            line: i + 1,
                            reason: Reason::Malformed,
                            text: text.to_owned(),
                        },
                    );
                },
                Reading::UnknownKind => {
                    let colon: usize = find_from(line_chars.as_slice(), 0, ':');
                    assert(line.skip(0) =~= line);
                    let identifier: &str = content.substring_char(start, start + colon);
                    assert(content@.subrange(start as int, start + colon) =~= identifier_of(line));
                    diagnostics.push(
                        Diagnostic {
                            line: i + 1,
                            reason: Reason::UnknownKind,
                            text: identifier.to_owned(),
                        },
                    );
                },
            }
        }
        i += 1;
    }
    assert(lines.take(i as int) =~= lines);
    ParseReport { mapping, diagnostics }
}

impl Diagnostic {
    /// The warning to show for this diagnostic.
    pub fn message(&self) -> (message: String)
        ensures
            message@ == "warning: '"@ + self.text@ + match self.reason {
                Reason::Malformed => "' did not match texture mapping format"@,
                Reason::UnknownKind => "' does not exist"@,
            },
    {
        let mut message = String::from_str("warning: '");
        message.append(self.text.as_str());
        match self.reason {
            Reason::Malformed => message.append("' did not match texture mapping format"),
            Reason::UnknownKind => message.append("' does not exist"),
        }
        message
    }
}

/// Whether reading `line` under `pattern` gives a record.
pub open spec fn is_record(pattern: Seq<char>, line: Seq<char>) -> bool {
    line.len() > 0 && reading_of(line, regex_is_match(pattern, line)) is Record
}

/// Whether reading `line` under `pattern` gives a record for `kind`.
pub open spec fn is_record_of(pattern: Seq<char>, line: Seq<char>, kind: Kind) -> bool {
    is_record(pattern, line) && reading_of(line, regex_is_match(pattern, line))->Record_0 == kind
}

/// The cells of the record that `line` reads as.
pub open spec fn record_cells(pattern: Seq<char>, line: Seq<char>) -> FaceCells {
    reading_of(line, regex_is_match(pattern, line))->Record_1
}

/// Reading the same text twice gives the same mapping, kind by kind and
/// face by face, and the same diagnostics, also with two formats compiled
/// from one pattern.
pub proof fn lemma_parsing_twice_agrees(
    first_format: LineFormat,
    second_format: LineFormat,
    content: Seq<char>,
    first: ParseReport,
    second: ParseReport,
)
    requires
        first_format@ == second_format@,
        first@ == parsed(first_format@, lines_of(content)),
        second@ == parsed(second_format@, lines_of(content)),
    ensures
        first.mapping@ == second.mapping@,
        first@.diagnostics == second@.diagnostics,
        forall|kind: Kind|
            first.mapping@.contains_key(kind) == second.mapping@.contains_key(kind),
        forall|kind: Kind, face: crate::face::Face|
            first.mapping@.contains_key(kind) ==> first.mapping@[kind].spec_get(face)
                == second.mapping@[kind].spec_get(face),
{
}

/// A line that is not a record leaves no trace in the mapping: the lines
/// before it and after it give the same mapping with it as without it.
pub proof fn lemma_skipped_line_changes_nothing(
    pattern: Seq<char>,
    before: Seq<Seq<char>>,
    line: Seq<char>,
    after: Seq<Seq<char>>,
)
    requires
        !is_record(pattern, line),
    ensures
        parsed(pattern, before.push(line) + after).mapping == parsed(
            pattern,
            before + after,
        ).mapping,
    decreases after.len(),
{
    if after.len() == 0 {
        assert(before.push(line).drop_last() =~= before);
    } else {
        lemma_skipped_line_changes_nothing(pattern, before, line, after.drop_last());
        assert((before.push(line) + after).drop_last() =~= before.push(line) + after.drop_last());
        assert((before + after).drop_last() =~= before + after.drop_last());
    }
}

/// A kind is in the mapping exactly if some line is a record of it, and its
/// cells are those of the last such line.
pub proof fn lemma_last_record_wins(pattern: Seq<char>, lines: Seq<Seq<char>>, kind: Kind)
    ensures
        parsed(pattern, lines).mapping.contains_key(kind) <==> exists|i: int|
            0 <= i < lines.len() && is_record_of(pattern, #[trigger] lines[i], kind),
        forall|i: int|
            0 <= i < lines.len() && is_record_of(pattern, #[trigger] lines[i], kind) && (forall|
                j: int,
            |
                i < j < lines.len() ==> !is_record_of(pattern, #[trigger] lines[j], kind))
                ==> parsed(pattern, lines).mapping[kind] == record_cells(pattern, lines[i]),
    decreases lines.len(),
{
    if lines.len() > 0 {
        let front = lines.drop_last();
        let last = lines.len() - 1;
        lemma_last_record_wins(pattern, front, kind);
        assert(forall|i: int| 0 <= i < last ==> front[i] == lines[i]);
        if !is_record_of(pattern, lines[last], kind) {
            if parsed(pattern, front).mapping.contains_key(kind) {
                let i = choose|i: int|
                    0 <= i < front.len() && is_record_of(pattern, #[trigger] front[i], kind);
                assert(is_record_of(pattern, lines[i], kind));
            }
            assert forall|i: int|
                0 <= i < lines.len() && is_record_of(pattern, #[trigger] lines[i], kind) && (
                forall|j: int|
                    i < j < lines.len() ==> !is_record_of(
                        pattern,
                        #[trigger] lines[j],
                        kind,
                    )) implies parsed(pattern, lines).mapping[kind] == record_cells(
                pattern,
                lines[i],
            ) by {
                assert forall|j: int| i < j < front.len() implies !is_record_of(
                    pattern,
                    #[trigger] front[j],
                    kind,
                ) by {}
            }
        }
    }
}

/// Every diagnostic is about a line that is neither empty nor a record, and
/// says how that line read; diagnostics stand in the order of their lines,
/// at most one to a line.
pub proof fn lemma_diagnostics_name_skipped_lines(pattern: Seq<char>, lines: Seq<Seq<char>>)
    ensures
        forall|k: int|
            0 <= k < parsed(pattern, lines).diagnostics.len() ==> {
                let d = #[trigger] parsed(pattern, lines).diagnostics[k];
                let line = lines[d.line - 1];
                &&& 1 <= d.line <= lines.len()
                &&& line.len() > 0
                &&& match reading_of(line, regex_is_match(pattern, line)) {
                    Reading::Record(_, _) => false,
                    Reading::Malformed => d.reason == Reason::Malformed && d.text == line,
                    Reading::UnknownKind => d.reason == Reason::UnknownKind && d.text
                        == identifier_of(line),
                }
            },
        forall|j: int, k: int|
            0 <= j < k < parsed(pattern, lines).diagnostics.len() ==> (
            #[trigger] parsed(pattern, lines).diagnostics[j]).line < (#[trigger] parsed(
                pattern,
                lines,
            ).diagnostics[k]).line,
    decreases lines.len(),
{
    if lines.len() > 0 {
        let front = lines.drop_last();
        lemma_diagnostics_name_skipped_lines(pattern, front);
        let earlier = parsed(pattern, front).diagnostics;
        let all = parsed(pattern, lines).diagnostics;
        assert forall|k: int| 0 <= k < all.len() implies {
            let d = #[trigger] all[k];
            let line = lines[d.line - 1];
            &&& 1 <= d.line <= lines.len()
            &&& line.len() > 0
            &&& match reading_of(line, regex_is_match(pattern, line)) {
                Reading::Record(_, _) => false,
                Reading::Malformed => d.reason == Reason::Malformed && d.text == line,
                Reading::UnknownKind => d.reason == Reason::UnknownKind && d.text == identifier_of(
                    line,
                ),
            }
        } by {}
        assert forall|j: int, k: int| 0 <= j < k < all.len() implies (#[trigger] all[j]).line < (
        #[trigger] all[k]).line by {}
    }
}

/// Every line that is neither empty nor a record has a diagnostic.
pub proof fn lemma_skipped_lines_have_diagnostics(
    pattern: Seq<char>,
    lines: Seq<Seq<char>>,
    i: int,
)
    requires
        0 <= i < lines.len(),
        lines[i].len() > 0,
        !is_record(pattern, lines[i]),
    ensures
        exists|k: int|
            0 <= k < parsed(pattern, lines).diagnostics.len() && (#[trigger] parsed(
                pattern,
                lines,
            ).diagnostics[k]).line == i + 1,
    decreases lines.len(),
{
    let front = lines.drop_last();
    let all = parsed(pattern, lines).diagnostics;
    let earlier = parsed(pattern, front).diagnostics;
    if i == lines.len() - 1 {
        assert(all[all.len() - 1].line == i + 1);
    } else {
        lemma_skipped_lines_have_diagnostics(pattern, front, i);
        let k = choose|k: int| 0 <= k < earlier.len() && (#[trigger] earlier[k]).line == i + 1;
        assert(all[k] == earlier[k]);
    }
}

} // verus!
