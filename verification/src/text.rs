use vstd::prelude::*;
use vstd::string::StrSliceExecFns;

verus! {

/// Index of the first `c` in `s`, or the length of `s` if it holds none.
pub open spec fn first_index(s: Seq<char>, c: char) -> int
    decreases s.len(),
{
    if s.len() == 0 || s[0] == c {
        0
    } else {
        1 + first_index(s.skip(1), c)
    }
}

/// The pieces of `s` between occurrences of `separator`. There is always at
/// least one piece; a piece is empty where two separators touch and where
/// one stands first or last.
pub open spec fn split(s: Seq<char>, separator: char) -> Seq<Seq<char>>
    decreases s.len(),
{
    let i = first_index(s, separator);
    if 0 <= i < s.len() {
        seq![s.take(i)] + split(s.skip(i + 1), separator)
    } else {
        seq![s]
    }
}

/// The pieces written one after the other with `separator` between each
/// two.
pub open spec fn join(pieces: Seq<Seq<char>>, separator: char) -> Seq<char>
    decreases pieces.len(),
{
    if pieces.len() == 0 {
        Seq::empty()
    } else if pieces.len() == 1 {
        pieces[0]
    } else {
        pieces[0] + seq![separator] + join(pieces.skip(1), separator)
    }
}

/// No character of `s` is `c`.
pub open spec fn lacks(s: Seq<char>, c: char) -> bool {
    forall|i: int| 0 <= i < s.len() ==> s[i] != c
}

/// `line` without the carriage return at its end, if it has one.
pub open spec fn without_carriage_return(line: Seq<char>) -> Seq<char> {
    if line.len() > 0 && line.last() == '\r' {
        line.drop_last()
    } else {
        line
    }
}

/// The lines of `s`. A line ends at a line feed, or at a carriage return
/// directly followed by a line feed; neither belongs to the line. Text after
/// the last line feed is a line of its own unless it is empty.
pub open spec fn lines_of(s: Seq<char>) -> Seq<Seq<char>>
    decreases s.len(),
{
    let i = first_index(s, '\n');
    if s.len() == 0 {
        seq![]
    } else if 0 <= i < s.len() {
        seq![without_carriage_return(s.take(i))] + lines_of(s.skip(i + 1))
    } else {
        seq![s]
    }
}

pub open spec fn is_digit(c: char) -> bool {
    '0' <= c <= '9'
}

/// The value of the decimal digit `c`.
pub open spec fn digit_value(c: char) -> nat {
    (c as int - '0' as int) as nat
}

/// `s` is a decimal numeral: one or more digits and nothing else.
pub open spec fn is_numeral(s: Seq<char>) -> bool {
    s.len() > 0 && forall|i: int| 0 <= i < s.len() ==> is_digit(#[trigger] s[i])
}

/// The number that the digits of `s` write in base ten. Leading zeros do
/// not count.
pub open spec fn numeral_value(s: Seq<char>) -> nat
    decreases s.len(),
{
    if s.len() == 0 {
        0
    } else {
        10 * numeral_value(s.drop_last()) + digit_value(s.last())
    }
}

/// The byte that `s` writes: `s` must be a decimal numeral of a value up
/// to 255.
pub open spec fn byte_of(s: Seq<char>) -> Option<u8> {
    if is_numeral(s) && numeral_value(s) <= 255 {
        Some(numeral_value(s) as u8)
    } else {
        None
    }
}

/// The texts of a list of character vectors.
pub open spec fn texts(parts: Seq<Vec<char>>) -> Seq<Seq<char>> {
    Seq::new(parts.len(), |i: int| parts[i]@)
}

/// The pieces of `s` that a list of spans cuts out. A span is a pair of a
/// start index and an end index, the end not included.
pub open spec fn span_texts(s: Seq<char>, spans: Seq<(usize, usize)>) -> Seq<Seq<char>> {
    Seq::new(spans.len(), |i: int| s.subrange(spans[i].0 as int, spans[i].1 as int))
}

/// `first_index` is the one index before which `c` does not occur and at
/// which it does, or the length of `s`.
pub proof fn lemma_first_index(s: Seq<char>, c: char)
    ensures
        0 <= first_index(s, c) <= s.len(),
        forall|j: int| 0 <= j < first_index(s, c) ==> s[j] != c,
        first_index(s, c) < s.len() ==> s[first_index(s, c)] == c,
    decreases s.len(),
{
    if s.len() == 0 || s[0] == c {
    } else {
        lemma_first_index(s.skip(1), c);
        assert forall|j: int| 0 <= j < first_index(s, c) implies s[j] != c by {
            if j > 0 {
                assert(s.skip(1)[j - 1] == s[j]);
            }
        }
    }
}

/// An index before which `c` does not occur and at which it does, or the
/// length of `s` if `c` does not occur at all, is `first_index`.
pub proof fn lemma_first_index_is(s: Seq<char>, c: char, i: int)
    requires
        0 <= i <= s.len(),
        forall|j: int| 0 <= j < i ==> s[j] != c,
        i < s.len() ==> s[i] == c,
    ensures
        first_index(s, c) == i,
{
    lemma_first_index(s, c);
}

/// Cutting at the separator undoes joining with the separator, as long as
/// no piece holds the separator itself.
pub proof fn lemma_split_undoes_join(pieces: Seq<Seq<char>>, separator: char)
    requires
        pieces.len() >= 1,
        forall|i: int| 0 <= i < pieces.len() ==> lacks(#[trigger] pieces[i], separator),
    ensures
        split(join(pieces, separator), separator) == pieces,
    decreases pieces.len(),
{
    let joined = join(pieces, separator);
    let first = pieces[0];
    if pieces.len() == 1 {
        lemma_first_index_is(first, separator, first.len() as int);
    } else {
        let rest = pieces.skip(1);
        assert forall|i: int| 0 <= i < rest.len() implies lacks(#[trigger] rest[i], separator) by {}
        lemma_split_undoes_join(rest, separator);
        lemma_first_index_is(joined, separator, first.len() as int);
        assert(joined.take(first.len() as int) =~= first);
        assert(joined.skip(first.len() as int + 1) =~= join(rest, separator));
    }
}

/// Joined pieces hold a character only if one of the pieces or the
/// separator is that character.
pub proof fn lemma_join_lacks(pieces: Seq<Seq<char>>, separator: char, c: char)
    requires
        c != separator,
        forall|i: int| 0 <= i < pieces.len() ==> lacks(#[trigger] pieces[i], c),
    ensures
        lacks(join(pieces, separator), c),
    decreases pieces.len(),
{
    if pieces.len() > 1 {
        let rest = pieces.skip(1);
        assert forall|i: int| 0 <= i < rest.len() implies lacks(#[trigger] rest[i], c) by {}
        lemma_join_lacks(rest, separator, c);
    }
}

/// Joining with the separator undoes cutting at the separator, and no piece
/// that cutting gives holds the separator.
pub proof fn lemma_join_undoes_split(s: Seq<char>, separator: char)
    ensures
        split(s, separator).len() >= 1,
        join(split(s, separator), separator) == s,
        forall|i: int|
            0 <= i < split(s, separator).len() ==> lacks(
                #[trigger] split(s, separator)[i],
                separator,
            ),
    decreases s.len(),
{
    let i = first_index(s, separator);
    lemma_first_index(s, separator);
    if 0 <= i < s.len() {
        let rest = s.skip(i + 1);
        lemma_join_undoes_split(rest, separator);
        let pieces = split(s, separator);
        assert(pieces.skip(1) =~= split(rest, separator));
        assert forall|k: int| 0 <= k < pieces.len() implies lacks(
            #[trigger] pieces[k],
            separator,
        ) by {}
    }
}

/// No line holds a line feed, and there are no more lines than characters.
pub proof fn lemma_lines_hold_no_line_feed(s: Seq<char>)
    ensures
        lines_of(s).len() <= s.len(),
        forall|i: int| 0 <= i < lines_of(s).len() ==> lacks(#[trigger] lines_of(s)[i], '\n'),
    decreases s.len(),
{
    let feed = first_index(s, '\n');
    lemma_first_index(s, '\n');
    if 0 <= feed < s.len() {
        let rest = s.skip(feed + 1);
        lemma_lines_hold_no_line_feed(rest);
        let lines = lines_of(s);
        assert forall|i: int| 0 <= i < lines.len() implies lacks(#[trigger] lines[i], '\n') by {}
    }
}

/// The value of a numeral does not shrink when digits are appended.
pub proof fn lemma_numeral_value_grows(s: Seq<char>, i: int)
    requires
        0 <= i <= s.len(),
    ensures
        numeral_value(s.take(i)) <= numeral_value(s),
    decreases s.len(),
{
    if i == s.len() {
        assert(s.take(i) =~= s);
    } else {
        lemma_numeral_value_grows(s.drop_last(), i);
        assert(s.drop_last().take(i) =~= s.take(i));
    }
}

/// The characters of `s`, in order.
pub fn chars_of(s: &str) -> (chars: Vec<char>)
    ensures
        chars@ == s@,
{
    let mut chars: Vec<char> = Vec::new();
    for c in it: s.chars()
        invariant
            chars@ == it.seq().take(it.index()),
    {
        chars.push(c);
    }
    chars
}

/// Whether `chars` spells `literal`.
pub fn spells(chars: &[char], literal: &str) -> (equal: bool)
    ensures
        equal == (chars@ == literal@),
{
    let length: usize = literal.unicode_len();
    if chars.len() != length {
        return false;
    }
    let mut i: usize = 0;
    while i < length
        invariant
            length == literal@.len(),
            length == chars@.len(),
            i <= length,
            chars@.take(i as int) == literal@.take(i as int),
        decreases length - i,
    {
        if chars[i] != literal.get_char(i) {
            return false;
        }
        i += 1;
    }
    assert(chars@.take(i as int) =~= chars@);
    assert(literal@.take(i as int) =~= literal@);
    true
}

/// A copy of the characters of `s` from index `from` up to `to`.
pub fn copy_range(s: &[char], from: usize, to: usize) -> (piece: Vec<char>)
    requires
        from <= to <= s@.len(),
    ensures
        piece@ == s@.subrange(from as int, to as int),
{
    let mut piece: Vec<char> = Vec::with_capacity(to - from);
    let mut i: usize = from;
    while i < to
        invariant
            from <= i <= to <= s@.len(),
            piece@ == s@.subrange(from as int, i as int),
        decreases to - i,
    {
        piece.push(s[i]);
        i += 1;
    }
    piece
}

/// Index of the first `c` at or after `start`, or the length of `s` if none
/// follows.
pub fn find_from(s: &[char], start: usize, c: char) -> (i: usize)
    requires
        start <= s@.len(),
    ensures
        start <= i <= s@.len(),
        i - start == first_index(s@.skip(start as int), c),
        forall|j: int| start <= j < i ==> s@[j] != c,
        i < s@.len() ==> s@[i as int] == c,
{
    let mut i: usize = start;
    while i < s.len() && s[i] != c
        invariant
            start <= i <= s@.len(),
            forall|j: int| start <= j < i ==> s@[j] != c,
        decreases s@.len() - i,
    {
        i += 1;
    }
    proof {
        let rest = s@.skip(start as int);
        assert forall|j: int| 0 <= j < i - start implies rest[j] != c by {}
        lemma_first_index_is(rest, c, i - start);
    }
    i
}

/// Cuts `s` at every `separator`.
pub fn split_chars(s: &[char], separator: char) -> (parts: Vec<Vec<char>>)
    ensures
        texts(parts@) == split(s@, separator),
        parts@.len() >= 1,
{
    let mut parts: Vec<Vec<char>> = Vec::new();
    let mut start: usize = 0;
    assert(s@.skip(0) =~= s@);
    loop
        invariant_except_break
            start <= s@.len(),
            split(s@, separator) == texts(parts@) + split(s@.skip(start as int), separator),
        ensures
            texts(parts@) == split(s@, separator),
            parts@.len() >= 1,
        decreases s@.len() - start,
    {
        let end: usize = find_from(s, start, separator);
        let ghost rest = s@.skip(start as int);
        parts.push(copy_range(s, start, end));
        assert(rest.take(end - start) =~= s@.subrange(start as int, end as int));
        if end == s.len() {
            break;
        }
        assert(rest.skip(end - start + 1) =~= s@.skip(end + 1));
        start = end + 1;
    }
    parts
}

/// The spans of the lines of `s`, in order.
pub fn line_spans(s: &[char]) -> (spans: Vec<(usize, usize)>)
    ensures
        span_texts(s@, spans@) == lines_of(s@),
        forall|k: int|
            0 <= k < spans@.len() ==> (#[trigger] spans@[k]).0 <= spans@[k].1 <= s@.len(),
        spans@.len() <= s@.len(),
{
    let mut spans: Vec<(usize, usize)> = Vec::new();
    let mut start: usize = 0;
    assert(s@.skip(0) =~= s@);
    while start < s.len()
        invariant
            start <= s@.len(),
            lines_of(s@) == span_texts(s@, spans@) + lines_of(s@.skip(start as int)),
            forall|k: int|
                0 <= k < spans@.len() ==> (#[trigger] spans@[k]).0 <= spans@[k].1 <= s@.len(),
            spans@.len() <= start,
        decreases s@.len() - start,
    {
        let feed: usize = find_from(s, start, '\n');
        let ghost rest = s@.skip(start as int);
        if feed == s.len() {
            spans.push((start, feed));
            start = feed;
        } else {
            let end: usize = if feed > start && s[feed - 1] == '\r' {
                feed - 1
            } else {
                feed
            };
            spans.push((start, end));
            assert(without_carriage_return(rest.take(feed - start)) =~= s@.subrange(
                start as int,
                end as int,
            ));
            assert(rest.skip(feed - start + 1) =~= s@.skip(feed + 1));
            start = feed + 1;
        }
    }
    spans
}

/// Reads a byte written as a decimal numeral.
///
/// Signs, blanks and digits of other scripts are not accepted, and neither
/// is a value above 255, however it is written.
pub fn parse_byte(s: &[char]) -> (byte: Option<u8>)
    ensures
        byte == byte_of(s@),
{
    if s.len() == 0 {
        return None;
    }
    let mut value: u16 = 0;
    let mut i: usize = 0;
    while i < s.len()
        invariant
            i <= s@.len(),
            forall|j: int| 0 <= j < i ==> is_digit(#[trigger] s@[j]),
            value == numeral_value(s@.take(i as int)),
            value <= 255,
        decreases s@.len() - i,
    {
        let c: char = s[i];
        if !('0' <= c && c <= '9') {
            return None;
        }
        let digit: u16 = (c as u32 - '0' as u32) as u16;
        let next: u16 = value * 10 + digit;
        proof {
            assert(s@.take(i + 1).drop_last() =~= s@.take(i as int));
            lemma_numeral_value_grows(s@, i + 1);
        }
        if next > 255 {
            return None;
        }
        value = next;
        i += 1;
    }
    assert(s@.take(i as int) =~= s@);
    Some(value as u8)
}

} // verus!
