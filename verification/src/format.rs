use vstd::prelude::*;
use regex::Regex;

verus! {

/// Makes `regex::Regex`, a compiled regular expression, known to the
/// verifier as a type of which it sees nothing.
#[verifier::external_type_specification]
#[verifier::external_body]
pub struct ExRegex(Regex);

/// Whether `regex::Regex::new` accepts `pattern` as a regular expression.
///
/// Nothing is proved about this function. It only gives a name to the
/// answer of the `regex` crate, which depends on the pattern alone.
pub uninterp spec fn regex_compiles(pattern: Seq<char>) -> bool;

/// Whether the regular expression `pattern` matches somewhere in `haystack`,
/// as `regex::Regex::is_match` answers for the expression compiled from
/// `pattern`.
///
/// Nothing is proved about this function. It only gives a name to the
/// answer of the `regex` crate, which depends on the pattern and the
/// haystack alone.
pub uninterp spec fn regex_is_match(pattern: Seq<char>, haystack: Seq<char>) -> bool;

/// The shape that a record of a mapping file must have, as a regular
/// expression: an identifier, a colon, and six cells separated by
/// semicolons, each cell two numbers separated by a comma.
pub const MAPPING_LINE_PATTERN: &'static str = r"^\w+:(?:\d+,\d+;){5}\d+,\d+$";

/// The characters of [`MAPPING_LINE_PATTERN`].
pub open spec fn mapping_line_pattern() -> Seq<char> {
    MAPPING_LINE_PATTERN@
}

/// A compiled regular expression together with the pattern it was compiled
/// from.
///
/// The only way to make one is [`LineFormat::mapping_file`], so the compiled
/// expression always belongs to the pattern held beside it. The view of a
/// `LineFormat` is that pattern.
pub struct LineFormat {
    pattern: String,
    regex: Regex,
}

impl View for LineFormat {
    type V = Seq<char>;

    closed spec fn view(&self) -> Seq<char> {
        self.pattern@
    }
}

impl LineFormat {
    /// Calls `regex::Regex::new` on `pattern` and keeps the compiled
    /// expression beside a copy of the pattern.
    ///
    /// Trusted: the result is `Some` exactly if the crate accepts the
    /// pattern, and then holds that pattern.
    #[verifier::external_body]
    fn compile(pattern: &str) -> (format: Option<LineFormat>)
        ensures
            format is Some <==> regex_compiles(pattern@),
            format matches Some(f) ==> f@ == pattern@,
    {
        match Regex::new(pattern) {
            Ok(regex) => Some(LineFormat { pattern: pattern.to_owned(), regex }),
            Err(_) => None,
        }
    }

    /// Calls `regex::Regex::is_match` on the compiled expression.
    ///
    /// Trusted: the answer is the one that the crate gives for this pattern
    /// and this haystack, whenever it is asked.
    #[verifier::external_body]
    pub(crate) fn is_match(&self, haystack: &str) -> (matched: bool)
        ensures
            matched == regex_is_match(self@, haystack@),
    {
        self.regex.is_match(haystack)
    }

    /// The format of a mapping file's records.
    ///
    /// Returns `None` if the regular-expression engine refuses the pattern.
    pub fn mapping_file() -> (format: Option<LineFormat>)
        ensures
            format is Some <==> regex_compiles(mapping_line_pattern()),
            format matches Some(f) ==> f@ == mapping_line_pattern(),
    {
        LineFormat::compile(MAPPING_LINE_PATTERN)
    }

    /// The pattern that this format was compiled from.
    pub fn pattern(&self) -> (pattern: &str)
        ensures
            pattern@ == self@,
    {
        self.pattern.as_str()
    }
}

} // verus!
