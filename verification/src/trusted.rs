//! The library's contact points with outside code: the `regex` and
//! `serde_json` crates, and a few std functions that vstd leaves without a
//! specification. Each item states what the outside code's documentation
//! or source says of it.

use vstd::prelude::*;

verus! {

#[verifier::external_type_specification]
#[verifier::external_body]
pub struct ExRegex(regex::Regex);

#[verifier::external_type_specification]
#[verifier::external_body]
pub struct ExRegexError(regex::Error);

#[verifier::external_type_specification]
#[verifier::external_body]
pub struct ExJsonError(serde_json::Error);

/// Whether `regex::Regex::new` accepts `pattern` (a valid pattern whose
/// compiled form stays within the default size limit).
pub uninterp spec fn regex_compiles(pattern: Seq<char>) -> bool;

/// What `regex::Regex::is_match` answers for a regex compiled from `pattern`
/// on `haystack`: whether the regex matches anywhere in it.
pub uninterp spec fn regex_is_match(pattern: Seq<char>, haystack: Seq<char>) -> bool;

/// The lower-case hexadecimal digit of `d`, for `d` below 16.
pub open spec fn hex_digit(d: nat) -> char {
    if d < 10 {
        ((d + 48) as u8) as char
    } else {
        ((d + 87) as u8) as char
    }
}

/// How `serde_json` writes one character inside a JSON string: the quote
/// and the backslash behind a backslash; backspace, tab, line feed, form
/// feed and carriage return as `\b`, `\t`, `\n`, `\f`, `\r`; the other
/// characters below U+0020 as `\u00` and two lower-case hex digits; every
/// other character as it is.
pub open spec fn json_escape_char(c: char) -> Seq<char> {
    if c == '"' {
        seq!['\\', '"']
    } else if c == '\\' {
        seq!['\\', '\\']
    } else if c == '\u{8}' {
        seq!['\\', 'b']
    } else if c == '\t' {
        seq!['\\', 't']
    } else if c == '\n' {
        seq!['\\', 'n']
    } else if c == '\u{c}' {
        seq!['\\', 'f']
    } else if c == '\r' {
        seq!['\\', 'r']
    } else if (c as u32) < 0x20 {
        seq![
            '\\',
            'u',
            '0',
            '0',
            hex_digit((c as u32 / 16) as nat),
            hex_digit((c as u32 % 16) as nat),
        ]
    } else {
        seq![c]
    }
}

/// The characters of `s`, each escaped by `json_escape_char`.
pub open spec fn json_escape(s: Seq<char>) -> Seq<char>
    decreases s.len(),
{
    if s.len() == 0 {
        Seq::empty()
    } else {
        json_escape(s.drop_last()) + json_escape_char(s.last())
    }
}

/// The JSON text that `serde_json::to_string` gives for a string value: the
/// escaped string between double quotes.
pub open spec fn json_str(s: Seq<char>) -> Seq<char> {
    seq!['"'] + json_escape(s) + seq!['"']
}

/// What `char::is_whitespace` answers: whether `c` has the Unicode
/// `White_Space` property, which holds exactly of U+0009 to U+000D, U+0020,
/// U+0085, U+00A0, U+1680, U+2000 to U+200A, U+2028, U+2029, U+202F, U+205F
/// and U+3000.
pub open spec fn char_is_white_space(c: char) -> bool {
    let u = c as u32;
    ||| 0x9 <= u <= 0xd
    ||| u == 0x20
    ||| u == 0x85
    ||| u == 0xa0
    ||| u == 0x1680
    ||| 0x2000 <= u <= 0x200a
    ||| u == 0x2028
    ||| u == 0x2029
    ||| u == 0x202f
    ||| u == 0x205f
    ||| u == 0x3000
}

/// Whether `c` is an ASCII letter or digit, `_` or `-`.
pub open spec fn is_name_char(c: char) -> bool {
    ||| 'a' <= c && c <= 'z'
    ||| 'A' <= c && c <= 'Z'
    ||| '0' <= c && c <= '9'
    ||| c == '_'
    ||| c == '-'
}

/// Whether `s` is one or more characters, each an ASCII letter or digit,
/// `_` or `-`: what the regex `^[a-zA-Z0-9_-]+$` matches.
pub open spec fn all_name_chars(s: Seq<char>) -> bool {
    s.len() > 0 && forall|i: int| 0 <= i < s.len() ==> #[trigger] is_name_char(s[i])
}

/// What `format!("{:?}", s)` prints for a string slice: the string quoted,
/// with its special characters escaped.
pub uninterp spec fn str_debug(s: Seq<char>) -> Seq<char>;

/// A regex together with the pattern that it was compiled from. Only
/// `compile_pattern` builds one, so `source` is always the pattern of `regex`.
pub struct CompiledPattern {
    regex: regex::Regex,
    source: String,
}

impl CompiledPattern {
    /// The pattern that the regex was compiled from.
    pub closed spec fn source(&self) -> Seq<char> {
        self.source@
    }
}

/// Calls `regex::Regex::new`. Its documentation: an error is returned for an
/// invalid pattern or for one whose regex exceeds the default size limit; the
/// contract names that condition `regex_compiles` and keeps the pattern. The
/// pattern `^[a-zA-Z0-9_-]+$` is valid and small, so it compiles.
#[verifier::external_body]
pub(crate) fn compile_pattern(pattern: &str) -> (res: Result<CompiledPattern, regex::Error>)
    ensures
        res is Ok <==> regex_compiles(pattern@),
        res matches Ok(p) ==> p.source() == pattern@,
        pattern@ == "^[a-zA-Z0-9_-]+$"@ ==> res is Ok,
{
    match regex::Regex::new(pattern) {
        Ok(regex) => Ok(CompiledPattern { regex, source: pattern.to_string() }),
        Err(e) => Err(e),
    }
}

/// Calls `regex::Regex::is_match` on the compiled regex; its answer is named
/// `regex_is_match` of the source pattern and the haystack. For the pattern
/// `^[a-zA-Z0-9_-]+$` (`^` and `$` match only at the ends of the haystack,
/// the class holds exactly its ASCII ranges and two characters) it is
/// `all_name_chars` of the haystack.
#[verifier::external_body]
pub(crate) fn pattern_is_match(pattern: &CompiledPattern, haystack: &str) -> (res: bool)
    ensures
        res == regex_is_match(pattern.source(), haystack@),
        pattern.source() == "^[a-zA-Z0-9_-]+$"@ ==> (res <==> all_name_chars(haystack@)),
{
    pattern.regex.is_match(haystack)
}

/// A string without quotes, backslashes or control characters is written
/// as it is, between double quotes.
pub proof fn lemma_json_str_plain(s: Seq<char>)
    requires
        forall|i: int|
            0 <= i < s.len() ==> #[trigger] s[i] != '"' && s[i] != '\\' && (s[i] as u32) >= 0x20,
    ensures
        json_str(s) == seq!['"'] + s + seq!['"'],
{
    lemma_json_escape_plain(s);
}

proof fn lemma_json_escape_plain(s: Seq<char>)
    requires
        forall|i: int|
            0 <= i < s.len() ==> #[trigger] s[i] != '"' && s[i] != '\\' && (s[i] as u32) >= 0x20,
    ensures
        json_escape(s) == s,
    decreases s.len(),
{
    if s.len() > 0 {
        let p = s.drop_last();
        assert forall|i: int| 0 <= i < p.len() implies #[trigger] p[i] != '"' && p[i] != '\\' && (
        p[i] as u32) >= 0x20 by {
            assert(p[i] == s[i]);
        }
        lemma_json_escape_plain(p);
        assert(s[s.len() - 1] == s.last());
        assert(json_escape(s) =~= s);
    }
}

/// Calls `serde_json::to_string` on a string slice. Its documentation says
/// serialization fails only when the value's `Serialize` impl fails or a map
/// has non-string keys, neither of which a `str` can do. A string goes
/// through `format_escaped_str`, whose escape table `json_str` states.
#[verifier::external_body]
pub(crate) fn json_encode_str(s: &str) -> (res: Result<String, serde_json::Error>)
    ensures
        res is Ok,
        res matches Ok(t) ==> t@ == json_str(s@),
{
    serde_json::to_string(s)
}

/// Calls `format!("{:?}", s)` for a string slice; the text is named
/// `str_debug`.
#[verifier::external_body]
pub(crate) fn debug_str(s: &str) -> (res: String)
    ensures
        res@ == str_debug(s@),
{
    format!("{:?}", s)
}

/// `char::is_whitespace` tests the Unicode `White_Space` property
/// (Unicode's PropList, to which the documentation refers), whose
/// characters `char_is_white_space` lists.
pub assume_specification[ char::is_whitespace ](c: char) -> (res: bool)
    ensures
        res == char_is_white_space(c),
;

/// `String::push` appends one character at the end of the string.
pub assume_specification[ String::push ](s: &mut String, ch: char)
    ensures
        final(s)@ == old(s)@.push(ch),
;

} // verus!

verus! {

/// Calls `Arc::clone`. Its documentation: the clone is another pointer to
/// the same allocation, so it points to the same value.
#[verifier::external_body]
pub(crate) fn arc_clone<T>(a: &std::sync::Arc<T>) -> (res: std::sync::Arc<T>)
    ensures
        res == *a,
{
    std::sync::Arc::clone(a)
}

} // verus!
