//! The two regular expressions of the user form, compiled and matched with
//! the `regex` crate.
use vstd::prelude::*;

verus! {

#[verifier::external_type_specification]
#[verifier::external_body]
pub struct ExRegex(regex::Regex);

#[verifier::external_type_specification]
#[verifier::external_body]
pub struct ExRegexError(regex::Error);

/// The pattern that finds an ASCII capital letter anywhere in a username.
pub const UPPERCASE_PATTERN: &'static str = "[A-Z]";

/// The pattern that a hostname must match as a whole: ASCII letters,
/// digits and dots only (the empty text matches too).
pub const HOSTNAME_PATTERN: &'static str = "^[A-Za-z0-9\\.]*$";

/// Whether `regex::Regex::new` accepts a pattern.
pub uninterp spec fn regex_compiles(pattern: Seq<char>) -> bool;

/// What `regex::Regex::is_match` answers for a regex compiled from
/// `pattern` and a haystack.
pub uninterp spec fn regex_is_match(pattern: Seq<char>, haystack: Seq<char>) -> bool;

/// An ASCII capital letter.
pub open spec fn is_ascii_upper(c: char) -> bool {
    'A' <= c <= 'Z'
}

/// Some character of `s` is an ASCII capital letter.
pub open spec fn has_ascii_upper(s: Seq<char>) -> bool {
    exists|i: int| 0 <= i < s.len() && is_ascii_upper(#[trigger] s[i])
}

/// A character that may stand in a hostname: ASCII letter, digit or dot.
pub open spec fn is_hostname_char(c: char) -> bool {
    ||| 'A' <= c <= 'Z'
    ||| 'a' <= c <= 'z'
    ||| '0' <= c <= '9'
    ||| c == '.'
}

/// Every character of `s` may stand in a hostname.
pub open spec fn all_hostname_chars(s: Seq<char>) -> bool {
    forall|i: int| 0 <= i < s.len() ==> is_hostname_char(#[trigger] s[i])
}

/// A regex together with the pattern it was compiled from. Only
/// `regex_new` builds one, so `source` is always the pattern of `regex`.
struct CompiledPattern {
    source: String,
    regex: regex::Regex,
}

impl CompiledPattern {
    /// The pattern this regex was compiled from.
    spec fn source(&self) -> Seq<char> {
        self.source@
    }
}

/// Calls `regex::Regex::new`. The contract says that the regex keeps the
/// pattern it was made from, that success is what `regex_compiles` names,
/// and, as the crate's syntax documentation gives it, that the two
/// patterns of the user form are valid.
#[verifier::external_body]
fn regex_new(pattern: &str) -> (r: Result<CompiledPattern, regex::Error>)
    ensures
        r is Ok <==> regex_compiles(pattern@),
        r matches Ok(p) ==> p.source() == pattern@,
        pattern@ == UPPERCASE_PATTERN@ ==> r is Ok,
        pattern@ == HOSTNAME_PATTERN@ ==> r is Ok,
{
    match regex::Regex::new(pattern) {
        Ok(re) => Ok(CompiledPattern { source: pattern.to_string(), regex: re }),
        Err(e) => Err(e),
    }
}

/// Calls `regex::Regex::is_match` ("true if and only if there is a match
/// for the regex anywhere in the haystack"). The answer is named; for the
/// two patterns of the user form the contract spells out what the
/// documented syntax means: a character class `[A-Z]` matched anywhere,
/// and `^[A-Za-z0-9\.]*$` anchored at both ends.
#[verifier::external_body]
fn regex_match(p: &CompiledPattern, haystack: &str) -> (r: bool)
    ensures
        r == regex_is_match(p.source(), haystack@),
        p.source() == UPPERCASE_PATTERN@ ==> r == has_ascii_upper(haystack@),
        p.source() == HOSTNAME_PATTERN@ ==> r == all_hostname_chars(haystack@),
{
    p.regex.is_match(haystack)
}

/// Compiles `pattern` and tests it against `haystack`, as the form does
/// on every edit. `None` when the pattern does not compile.
pub fn pattern_matches(pattern: &str, haystack: &str) -> (r: Option<bool>)
    ensures
        r is Some <==> regex_compiles(pattern@),
        r matches Some(b) ==> b == regex_is_match(pattern@, haystack@),
        pattern@ == UPPERCASE_PATTERN@ ==> r == Some(has_ascii_upper(haystack@)),
        pattern@ == HOSTNAME_PATTERN@ ==> r == Some(all_hostname_chars(haystack@)),
{
    match regex_new(pattern) {
        Ok(p) => Some(regex_match(&p, haystack)),
        Err(_) => None,
    }
}

/// Whether the text holds an ASCII capital letter, found with the
/// `[A-Z]` regex.
pub fn has_uppercase(text: &str) -> (r: bool)
    ensures
        r == has_ascii_upper(text@),
{
    match pattern_matches(UPPERCASE_PATTERN, text) {
        Some(b) => b,
        None => false,
    }
}

/// Whether the text is made of hostname characters only, checked with
/// the anchored hostname regex.
pub fn is_hostname_text(text: &str) -> (r: bool)
    ensures
        r == all_hostname_chars(text@),
{
    match pattern_matches(HOSTNAME_PATTERN, text) {
        Some(b) => b,
        None => false,
    }
}

} // verus!
