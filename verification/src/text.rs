//! Text helpers on entry contents: character classes, case mapping,
//! the byte limit of form fields, suffix trimming and substring search.
use vstd::prelude::*;
use vstd::utf8::*;
use vstd::string::*;

verus! {

broadcast use vstd::utf8::encode_utf8_decode_utf8, vstd::utf8::encode_utf8_valid_utf8;

/// The largest number of UTF-8 bytes a text field of the setup form keeps.
pub const FIELD_BYTE_LIMIT: usize = 32;

/// What `char::is_alphanumeric` returns for a character (Unicode
/// `Alphabetic` or `Numeric`).
pub uninterp spec fn is_alphanumeric_char(c: char) -> bool;

/// The characters that `char::to_uppercase` yields for a character.
pub uninterp spec fn uppercase_mapping(c: char) -> Seq<char>;

/// The characters of `str::to_lowercase` applied to a text.
pub uninterp spec fn lowercase_mapping(s: Seq<char>) -> Seq<char>;

/// Calls `char::is_alphanumeric`; its result is named, not restated.
#[verifier::external_body]
fn char_is_alphanumeric(c: char) -> (r: bool)
    ensures
        r == is_alphanumeric_char(c),
{
    c.is_alphanumeric()
}

/// Calls `char::to_uppercase` and collects what the iterator yields.
/// The documentation promises one or more characters; which ones is named.
#[verifier::external_body]
fn char_to_uppercase(c: char) -> (r: Vec<char>)
    ensures
        r@ == uppercase_mapping(c),
        r@.len() >= 1,
{
    c.to_uppercase().collect()
}

/// Calls `str::to_lowercase`; the Unicode mapping (with its final-sigma
/// rule) is named, not restated.
#[verifier::external_body]
fn str_to_lowercase(s: &str) -> (r: String)
    ensures
        r@ == lowercase_mapping(s@),
{
    s.to_lowercase()
}

/// Calls `String::push`, which appends one character.
#[verifier::external_body]
fn string_push(s: &mut String, c: char)
    ensures
        final(s)@ == old(s)@.push(c),
{
    s.push(c);
}

/// The characters of a text, in order.
pub fn chars_of(s: &str) -> (r: Vec<char>)
    ensures
        r@ == s@,
{
    let mut r: Vec<char> = Vec::new();
    for c in it: s.chars()
        invariant
            r@ == it.seq().take(it.index() as int),
    {
        r.push(c);
    }
    r
}

/// The text made of the given characters.
pub fn string_from_chars(v: &Vec<char>) -> (r: String)
    ensures
        r@ == v@,
{
    let mut r = String::new();
    for i in 0..v.len()
        invariant
            r@ == v@.take(i as int),
    {
        string_push(&mut r, v[i]);
        assert(v@.take(i + 1) == v@.take(i as int).push(v@[i as int]));
    }
    assert(v@.take(v.len() as int) == v@);
    r
}

/// Whether two texts hold the same characters.
pub fn same_text(a: &str, b: &str) -> (r: bool)
    ensures
        r == (a@ == b@),
{
    let x = a.to_owned();
    let y = b.to_owned();
    x == y
}

/// The views of a list of texts.
pub open spec fn texts(v: Seq<String>) -> Seq<Seq<char>> {
    v.map_values(|s: String| s@)
}

/// Every character of `s` is alphanumeric.
pub open spec fn all_alphanumeric(s: Seq<char>) -> bool {
    forall|i: int| 0 <= i < s.len() ==> is_alphanumeric_char(#[trigger] s[i])
}

/// True when every character of `input` is alphanumeric (so also for the
/// empty text).
pub fn only_alphanumeric(input: &str) -> (r: bool)
    ensures
        r == all_alphanumeric(input@),
{
    let cs = chars_of(input);
    let mut i: usize = 0;
    while i < cs.len()
        invariant
            cs@ == input@,
            0 <= i <= cs.len(),
            forall|j: int| 0 <= j < i ==> is_alphanumeric_char(#[trigger] cs@[j]),
        decreases cs.len() - i,
    {
        if !char_is_alphanumeric(cs[i]) {
            return false;
        }
        i = i + 1;
    }
    true
}

/// The text with its first character replaced by its uppercase mapping.
pub open spec fn capitalized(s: Seq<char>) -> Seq<char> {
    if s.len() == 0 {
        Seq::empty()
    } else {
        uppercase_mapping(s[0]) + s.drop_first()
    }
}

/// The text with its first character in upper case; the empty text stays empty.
pub fn uppercase_first_letter(s: &str) -> (r: String)
    ensures
        r@ == capitalized(s@),
        s@.len() == 0 ==> r@.len() == 0,
        s@.len() > 0 ==> r@ == uppercase_mapping(s@[0]) + s@.subrange(1, s@.len() as int),
        s@.len() > 0 ==> r@.subrange(0, uppercase_mapping(s@[0]).len() as int) == uppercase_mapping(s@[0]),
        s@.len() > 0 ==> r@.skip(uppercase_mapping(s@[0]).len() as int) == s@.skip(1),
{
    let cs = chars_of(s);
    if cs.len() == 0 {
        return String::new();
    }
    let mut out = char_to_uppercase(cs[0]);
    let ghost head = out@;
    let mut i: usize = 1;
    while i < cs.len()
        invariant
            cs@ == s@,
            1 <= i <= cs.len(),
            head == uppercase_mapping(cs@[0]),
            out@ == head + cs@.subrange(1, i as int),
        decreases cs.len() - i,
    {
        out.push(cs[i]);
        assert(cs@.subrange(1, i + 1) == cs@.subrange(1, i as int).push(cs@[i as int]));
        i = i + 1;
    }
    assert(cs@.subrange(1, cs@.len() as int) == cs@.drop_first());
    string_from_chars(&out)
}

/// Capitalising changes only the first character: it is replaced by its
/// uppercase mapping and every later character is kept as it is, in place.
pub proof fn capitalized_keeps_the_rest(s: Seq<char>)
    requires
        s.len() > 0,
    ensures
        capitalized(s).len() == uppercase_mapping(s[0]).len() + s.len() - 1,
        forall|k: int| 0 <= k < uppercase_mapping(s[0]).len() ==> #[trigger] capitalized(s)[k] == uppercase_mapping(s[0])[k],
        forall|k: int| 1 <= k < s.len() ==> #[trigger] capitalized(s)[uppercase_mapping(s[0]).len() + k - 1] == s[k],
{
}

/// The lowercase form of a text, as `str::to_lowercase` gives it.
pub fn lowercased(s: &str) -> (r: String)
    ensures
        r@ == lowercase_mapping(s@),
{
    str_to_lowercase(s)
}

/// The number of bytes of the UTF-8 encoding of a text.
pub open spec fn utf8_len(s: Seq<char>) -> nat {
    encode_utf8(s).len()
}

/// A field must be cut when it is longer than the limit; the cut is only
/// possible where a character starts.
pub open spec fn cut_is_possible(s: Seq<char>) -> bool {
    utf8_len(s) > FIELD_BYTE_LIMIT ==> is_char_boundary(encode_utf8(s), FIELD_BYTE_LIMIT as int)
}

/// Whether the field text can be brought to the byte limit: it fits, or
/// the limit falls on a character boundary.
pub fn can_cut_to_limit(text: &str) -> (r: bool)
    ensures
        r == cut_is_possible(text@),
{
    let bytes = text.as_bytes();
    bytes.len() <= FIELD_BYTE_LIMIT || text.is_char_boundary(FIELD_BYTE_LIMIT)
}

/// The replacement for a field text longer than the limit: its first
/// `FIELD_BYTE_LIMIT` bytes. `None` when the text fits.
pub fn cut_to_limit(text: &str) -> (r: Option<String>)
    requires
        cut_is_possible(text@),
    ensures
        r is None <==> utf8_len(text@) <= FIELD_BYTE_LIMIT,
        r matches Some(t) ==> {
            &&& encode_utf8(t@) == encode_utf8(text@).take(FIELD_BYTE_LIMIT as int)
            &&& t@ == text@.take(t@.len() as int)
            &&& utf8_len(t@) == FIELD_BYTE_LIMIT
        },
{
    let bytes = text.as_bytes();
    if bytes.len() <= FIELD_BYTE_LIMIT {
        return None;
    }
    let (head, _tail) = text.split_at(FIELD_BYTE_LIMIT);
    let t = head.to_owned();
    proof {
        let bytes = encode_utf8(text@);
        let k = FIELD_BYTE_LIMIT as int;
        assert(head.spec_bytes() == encode_utf8(head@));
        assert(_tail.spec_bytes() == encode_utf8(_tail@));
        decode_utf8_split(bytes, k);
        assert(bytes.subrange(0, k) == encode_utf8(head@));
        assert(bytes.subrange(k, bytes.len() as int) == encode_utf8(_tail@));
        assert(decode_utf8(encode_utf8(head@)) == head@);
        assert(decode_utf8(encode_utf8(_tail@)) == _tail@);
        assert(text@ == head@ + _tail@);
        assert(text@.take(head@.len() as int) == head@);
    }
    Some(t)
}

/// `s` ends with `suffix`.
pub open spec fn has_suffix(s: Seq<char>, suffix: Seq<char>) -> bool {
    suffix.len() <= s.len() && s.subrange(s.len() - suffix.len(), s.len() as int) == suffix
}

/// `s` with `suffix` removed as often as it ends with it (what
/// `str::trim_end_matches` does with a non-empty text pattern).
pub open spec fn trimmed_end(s: Seq<char>, suffix: Seq<char>) -> Seq<char>
    decreases s.len(),
{
    if suffix.len() > 0 && has_suffix(s, suffix) {
        trimmed_end(s.subrange(0, s.len() - suffix.len()), suffix)
    } else {
        s
    }
}

/// Trimming leaves a text that no longer ends with the suffix, and a
/// second trim changes nothing.
pub proof fn trimmed_end_is_final(s: Seq<char>, suffix: Seq<char>)
    requires
        suffix.len() > 0,
    ensures
        !has_suffix(trimmed_end(s, suffix), suffix),
        trimmed_end(trimmed_end(s, suffix), suffix) == trimmed_end(s, suffix),
    decreases s.len(),
{
    if has_suffix(s, suffix) {
        trimmed_end_is_final(s.subrange(0, s.len() - suffix.len()), suffix);
    }
}

fn ends_with_chars(s: &Vec<char>, len: usize, suffix: &Vec<char>) -> (r: bool)
    requires
        len <= s@.len(),
    ensures
        r == has_suffix(s@.take(len as int), suffix@),
{
    if suffix.len() > len {
        return false;
    }
    let start = len - suffix.len();
    let mut i: usize = 0;
    while i < suffix.len()
        invariant
            start + suffix@.len() == len,
            len <= s@.len(),
            0 <= i <= suffix@.len(),
            forall|j: int| 0 <= j < i ==> s@[start + j] == suffix@[j],
        decreases suffix.len() - i,
    {
        if s[start + i] != suffix[i] {
            assert(s@.take(len as int).subrange(start as int, len as int)[i as int] != suffix@[i as int]);
            return false;
        }
        i = i + 1;
    }
    assert(s@.take(len as int).subrange(start as int, len as int) == suffix@);
    true
}

/// `s` without every trailing repetition of `suffix`, as
/// `str::trim_end_matches` gives it; with an empty suffix, `s` itself.
pub fn trim_end_matches(s: &str, suffix: &str) -> (r: String)
    ensures
        r@ == trimmed_end(s@, suffix@),
{
    let cs = chars_of(s);
    let sf = chars_of(suffix);
    if sf.len() == 0 {
        return s.to_owned();
    }
    let mut len: usize = cs.len();
    assert(cs@.take(len as int) == cs@);
    while ends_with_chars(&cs, len, &sf)
        invariant
            cs@ == s@,
            sf@ == suffix@,
            sf@.len() > 0,
            len <= cs@.len(),
            trimmed_end(cs@.take(len as int), sf@) == trimmed_end(s@, suffix@),
        decreases len,
    {
        let ghost before = cs@.take(len as int);
        len = len - sf.len();
        assert(before.subrange(0, before.len() - sf@.len()) == cs@.take(len as int));
    }
    let mut out: Vec<char> = Vec::new();
    let mut i: usize = 0;
    while i < len
        invariant
            len <= cs@.len(),
            0 <= i <= len,
            out@ == cs@.take(i as int),
        decreases len - i,
    {
        out.push(cs[i]);
        assert(cs@.take(i + 1) == cs@.take(i as int).push(cs@[i as int]));
        i = i + 1;
    }
    string_from_chars(&out)
}

/// `s` without `suffix` at its end, or `None` where it does not end with
/// it (`str::strip_suffix`).
pub fn strip_suffix(s: &str, suffix: &str) -> (r: Option<String>)
    ensures
        r is Some <==> has_suffix(s@, suffix@),
        r matches Some(t) ==> t@ + suffix@ == s@,
{
    let cs = chars_of(s);
    let sf = chars_of(suffix);
    assert(cs@.take(cs@.len() as int) == cs@);
    if !ends_with_chars(&cs, cs.len(), &sf) {
        return None;
    }
    let len = cs.len() - sf.len();
    let mut out: Vec<char> = Vec::new();
    let mut i: usize = 0;
    while i < len
        invariant
            len + sf@.len() == cs@.len(),
            0 <= i <= len,
            out@ == cs@.take(i as int),
        decreases len - i,
    {
        out.push(cs[i]);
        assert(cs@.take(i + 1) == cs@.take(i as int).push(cs@[i as int]));
        i = i + 1;
    }
    assert(cs@ == cs@.take(len as int) + cs@.subrange(len as int, cs@.len() as int));
    Some(string_from_chars(&out))
}

/// `needle` occurs in `hay` starting at `i`.
pub open spec fn occurs_at(hay: Seq<char>, needle: Seq<char>, i: int) -> bool {
    0 <= i && i + needle.len() <= hay.len() && hay.subrange(i, i + needle.len()) == needle
}

/// `needle` occurs somewhere in `hay` (the empty text occurs everywhere).
pub open spec fn contains_text(hay: Seq<char>, needle: Seq<char>) -> bool {
    exists|i: int| occurs_at(hay, needle, i)
}

/// Whether `needle` occurs in `hay` (`str::contains` with a text pattern).
pub fn contains(hay: &str, needle: &str) -> (r: bool)
    ensures
        r == contains_text(hay@, needle@),
{
    let h = chars_of(hay);
    let n = chars_of(needle);
    if n.len() > h.len() {
        assert forall|i: int| !occurs_at(hay@, needle@, i) by {}
        return false;
    }
    let last = h.len() - n.len();
    let mut start: usize = 0;
    loop
        invariant
            h@ == hay@,
            n@ == needle@,
            last + n@.len() == h@.len(),
            start <= last,
            forall|i: int| 0 <= i < start ==> !occurs_at(hay@, needle@, i),
        decreases last - start,
    {
        let mut j: usize = 0;
        let mut same = true;
        while j < n.len()
            invariant
                h@ == hay@,
                n@ == needle@,
                start <= last,
                last + n.len() == h.len(),
                0 <= j <= n@.len(),
                same == (forall|k: int| 0 <= k < j ==> h@[start + k] == n@[k]),
            decreases n.len() - j,
        {
            let at = start + j;
            if h[at] != n[j] {
                same = false;
            }
            j = j + 1;
        }
        if same {
            assert(hay@.subrange(start as int, start + needle@.len()) == needle@);
            assert(occurs_at(hay@, needle@, start as int));
            return true;
        }
        assert(!occurs_at(hay@, needle@, start as int)) by {
            let k = choose|k: int| 0 <= k < n@.len() && h@[start + k] != n@[k];
            assert(hay@.subrange(start as int, start + needle@.len())[k] != needle@[k]);
        }
        if start == last {
            assert forall|i: int| !occurs_at(hay@, needle@, i) by {}
            return false;
        }
        start = start + 1;
    }
}

} // verus!
