//! Character-level helpers: log-field sanitising, UTF-16 encoding for
//! Win32 wide strings, and Unicode whitespace trimming.

use vstd::prelude::*;

verus! {

/// `String::push`: appends one character at the end.
#[verifier::external_body]
pub(crate) fn push_char(s: &mut String, c: char)
    ensures
        final(s)@ == old(s)@.push(c),
{
    s.push(c);
}

/// The character written in place of `c` inside a quoted log field: double
/// quotes become apostrophes, line breaks become spaces.
pub open spec fn sanitized_char(c: char) -> char {
    if c == '"' {
        '\''
    } else if c == '\n' || c == '\r' {
        ' '
    } else {
        c
    }
}

/// `s` with every character sanitized.
pub open spec fn sanitized(s: Seq<char>) -> Seq<char> {
    s.map_values(|c: char| sanitized_char(c))
}

/// Make `s` safe inside a `msg="..."` log field: one line, no inner double
/// quotes. Every other character is kept in place.
pub fn sanitize_log_msg(s: &str) -> (r: String)
    ensures
        r@ == sanitized(s@),
{
    let mut out = String::new();
    let ghost chars = s@;
    for c in it: s.chars()
        invariant
            it.seq() == chars,
            chars == s@,
            out@ == chars.take(it.index() as int).map_values(|c: char| sanitized_char(c)),
    {
        let ghost i = it.index();
        let mapped = if c == '"' {
            '\''
        } else if c == '\n' || c == '\r' {
            ' '
        } else {
            c
        };
        push_char(&mut out, mapped);
        assert(chars.take(i + 1) =~= chars.take(i as int).push(c));
    }
    assert(chars.take(chars.len() as int) =~= chars);
    out
}

/// The UTF-16 code units of one character.
pub open spec fn utf16_units(c: char) -> Seq<u16> {
    let v = c as u32;
    if v < 0x10000 {
        seq![v as u16]
    } else {
        let u = (v - 0x10000) as u32;
        seq![(0xD800 + u / 1024) as u16, (0xDC00 + u % 1024) as u16]
    }
}

/// The UTF-16 encoding of a character sequence.
pub open spec fn utf16_encode(s: Seq<char>) -> Seq<u16>
    decreases s.len(),
{
    if s.len() == 0 {
        seq![]
    } else {
        utf16_encode(s.drop_last()) + utf16_units(s.last())
    }
}

/// A NUL-terminated UTF-16 string, as Win32 wide-string APIs take.
pub fn wide(s: &str) -> (r: Vec<u16>)
    ensures
        r@ == utf16_encode(s@).push(0u16),
{
    let mut out: Vec<u16> = Vec::new();
    let ghost chars = s@;
    for c in it: s.chars()
        invariant
            it.seq() == chars,
            chars == s@,
            out@ == utf16_encode(chars.take(it.index() as int)),
    {
        let ghost i = it.index();
        let v = c as u32;
        if v < 0x10000 {
            out.push(v as u16);
        } else {
            let u = v - 0x10000;
            out.push((0xD800 + u / 1024) as u16);
            out.push((0xDC00 + u % 1024) as u16);
        }
        proof {
            let pre = chars.take(i as int);
            assert(chars.take(i + 1) =~= pre.push(c));
            assert(pre.push(c).drop_last() =~= pre);
            assert(out@ =~= utf16_encode(pre) + utf16_units(c));
        }
    }
    assert(chars.take(chars.len() as int) =~= chars);
    out.push(0);
    out
}

/// Unicode `White_Space`, as `char::is_whitespace` defines it.
pub open spec fn is_whitespace(c: char) -> bool {
    let v = c as u32;
    (0x09 <= v <= 0x0D) || v == 0x20 || v == 0x85 || v == 0xA0 || v == 0x1680
        || (0x2000 <= v <= 0x200A) || v == 0x2028 || v == 0x2029 || v == 0x202F
        || v == 0x205F || v == 0x3000
}

/// Whether `c` is Unicode whitespace.
pub fn is_whitespace_char(c: char) -> (r: bool)
    ensures
        r == is_whitespace(c),
{
    let v = c as u32;
    (0x09 <= v && v <= 0x0D) || v == 0x20 || v == 0x85 || v == 0xA0 || v == 0x1680
        || (0x2000 <= v && v <= 0x200A) || v == 0x2028 || v == 0x2029 || v == 0x202F
        || v == 0x205F || v == 0x3000
}

/// Every character is whitespace (so the text trims to nothing).
pub open spec fn is_blank(s: Seq<char>) -> bool {
    forall|i: int| 0 <= i < s.len() ==> is_whitespace(#[trigger] s[i])
}

/// `s` without its leading whitespace.
pub open spec fn trim_start(s: Seq<char>) -> Seq<char>
    decreases s.len(),
{
    if s.len() > 0 && is_whitespace(s[0]) {
        trim_start(s.drop_first())
    } else {
        s
    }
}

/// `s` without its trailing whitespace.
pub open spec fn trim_end(s: Seq<char>) -> Seq<char>
    decreases s.len(),
{
    if s.len() > 0 && is_whitespace(s.last()) {
        trim_end(s.drop_last())
    } else {
        s
    }
}

/// `s` without leading and trailing whitespace, as `str::trim` gives it.
pub open spec fn trim(s: Seq<char>) -> Seq<char> {
    trim_end(trim_start(s))
}

/// Whether the text is only whitespace.
pub fn is_blank_str(s: &str) -> (r: bool)
    ensures
        r == is_blank(s@),
{
    let ghost chars = s@;
    for c in it: s.chars()
        invariant
            it.seq() == chars,
            chars == s@,
            forall|k: int| 0 <= k < it.index() ==> is_whitespace(#[trigger] chars[k]),
    {
        if !is_whitespace_char(c) {
            let ghost i = it.index();
            assert(chars.take(i + 1) =~= chars.take(i as int).push(c));
            assert(chars.take(i + 1)[i as int] == c);
            assert(!is_whitespace(chars[i as int]));
            return false;
        }
    }
    true
}


/// A sanitized message fits a quoted log field: it has as many characters
/// as the input, and none is a double quote or a line break.
pub proof fn lemma_sanitized_fits_quoted_field(s: Seq<char>)
    ensures
        sanitized(s).len() == s.len(),
        forall|i: int| 0 <= i < s.len() ==> #[trigger] sanitized(s)[i] != '"'
            && sanitized(s)[i] != '\n' && sanitized(s)[i] != '\r',
{
}

/// A character outside the Basic Multilingual Plane takes two UTF-16 code
/// units (a surrogate pair), any other character one.
pub proof fn lemma_utf16_units_len(c: char)
    ensures
        utf16_units(c).len() == if (c as u32) < 0x10000 { 1int } else { 2int },
{
}


proof fn lemma_trim_start_empty(s: Seq<char>)
    ensures
        (trim_start(s).len() == 0) == is_blank(s),
    decreases s.len(),
{
    if s.len() > 0 {
        lemma_trim_start_empty(s.drop_first());
        if is_whitespace(s[0]) {
            assert(is_blank(s) == is_blank(s.drop_first())) by {
                if is_blank(s.drop_first()) {
                    assert forall|i: int| 0 <= i < s.len() implies is_whitespace(#[trigger] s[i]) by {
                        if i > 0 {
                            assert(s[i] == s.drop_first()[i - 1]);
                        }
                    }
                }
                if is_blank(s) {
                    assert forall|i: int| 0 <= i < s.drop_first().len() implies is_whitespace(#[trigger] s.drop_first()[i]) by {
                        assert(s.drop_first()[i] == s[i + 1]);
                    }
                }
            }
        } else {
            assert(!is_whitespace(s[0]));
        }
    }
}

proof fn lemma_trim_end_len(s: Seq<char>)
    ensures
        trim_end(s).len() <= s.len(),
        s.len() > 0 && !is_whitespace(s[0]) ==> trim_end(s).len() > 0,
    decreases s.len(),
{
    if s.len() > 0 && is_whitespace(s.last()) {
        lemma_trim_end_len(s.drop_last());
        if !is_whitespace(s[0]) {
            assert(s.len() > 1);
            assert(s.drop_last()[0] == s[0]);
        }
    }
}

proof fn lemma_trim_start_first(s: Seq<char>)
    ensures
        trim_start(s).len() > 0 ==> !is_whitespace(trim_start(s)[0]),
    decreases s.len(),
{
    if s.len() > 0 && is_whitespace(s[0]) {
        lemma_trim_start_first(s.drop_first());
    }
}

/// Blank means exactly "trims to nothing", as `str::trim().is_empty()`
/// tests: a text with any character that is not whitespace (wherever it
/// stands, whatever ends the text) is not blank.
pub proof fn lemma_blank_iff_trims_to_nothing(s: Seq<char>)
    ensures
        is_blank(s) <==> trim(s).len() == 0,
        (exists|i: int| 0 <= i < s.len() && !is_whitespace(#[trigger] s[i])) ==> !is_blank(s),
        (forall|i: int| 0 <= i < s.len() ==> is_whitespace(#[trigger] s[i])) ==> is_blank(s),
{
    lemma_trim_start_empty(s);
    lemma_trim_start_first(s);
    lemma_trim_end_len(trim_start(s));
    if trim_start(s).len() == 0 {
        assert(trim(s) == trim_end(trim_start(s)));
    }
}

} // verus!
