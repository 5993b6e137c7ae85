//! Reading the display name out of a `.theme` file (an INI file).
//!
//! The name is the `DisplayName=` entry of the `[Theme]` section. It is
//! either a literal, or an indirect resource reference starting with `@`
//! (such as `@%SystemRoot%\System32\themeui.dll,-2060`) that the caller
//! resolves through the shell.

use vstd::prelude::*;
use vstd::utf8::{valid_utf8, decode_utf8};
use crate::text::{is_whitespace_char, trim, trim_start, trim_end, push_char};

verus! {

/// What `String::from_utf8_lossy` makes of a byte sequence.
pub uninterp spec fn utf8_lossy(bytes: Seq<u8>) -> Seq<char>;

/// `String::from_utf8_lossy`: decodes UTF-8, replacing each invalid
/// sequence by U+FFFD. Claimed: the result is a function of the bytes
/// alone, and valid UTF-8 decodes to exactly its characters.
#[verifier::external_body]
fn decode_utf8_lossy(bytes: &[u8]) -> (s: String)
    ensures
        s@ == utf8_lossy(bytes@),
        valid_utf8(bytes@) ==> s@ == decode_utf8(bytes@),
{
    String::from_utf8_lossy(bytes).into_owned()
}

/// Where a theme's display name comes from.
#[derive(Debug, Clone, PartialEq, Eq)]
pub enum DisplayNameSource {
    /// The name as written in the file.
    Literal(String),
    /// An `@`-prefixed resource reference, to be resolved by the shell.
    Indirect(String),
}

/// The lines of a text: the pieces between `\n` characters. (A `\r` left
/// at the end of a piece, and an empty last piece, make no difference
/// below: lines are trimmed and blank lines skipped.)
pub open spec fn split_lines(s: Seq<char>) -> Seq<Seq<char>>
    decreases s.len(),
{
    if s.len() == 0 {
        seq![seq![]]
    } else {
        let lines = split_lines(s.drop_last());
        if s.last() == '\n' {
            lines.push(seq![])
        } else {
            lines.update(lines.len() - 1, lines.last().push(s.last()))
        }
    }
}

/// ASCII lower-casing of a character's code.
pub open spec fn ascii_lower_code(c: char) -> u32 {
    let v = c as u32;
    if 65 <= v <= 90 { (v + 32) as u32 } else { v }
}

/// Equal up to ASCII case, as `str::eq_ignore_ascii_case` compares.
pub open spec fn eq_ignore_ascii_case(a: Seq<char>, b: Seq<char>) -> bool {
    a.len() == b.len() && forall|i: int| 0 <= i < a.len() ==> ascii_lower_code(#[trigger] a[i]) == ascii_lower_code(b[i])
}

/// The header of the section that holds the display name.
pub open spec fn theme_header() -> Seq<char> {
    seq!['[', 'T', 'h', 'e', 'm', 'e', ']']
}

/// The key of the display name entry.
pub open spec fn display_name_key() -> Seq<char> {
    seq!['D', 'i', 's', 'p', 'l', 'a', 'y', 'N', 'a', 'm', 'e', '=']
}

/// A trimmed line that is skipped: blank, or a `;` comment.
pub open spec fn is_skipped(t: Seq<char>) -> bool {
    t.len() == 0 || t[0] == ';'
}

/// A trimmed line that opens a section.
pub open spec fn is_section_header(t: Seq<char>) -> bool {
    t.len() > 0 && t[0] == '[' && t.last() == ']'
}

/// Whether the reader is inside `[Theme]` after `line`.
pub open spec fn section_after(line: Seq<char>, in_theme: bool) -> bool {
    let t = trim(line);
    if is_skipped(t) {
        in_theme
    } else if is_section_header(t) {
        eq_ignore_ascii_case(t, theme_header())
    } else {
        in_theme
    }
}

/// The display name `line` yields, read inside `[Theme]` or not.
pub open spec fn value_of_line(line: Seq<char>, in_theme: bool) -> Option<Seq<char>> {
    let t = trim(line);
    if is_skipped(t) || is_section_header(t) || !in_theme {
        None
    } else if t.len() >= 12 && t.take(12) == display_name_key() {
        Some(trim(t.skip(12)))
    } else {
        None
    }
}

/// Whether the reader is inside `[Theme]` after `lines`.
pub open spec fn section_after_lines(lines: Seq<Seq<char>>) -> bool
    decreases lines.len(),
{
    if lines.len() == 0 {
        false
    } else {
        section_after(lines.last(), section_after_lines(lines.drop_last()))
    }
}

/// The first display name that `lines` yield.
pub open spec fn first_value(lines: Seq<Seq<char>>) -> Option<Seq<char>>
    decreases lines.len(),
{
    if lines.len() == 0 {
        None
    } else {
        match first_value(lines.drop_last()) {
            Some(v) => Some(v),
            None => value_of_line(lines.last(), section_after_lines(lines.drop_last())),
        }
    }
}

/// The raw display name of a `.theme` file's text: the trimmed value of the
/// first `DisplayName=` line inside a `[Theme]` section (header matched
/// without regard to ASCII case).
pub open spec fn display_name_value(content: Seq<char>) -> Option<Seq<char>> {
    first_value(split_lines(content))
}

/// A value is an indirect reference when it starts with `@`.
pub open spec fn is_indirect(v: Seq<char>) -> bool {
    v.len() > 0 && v[0] == '@'
}

/// The display name source a `.theme` text yields.
pub open spec fn source_matches(r: Option<DisplayNameSource>, content: Seq<char>) -> bool {
    match display_name_value(content) {
        None => r is None,
        Some(v) => match r {
            Some(DisplayNameSource::Literal(s)) => s@ == v && !is_indirect(v),
            Some(DisplayNameSource::Indirect(s)) => s@ == v && is_indirect(v),
            None => false,
        },
    }
}

/// Bounds of `v[lo..hi]` with leading and trailing whitespace removed.
fn trim_bounds(v: &Vec<char>, lo: usize, hi: usize) -> (r: (usize, usize))
    requires
        lo <= hi <= v@.len(),
    ensures
        lo <= r.0 <= r.1 <= hi,
        v@.subrange(r.0 as int, r.1 as int) == trim(v@.subrange(lo as int, hi as int)),
{
    let mut a = lo;
    while a < hi && is_whitespace_char(v[a])
        invariant
            lo <= a <= hi <= v@.len(),
            trim_start(v@.subrange(lo as int, hi as int)) == trim_start(v@.subrange(a as int, hi as int)),
        decreases hi - a,
    {
        assert(v@.subrange(a as int, hi as int).drop_first() =~= v@.subrange(a + 1, hi as int));
        assert(v@.subrange(a as int, hi as int)[0] == v@[a as int]);
        a = a + 1;
    }
    if a < hi {
        assert(v@.subrange(a as int, hi as int)[0] == v@[a as int]);
    }
    let mut b = hi;
    while b > a && is_whitespace_char(v[b - 1])
        invariant
            lo <= a <= b <= hi <= v@.len(),
            trim_start(v@.subrange(lo as int, hi as int)) == v@.subrange(a as int, hi as int),
            trim_end(v@.subrange(a as int, hi as int)) == trim_end(v@.subrange(a as int, b as int)),
        decreases b - a,
    {
        assert(v@.subrange(a as int, b as int).drop_last() =~= v@.subrange(a as int, b - 1));
        assert(v@.subrange(a as int, b as int).last() == v@[b - 1]);
        b = b - 1;
    }
    if b > a {
        assert(v@.subrange(a as int, b as int).last() == v@[b - 1]);
    }
    (a, b)
}

/// ASCII lower-casing of a character's code.
fn lower_code(c: char) -> (r: u32)
    ensures
        r == ascii_lower_code(c),
{
    let v = c as u32;
    if 65 <= v && v <= 90 { v + 32 } else { v }
}

/// Whether `v[a..a + pattern.len()]` equals `pattern`, optionally without
/// regard to ASCII case.
fn matches_at(v: &Vec<char>, a: usize, pattern: &Vec<char>, ignore_case: bool) -> (r: bool)
    requires
        a + pattern@.len() <= v@.len(),
    ensures
        ignore_case ==> r == eq_ignore_ascii_case(v@.subrange(a as int, a + pattern@.len()), pattern@),
        !ignore_case ==> r == (v@.subrange(a as int, a + pattern@.len()) == pattern@),
{
    let ghost seg = v@.subrange(a as int, a + pattern@.len());
    let n = v.len();
    let mut i: usize = 0;
    while i < pattern.len()
        invariant
            n == v@.len(),
            i <= pattern@.len(),
            a + pattern@.len() <= v@.len(),
            seg == v@.subrange(a as int, a + pattern@.len()),
            ignore_case ==> forall|k: int| 0 <= k < i ==> ascii_lower_code(#[trigger] seg[k]) == ascii_lower_code(pattern@[k]),
            !ignore_case ==> forall|k: int| 0 <= k < i ==> #[trigger] seg[k] == pattern@[k],
        decreases pattern@.len() - i,
    {
        assert(seg[i as int] == v@[a + i]);
        let same = if ignore_case {
            lower_code(v[a + i]) == lower_code(pattern[i])
        } else {
            v[a + i] == pattern[i]
        };
        if !same {
            if !ignore_case {
                assert(seg[i as int] != pattern@[i as int]);
            }
            return false;
        }
        i = i + 1;
    }
    if !ignore_case {
        assert(seg =~= pattern@);
    }
    true
}

/// A `String` holding `v[a..b]`.
fn string_of(v: &Vec<char>, a: usize, b: usize) -> (s: String)
    requires
        a <= b <= v@.len(),
    ensures
        s@ == v@.subrange(a as int, b as int),
{
    let mut s = String::new();
    let mut i = a;
    while i < b
        invariant
            a <= i <= b <= v@.len(),
            s@ == v@.subrange(a as int, i as int),
        decreases b - i,
    {
        push_char(&mut s, v[i]);
        assert(v@.subrange(a as int, i + 1) =~= v@.subrange(a as int, i as int).push(v@[i as int]));
        i = i + 1;
    }
    s
}

/// Read one line: the section state after it, and the display name it
/// yields.
fn read_line(line: &Vec<char>, in_theme: bool) -> (r: (bool, Option<DisplayNameSource>))
    ensures
        r.0 == section_after(line@, in_theme),
        match value_of_line(line@, in_theme) {
            None => r.1 is None,
            Some(v) => match r.1 {
                Some(DisplayNameSource::Literal(s)) => s@ == v && !is_indirect(v),
                Some(DisplayNameSource::Indirect(s)) => s@ == v && is_indirect(v),
                None => false,
            },
        },
{
    assert(line@.subrange(0, line@.len() as int) =~= line@);
    let (a, b) = trim_bounds(line, 0, line.len());
    let ghost t = line@.subrange(a as int, b as int);
    if a == b || line[a] == ';' {
        return (in_theme, None);
    }
    if line[a] == '[' && line[b - 1] == ']' {
        assert(t.last() == line@[b - 1]);
        let header = vec!['[', 'T', 'h', 'e', 'm', 'e', ']'];
        assert(header@ =~= theme_header());
        let is_theme = b - a == header.len() && matches_at(line, a, &header, true);
        return (is_theme, None);
    }
    assert(!is_section_header(t)) by {
        assert(t.last() == line@[b - 1]);
    }
    if !in_theme {
        return (in_theme, None);
    }
    let key = vec!['D', 'i', 's', 'p', 'l', 'a', 'y', 'N', 'a', 'm', 'e', '='];
    assert(key@ =~= display_name_key());
    if b - a >= key.len() && matches_at(line, a, &key, false) {
        assert(line@.subrange(a as int, a + 12) =~= t.take(12));
        let (va, vb) = trim_bounds(line, a + 12, b);
        assert(line@.subrange(a + 12, b as int) =~= t.skip(12));
        let value = string_of(line, va, vb);
        if va < vb && line[va] == '@' {
            return (in_theme, Some(DisplayNameSource::Indirect(value)));
        }
        return (in_theme, Some(DisplayNameSource::Literal(value)));
    }
    if b - a >= key.len() {
        assert(line@.subrange(a as int, a + 12) =~= t.take(12));
    }
    (in_theme, None)
}

/// The display name of a `.theme` file's text: the trimmed value of the
/// first `DisplayName=` entry inside a `[Theme]` section, as a literal or
/// as an `@` resource reference; `None` when there is no such entry.
pub fn parse_theme_display_name(content: &str) -> (r: Option<DisplayNameSource>)
    ensures
        source_matches(r, content@),
{
    let ghost chars = content@;
    let mut line: Vec<char> = Vec::new();
    let mut in_theme = false;
    let ghost mut done: Seq<Seq<char>> = seq![];
    assert(chars.take(0) =~= seq![]);
    for c in it: content.chars()
        invariant
            it.seq() == chars,
            chars == content@,
            split_lines(chars.take(it.index() as int)) == done.push(line@),
            in_theme == section_after_lines(done),
            first_value(done) is None,
    {
        let ghost i = it.index();
        assert(chars.take(i + 1) =~= chars.take(i as int).push(c));
        assert(chars.take(i + 1).drop_last() =~= chars.take(i as int));
        if c == '\n' {
            let (next_in_theme, value) = read_line(&line, in_theme);
            proof {
                assert(done.push(line@).drop_last() =~= done);
            }
            if value.is_some() {
                proof {
                    assert(first_value(split_lines(chars)) == first_value(done.push(line@))) by {
                        lemma_first_value_prefix(chars, i + 1, done.push(line@));
                    }
                }
                return value;
            }
            proof {
                done = done.push(line@);
            }
            in_theme = next_in_theme;
            line = Vec::new();
            assert(split_lines(chars.take(i + 1)) =~= done.push(line@));
        } else {
            line.push(c);
            assert(split_lines(chars.take(i + 1)) =~= done.push(line@));
        }
    }
    assert(chars.take(chars.len() as int) =~= chars);
    let (_, value) = read_line(&line, in_theme);
    assert(done.push(line@).drop_last() =~= done);
    value
}

/// Once a prefix of the text ending in a line break has complete lines
/// that yield a value, the whole text yields that value.
proof fn lemma_first_value_prefix(s: Seq<char>, n: int, lines: Seq<Seq<char>>)
    requires
        0 < n <= s.len(),
        s[n - 1] == '\n',
        split_lines(s.take(n - 1)).push(seq![]) == split_lines(s.take(n)),
        lines.push(seq![]) == split_lines(s.take(n)),
        first_value(lines) is Some,
    ensures
        first_value(split_lines(s)) == first_value(lines),
{
    assert(split_lines(s.take(n)).subrange(0, lines.len() as int) =~= lines);
    lemma_first_value_extends(s, n, lines);
}

proof fn lemma_first_value_extends(s: Seq<char>, n: int, lines: Seq<Seq<char>>)
    requires
        0 <= n <= s.len(),
        split_lines(s.take(n)).len() >= lines.len() + 1,
        split_lines(s.take(n)).subrange(0, lines.len() as int) == lines,
        first_value(lines) is Some,
    ensures
        first_value(split_lines(s)) == first_value(lines),
    decreases s.len() - n,
{
    if n == s.len() {
        assert(s.take(n) =~= s);
        lemma_first_value_of_prefix(split_lines(s), lines);
    } else {
        let cur = split_lines(s.take(n));
        let nxt = split_lines(s.take(n + 1));
        assert(s.take(n + 1).drop_last() =~= s.take(n));
        assert(nxt.subrange(0, lines.len() as int) =~= lines);
        lemma_first_value_extends(s, n + 1, lines);
    }
}

proof fn lemma_first_value_of_prefix(all: Seq<Seq<char>>, lines: Seq<Seq<char>>)
    requires
        all.len() >= lines.len(),
        all.subrange(0, lines.len() as int) == lines,
        first_value(lines) is Some,
    ensures
        first_value(all) == first_value(lines),
    decreases all.len(),
{
    if all.len() > lines.len() {
        assert(all.drop_last().subrange(0, lines.len() as int) =~= lines);
        lemma_first_value_of_prefix(all.drop_last(), lines);
    } else {
        assert(all =~= lines);
    }
}

/// The display name of a `.theme` file's bytes: decoded as UTF-8 (invalid
/// sequences replaced), then read as `parse_theme_display_name` reads text.
pub fn theme_display_name_from_bytes(bytes: &[u8]) -> (r: Option<DisplayNameSource>)
    ensures
        source_matches(r, utf8_lossy(bytes@)),
        valid_utf8(bytes@) ==> source_matches(r, decode_utf8(bytes@)),
{
    let content = decode_utf8_lossy(bytes);
    parse_theme_display_name(content.as_str())
}


/// Only a section header changes the section: a line inside or outside
/// `[Theme]` that is not blank, not a `;` comment and not a `[..]` header
/// (another key, say) leaves the reader where it was, and only a
/// `DisplayName=` line inside `[Theme]` yields a name.
pub proof fn lemma_only_headers_change_section(line: Seq<char>, in_theme: bool)
    ensures
        !is_skipped(trim(line)) && !is_section_header(trim(line)) ==> section_after(line, in_theme) == in_theme,
        is_skipped(trim(line)) ==> section_after(line, in_theme) == in_theme,
        is_section_header(trim(line)) ==> value_of_line(line, in_theme) is None,
        !in_theme ==> value_of_line(line, in_theme) is None,
{
}

/// Once inside `[Theme]`, any run of lines that holds no section header
/// keeps the reader inside it, so a later `DisplayName=` entry is still
/// read.
pub proof fn lemma_entries_keep_theme_section(lines: Seq<Seq<char>>, more: Seq<Seq<char>>)
    requires
        section_after_lines(lines),
        forall|i: int| 0 <= i < more.len() ==> !is_section_header(trim(#[trigger] more[i])),
    ensures
        section_after_lines(lines + more),
    decreases more.len(),
{
    if more.len() > 0 {
        let init = more.drop_last();
        assert forall|i: int| 0 <= i < init.len() implies !is_section_header(trim(#[trigger] init[i])) by {
            assert(init[i] == more[i]);
        }
        lemma_entries_keep_theme_section(lines, init);
        assert((lines + more).drop_last() =~= lines + init);
        assert((lines + more).last() == more[more.len() - 1]);
    } else {
        assert(lines + more =~= lines);
    }
}

} // verus!
