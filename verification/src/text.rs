//! Small helpers on strings, stated over their characters.

use vstd::prelude::*;

verus! {

/// The upper-case form of a text, as `str::to_uppercase` gives it.
pub uninterp spec fn uppercase_of(s: Seq<char>) -> Seq<char>;

/// Calls `str::to_uppercase`, which maps each character to its upper-case
/// form by the Unicode tables that the standard library carries. The result
/// depends on the characters alone; the contract names it and states no more.
#[verifier::external_body]
pub(crate) fn to_uppercase(s: &str) -> (r: String)
    ensures
        r@ == uppercase_of(s@),
{
    s.to_uppercase()
}

/// Whether two strings hold the same characters.
pub fn same_text(a: &str, b: &str) -> (r: bool)
    ensures
        r == (a@ == b@),
{
    let x: String = a.to_owned();
    let y: String = b.to_owned();
    x == y
}

/// The characters of a string, in order.
pub fn chars_of(s: &str) -> (v: Vec<char>)
    ensures
        v@ == s@,
{
    let mut v: Vec<char> = Vec::new();
    for c in it: s.chars()
        invariant
            v@ == it.seq().take(it.index()),
            it.seq() == s@,
    {
        v.push(c);
    }
    v
}

/// Whether `part` stands in `text` from place `i` on.
pub open spec fn occurs_at(text: Seq<char>, part: Seq<char>, i: int) -> bool {
    0 <= i && i + part.len() <= text.len() && text.subrange(i, i + part.len()) == part
}

/// Whether `part` stands somewhere in `text`, letter for letter.
pub open spec fn contains_text(text: Seq<char>, part: Seq<char>) -> bool {
    exists|i: int| occurs_at(text, part, i)
}

/// Whether `text` begins with `part`.
pub open spec fn begins_with(text: Seq<char>, part: Seq<char>) -> bool {
    occurs_at(text, part, 0)
}

/// Whether `part` stands in `text` from place `at` on.
pub fn found_at(text: &Vec<char>, part: &Vec<char>, at: usize) -> (r: bool)
    ensures
        r == occurs_at(text@, part@, at as int),
{
    if part.len() > text.len() || at > text.len() - part.len() {
        return false;
    }
    let mut k: usize = 0;
    while k < part.len()
        invariant
            k <= part.len(),
            at + part.len() <= text.len(),
            forall|j: int| 0 <= j < k ==> text@[at + j] == part@[j],
        decreases part.len() - k,
    {
        if text[at + k] != part[k] {
            proof {
                let ghost piece = text@.subrange(at as int, at + part.len());
                assert(piece[k as int] == text@[at + k]);
            }
            return false;
        }
        k += 1;
    }
    proof {
        assert(text@.subrange(at as int, at + part.len()) =~= part@);
    }
    true
}

/// Whether `part` stands somewhere in `text`, letter for letter.
pub fn contains(text: &Vec<char>, part: &Vec<char>) -> (r: bool)
    ensures
        r == contains_text(text@, part@),
{
    if part.len() > text.len() {
        return false;
    }
    if part.len() == 0 {
        assert(occurs_at(text@, part@, 0)) by {
            assert(text@.subrange(0, 0) =~= part@);
        }
        return true;
    }
    let last: usize = text.len() - part.len();
    let mut i: usize = 0;
    while i <= last
        invariant
            i <= last + 1,
            last < usize::MAX,
            last == text.len() - part.len(),
            forall|j: int| 0 <= j < i ==> !occurs_at(text@, part@, j),
        decreases last + 1 - i,
    {
        if found_at(text, part, i) {
            return true;
        }
        i += 1;
    }
    false
}

/// Whether `text` begins with `part`.
pub fn starts_with(text: &Vec<char>, part: &Vec<char>) -> (r: bool)
    ensures
        r == begins_with(text@, part@),
{
    found_at(text, part, 0)
}

/// Whether a character is white space: one of the characters with the
/// Unicode property `White_Space`, which are the tabulators and line ends of
/// ASCII, the blank, the next-line character, the blank that keeps a line
/// together, the Ogham space mark, the blanks of fixed widths, the line and
/// paragraph separators, the narrow blank that keeps a line together, the
/// mathematical blank and the ideographic blank.
pub open spec fn is_whitespace(c: char) -> bool {
    ||| '\u{9}' <= c && c <= '\u{D}'
    ||| c == ' '
    ||| c == '\u{85}'
    ||| c == '\u{A0}'
    ||| c == '\u{1680}'
    ||| '\u{2000}' <= c && c <= '\u{200A}'
    ||| c == '\u{2028}'
    ||| c == '\u{2029}'
    ||| c == '\u{202F}'
    ||| c == '\u{205F}'
    ||| c == '\u{3000}'
}

/// Whether a character is white space.
pub fn whitespace(c: char) -> (r: bool)
    ensures
        r == is_whitespace(c),
{
    ('\u{9}' <= c && c <= '\u{D}') || c == ' ' || c == '\u{85}' || c == '\u{A0}' || c
        == '\u{1680}' || ('\u{2000}' <= c && c <= '\u{200A}') || c == '\u{2028}' || c
        == '\u{2029}' || c == '\u{202F}' || c == '\u{205F}' || c == '\u{3000}'
}

/// `String::push` appends one character to the end of the string.
pub assume_specification[ String::push ](s: &mut String, c: char)
    ensures
        final(s)@ == old(s)@.push(c),
;

/// What is taken off the ends of a text.
#[derive(Clone, Copy, Debug, PartialEq, Eq, Structural)]
pub enum Strip {
    /// White space.
    Whitespace,
    /// Every occurrence of one character.
    Character(char),
}

impl Strip {
    /// Whether the character is one to take off.
    pub open spec fn takes(self, c: char) -> bool {
        match self {
            Strip::Whitespace => is_whitespace(c),
            Strip::Character(d) => c == d,
        }
    }

    /// Whether the character is one to take off.
    pub fn takes_off(&self, c: char) -> (r: bool)
        ensures
            r == self.takes(c),
    {
        match self {
            Strip::Whitespace => whitespace(c),
            Strip::Character(d) => c == *d,
        }
    }
}

/// The text without the characters to take off at its start.
pub open spec fn without_leading(s: Seq<char>, strip: Strip) -> Seq<char>
    decreases s.len(),
{
    if s.len() > 0 && strip.takes(s[0]) {
        without_leading(s.drop_first(), strip)
    } else {
        s
    }
}

/// The text without the characters to take off at its end.
pub open spec fn without_trailing(s: Seq<char>, strip: Strip) -> Seq<char>
    decreases s.len(),
{
    if s.len() > 0 && strip.takes(s.last()) {
        without_trailing(s.drop_last(), strip)
    } else {
        s
    }
}

/// The text without the characters to take off at either end.
pub open spec fn stripped(s: Seq<char>, strip: Strip) -> Seq<char> {
    without_trailing(without_leading(s, strip), strip)
}

/// The text without white space at either end.
pub open spec fn trimmed(s: Seq<char>) -> Seq<char> {
    stripped(s, Strip::Whitespace)
}

/// The parts of a text between the occurrences of a separator: one part
/// more than there are separators.
pub open spec fn split_by(s: Seq<char>, separator: char) -> Seq<Seq<char>>
    decreases s.len(),
{
    if s.len() == 0 {
        seq![Seq::<char>::empty()]
    } else {
        let before = split_by(s.drop_last(), separator);
        if s.last() == separator {
            before.push(Seq::<char>::empty())
        } else {
            before.drop_last().push(before.last().push(s.last()))
        }
    }
}

/// Taking characters off the start leaves the rest from the first character
/// that stays.
proof fn leading_is_a_suffix(s: Seq<char>, strip: Strip, start: int)
    requires
        0 <= start <= s.len(),
        forall|j: int| 0 <= j < start ==> strip.takes(s[j]),
        start < s.len() ==> !strip.takes(s[start]),
    ensures
        without_leading(s, strip) == s.subrange(start, s.len() as int),
    decreases start,
{
    if start == 0 {
        assert(s.subrange(0, s.len() as int) =~= s);
    } else {
        let rest = s.drop_first();
        assert(strip.takes(s[0]));
        assert forall|j: int| 0 <= j < start - 1 implies strip.takes(rest[j]) by {
            assert(rest[j] == s[j + 1]);
        }
        leading_is_a_suffix(rest, strip, start - 1);
        assert(rest.subrange(start - 1, rest.len() as int) =~= s.subrange(start, s.len() as int));
    }
}

/// Taking characters off the end leaves the text up to the last character
/// that stays.
proof fn trailing_is_a_prefix(s: Seq<char>, strip: Strip, end: int)
    requires
        0 <= end <= s.len(),
        forall|j: int| end <= j < s.len() ==> strip.takes(s[j]),
        end > 0 ==> !strip.takes(s[end - 1]),
    ensures
        without_trailing(s, strip) == s.subrange(0, end),
    decreases s.len() - end,
{
    if end == s.len() {
        assert(s.subrange(0, end) =~= s);
    } else {
        let rest = s.drop_last();
        assert(strip.takes(s.last()));
        assert forall|j: int| end <= j < rest.len() implies strip.takes(rest[j]) by {
            assert(rest[j] == s[j]);
        }
        trailing_is_a_prefix(rest, strip, end);
        assert(rest.subrange(0, end) =~= s.subrange(0, end));
    }
}

/// The text without the characters to take off at either end.
pub fn strip(text: &Vec<char>, mode: Strip) -> (r: Vec<char>)
    ensures
        r@ == stripped(text@, mode),
{
    let mut start: usize = 0;
    while start < text.len() && mode.takes_off(text[start])
        invariant
            start <= text.len(),
            forall|j: int| 0 <= j < start ==> mode.takes(text@[j]),
        decreases text.len() - start,
    {
        start += 1;
    }
    let mut end: usize = text.len();
    while end > start && mode.takes_off(text[end - 1])
        invariant
            start <= end <= text.len(),
            forall|j: int| end <= j < text.len() ==> mode.takes(text@[j]),
        decreases end,
    {
        end -= 1;
    }
    let mut kept: Vec<char> = Vec::new();
    let mut i: usize = start;
    while i < end
        invariant
            start <= i <= end <= text.len(),
            kept@ == text@.subrange(start as int, i as int),
        decreases end - i,
    {
        kept.push(text[i]);
        proof {
            assert(text@.subrange(start as int, i + 1) =~= text@.subrange(
                start as int,
                i as int,
            ).push(text@[i as int]));
        }
        i += 1;
    }
    proof {
        leading_is_a_suffix(text@, mode, start as int);
        let tail = text@.subrange(start as int, text.len() as int);
        assert forall|j: int| end - start <= j < tail.len() implies mode.takes(tail[j]) by {
            assert(tail[j] == text@[start + j]);
        }
        if end > start {
            assert(tail[end - start - 1] == text@[end - 1]);
        }
        trailing_is_a_prefix(tail, mode, end - start);
        assert(tail.subrange(0, end - start) =~= text@.subrange(start as int, end as int));
    }
    kept
}

/// The views of the parts.
pub open spec fn parts_view(parts: Seq<Vec<char>>) -> Seq<Seq<char>> {
    parts.map_values(|p: Vec<char>| p@)
}

/// The parts of a text between the occurrences of a separator.
pub fn split(text: &Vec<char>, separator: char) -> (r: Vec<Vec<char>>)
    ensures
        parts_view(r@) == split_by(text@, separator),
{
    let mut parts: Vec<Vec<char>> = Vec::new();
    let mut current: Vec<char> = Vec::new();
    let mut i: usize = 0;
    proof {
        assert(text@.take(0) =~= Seq::<char>::empty());
        assert(parts_view(parts@).push(current@) =~= seq![Seq::<char>::empty()]);
    }
    while i < text.len()
        invariant
            i <= text.len(),
            parts_view(parts@).push(current@) == split_by(text@.take(i as int), separator),
        decreases text.len() - i,
    {
        let ghost before = parts_view(parts@).push(current@);
        let ghost old_parts = parts@;
        let ghost old_current = current@;
        proof {
            assert(text@.take(i + 1).drop_last() =~= text@.take(i as int));
            assert(text@.take(i + 1).last() == text@[i as int]);
            assert(before.drop_last() =~= parts_view(old_parts));
            assert(before.last() == old_current);
        }
        if text[i] == separator {
            parts.push(current);
            current = Vec::new();
            proof {
                assert(parts_view(parts@) =~= before);
            }
        } else {
            current.push(text[i]);
        }
        i += 1;
    }
    proof {
        assert(text@.take(i as int) =~= text@);
        let ghost before = parts_view(parts@);
        assert(parts_view(parts@.push(current)) =~= before.push(current@));
    }
    parts.push(current);
    parts
}

/// A copy of the characters.
pub fn copy_chars(chars: &Vec<char>) -> (r: Vec<char>)
    ensures
        r@ == chars@,
{
    let mut copy: Vec<char> = Vec::new();
    let mut i: usize = 0;
    while i < chars.len()
        invariant
            i <= chars.len(),
            copy@ == chars@.take(i as int),
        decreases chars.len() - i,
    {
        copy.push(chars[i]);
        proof {
            assert(chars@.take(i + 1) =~= chars@.take(i as int).push(chars@[i as int]));
        }
        i += 1;
    }
    proof {
        assert(chars@.take(i as int) =~= chars@);
    }
    copy
}

/// The string of the characters.
pub fn text_of(chars: &Vec<char>) -> (r: String)
    ensures
        r@ == chars@,
{
    let mut text = String::new();
    let mut i: usize = 0;
    while i < chars.len()
        invariant
            i <= chars.len(),
            text@ == chars@.take(i as int),
        decreases chars.len() - i,
    {
        text.push(chars[i]);
        proof {
            assert(chars@.take(i + 1) =~= chars@.take(i as int).push(chars@[i as int]));
        }
        i += 1;
    }
    proof {
        assert(chars@.take(i as int) =~= chars@);
    }
    text
}

} // verus!
