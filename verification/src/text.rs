//! Character-level text helpers shared by search, commands, and excerpts.
//!
//! Strings are reasoned about through their character sequences. Whitespace
//! is the Unicode `White_Space` property, stated here in full. Lowercasing is
//! `str::to_lowercase`: its ASCII part is stated, and the rest of the Unicode
//! mapping is named rather than rebuilt.
use vstd::prelude::*;
use vstd::string::*;

verus! {

/// Whether `c` has the Unicode `White_Space` property: the ASCII tab, line
/// feed, vertical tab, form feed, carriage return and space, NEL, NO-BREAK
/// SPACE, OGHAM SPACE MARK, the spaces U+2000 to U+200A, LINE SEPARATOR,
/// PARAGRAPH SEPARATOR, NARROW NO-BREAK SPACE, MEDIUM MATHEMATICAL SPACE and
/// IDEOGRAPHIC SPACE. These are the characters `char::is_whitespace` accepts.
pub open spec fn whitespace(c: char) -> bool {
    let u = c as u32;
    ||| 0x09 <= u <= 0x0D
    ||| u == 0x20
    ||| u == 0x85
    ||| u == 0xA0
    ||| u == 0x1680
    ||| 0x2000 <= u <= 0x200A
    ||| u == 0x2028
    ||| u == 0x2029
    ||| u == 0x202F
    ||| u == 0x205F
    ||| u == 0x3000
}

/// The lowercase form of an ASCII character: `A` to `Z` become `a` to `z`,
/// every other character stays as it is.
pub open spec fn ascii_lower(c: char) -> char {
    if 'A' <= c && c <= 'Z' {
        ((c as u32) + 32) as char
    } else {
        c
    }
}

/// Whether every character of `s` is ASCII.
pub open spec fn all_ascii(s: Seq<char>) -> bool {
    forall|i: int| 0 <= i < s.len() ==> (#[trigger] s[i] as u32) < 0x80
}

/// The full Unicode lowercase mapping of `s`, as `str::to_lowercase`
/// produces it.
pub uninterp spec fn unicode_lowercased(s: Seq<char>) -> Seq<char>;

/// What `str::to_lowercase` makes of `s`: on ASCII text, each letter `A` to
/// `Z` lowered and everything else kept, character for character; on other
/// text, the Unicode mapping.
pub open spec fn lowercased(s: Seq<char>) -> Seq<char> {
    if all_ascii(s) {
        s.map_values(|c: char| ascii_lower(c))
    } else {
        unicode_lowercased(s)
    }
}

/// Whether `c` is whitespace, answered from the `White_Space` table.
pub(crate) fn is_whitespace(c: char) -> (ws: bool)
    ensures
        ws == whitespace(c),
{
    let u = c as u32;
    (0x09 <= u && u <= 0x0D) || u == 0x20 || u == 0x85 || u == 0xA0 || u == 0x1680 || (0x2000
        <= u && u <= 0x200A) || u == 0x2028 || u == 0x2029 || u == 0x202F || u == 0x205F || u
        == 0x3000
}

/// Calls `str::to_lowercase`. The contract claims that on ASCII text the
/// result lowers `A` to `Z` and keeps every other character, that on other
/// text it is a function of the characters of `s`, and that it is empty
/// exactly when `s` is (every character has a lowercase form of at least one
/// character). Which characters the Unicode mapping produces outside ASCII
/// is left unstated.
#[verifier::external_body]
pub(crate) fn to_lowercase(s: &str) -> (lower: String)
    ensures
        all_ascii(s@) ==> lower@ == s@.map_values(|c: char| ascii_lower(c)),
        !all_ascii(s@) ==> lower@ == unicode_lowercased(s@),
        lower@ == lowercased(s@),
        (lower@.len() == 0) == (s@.len() == 0),
{
    s.to_lowercase()
}

/// The characters of `s`, in order.
pub fn chars_of(s: &str) -> (chars: Vec<char>)
    ensures
        chars@ == s@,
{
    let len = s.unicode_len();
    let mut chars: Vec<char> = Vec::new();
    let mut k: usize = 0;
    while k < len
        invariant
            len == s@.len(),
            k <= len,
            chars@ == s@.take(k as int),
        decreases len - k,
    {
        let c = s.get_char(k);
        chars.push(c);
        proof {
            assert(s@.take(k + 1) =~= s@.take(k as int).push(c));
        }
        k = k + 1;
    }
    proof {
        assert(s@.take(len as int) =~= s@);
    }
    chars
}

/// Whether two character sequences are equal.
pub fn chars_eq(a: &[char], b: &[char]) -> (same: bool)
    ensures
        same == (a@ == b@),
{
    if a.len() != b.len() {
        return false;
    }
    let mut k: usize = 0;
    while k < a.len()
        invariant
            a@.len() == b@.len(),
            k <= a@.len(),
            forall|i: int| 0 <= i < k ==> a@[i] == b@[i],
        decreases a@.len() - k,
    {
        if a[k] != b[k] {
            return false;
        }
        k = k + 1;
    }
    proof {
        assert(a@ =~= b@);
    }
    true
}

/// Whether two strings hold the same characters.
pub fn str_eq(a: &str, b: &str) -> (same: bool)
    ensures
        same == (a@ == b@),
{
    let x = chars_of(a);
    let y = chars_of(b);
    chars_eq(x.as_slice(), y.as_slice())
}

/// Whether `needle` occurs in `hay` starting at `start`.
pub open spec fn occurs_at(hay: Seq<char>, needle: Seq<char>, start: int) -> bool {
    0 <= start && start + needle.len() <= hay.len() && hay.subrange(start, start + needle.len())
        == needle
}

/// Whether `needle` occurs anywhere in `hay`.
pub open spec fn contains_seq(hay: Seq<char>, needle: Seq<char>) -> bool {
    exists|start: int| occurs_at(hay, needle, start)
}

/// Whether `needle` occurs in `hay` at `start`.
pub fn matches_at(hay: &[char], needle: &[char], start: usize) -> (found: bool)
    requires
        start + needle@.len() <= hay@.len(),
    ensures
        found == occurs_at(hay@, needle@, start as int),
{
    let hay_len = hay.len();
    let mut k: usize = 0;
    while k < needle.len()
        invariant
            hay_len == hay@.len(),
            start + needle@.len() <= hay@.len(),
            k <= needle@.len(),
            forall|i: int| 0 <= i < k ==> hay@[start + i] == needle@[i],
        decreases needle@.len() - k,
    {
        if hay[start + k] != needle[k] {
            proof {
                assert(hay@.subrange(start as int, start + needle@.len())[k as int] != needle@[k as int]);
            }
            return false;
        }
        k = k + 1;
    }
    proof {
        assert(hay@.subrange(start as int, start + needle@.len()) =~= needle@);
    }
    true
}

/// Whether `needle` occurs anywhere in `hay`.
pub fn contains_chars(hay: &[char], needle: &[char]) -> (found: bool)
    ensures
        found == contains_seq(hay@, needle@),
{
    if needle.len() > hay.len() {
        proof {
            assert forall|start: int| !occurs_at(hay@, needle@, start) by {}
        }
        return false;
    }
    let last = hay.len() - needle.len();
    let mut start: usize = 0;
    while start <= last
        invariant
            last == hay@.len() - needle@.len(),
            start <= last + 1,
            forall|s: int| 0 <= s < start ==> !occurs_at(hay@, needle@, s),
        ensures
            forall|s: int| 0 <= s <= last ==> !occurs_at(hay@, needle@, s),
        decreases last + 1 - start,
    {
        if matches_at(hay, needle, start) {
            return true;
        }
        if start == last {
            break;
        }
        start = start + 1;
    }
    proof {
        assert forall|s: int| !occurs_at(hay@, needle@, s) by {
            if 0 <= s <= last {
            }
        }
    }
    false
}

/// Whether `prefix` starts `hay`.
pub fn starts_with_chars(hay: &[char], prefix: &[char]) -> (found: bool)
    ensures
        found == prefix@.is_prefix_of(hay@),
{
    if prefix.len() > hay.len() {
        return false;
    }
    let found = matches_at(hay, prefix, 0);
    proof {
        if found {
            assert forall|i: int| 0 <= i < prefix@.len() implies prefix@[i] == hay@[i] by {
                assert(hay@.subrange(0, prefix@.len() as int)[i] == hay@[i]);
            }
        } else {
            if prefix@.is_prefix_of(hay@) {
                assert(hay@.subrange(0, prefix@.len() as int) =~= prefix@);
            }
        }
    }
    found
}

/// Index of the first character of `s` that is not whitespace, or `s.len()`.
pub open spec fn first_non_ws(s: Seq<char>) -> int
    decreases s.len(),
{
    if s.len() == 0 {
        0
    } else if whitespace(s[0]) {
        1 + first_non_ws(s.drop_first())
    } else {
        0
    }
}

/// One past the last character of `s` that is not whitespace, or `0`.
pub open spec fn end_non_ws(s: Seq<char>) -> int
    decreases s.len(),
{
    if s.len() == 0 {
        0
    } else if whitespace(s.last()) {
        end_non_ws(s.drop_last())
    } else {
        s.len() as int
    }
}

/// `s` without leading and trailing whitespace.
pub open spec fn trimmed(s: Seq<char>) -> Seq<char> {
    if first_non_ws(s) >= s.len() {
        Seq::empty()
    } else {
        s.subrange(first_non_ws(s), end_non_ws(s))
    }
}

proof fn lemma_first_non_ws(s: Seq<char>)
    ensures
        0 <= first_non_ws(s) <= s.len(),
        forall|i: int| 0 <= i < first_non_ws(s) ==> whitespace(#[trigger] s[i]),
        first_non_ws(s) < s.len() ==> !whitespace(s[first_non_ws(s)]),
    decreases s.len(),
{
    if s.len() > 0 && whitespace(s[0]) {
        lemma_first_non_ws(s.drop_first());
        assert forall|i: int| 0 <= i < first_non_ws(s) implies whitespace(#[trigger] s[i]) by {
            if i > 0 {
                assert(s[i] == s.drop_first()[i - 1]);
            }
        }
    }
}

proof fn lemma_end_non_ws(s: Seq<char>)
    ensures
        0 <= end_non_ws(s) <= s.len(),
        forall|i: int| end_non_ws(s) <= i < s.len() ==> whitespace(#[trigger] s[i]),
        end_non_ws(s) > 0 ==> !whitespace(s[end_non_ws(s) - 1]),
    decreases s.len(),
{
    if s.len() > 0 && whitespace(s.last()) {
        lemma_end_non_ws(s.drop_last());
        assert forall|i: int| end_non_ws(s) <= i < s.len() implies whitespace(#[trigger] s[i]) by {
            if i < s.len() - 1 {
                assert(s[i] == s.drop_last()[i]);
            }
        }
    }
}

/// The first non-whitespace position never lies past the end of the last
/// non-whitespace character, unless everything is whitespace.
proof fn lemma_trim_bounds(s: Seq<char>)
    ensures
        first_non_ws(s) < s.len() ==> first_non_ws(s) < end_non_ws(s),
{
    lemma_first_non_ws(s);
    lemma_end_non_ws(s);
    if first_non_ws(s) < s.len() {
        let f = first_non_ws(s);
        if end_non_ws(s) <= f {
            assert(whitespace(s[f]));
        }
    }
}

/// `s` with leading and trailing whitespace removed, as `str::trim` does.
pub fn trim_chars(s: &str) -> (t: &str)
    ensures
        t@ == trimmed(s@),
{
    let chars = chars_of(s);
    let len = chars.len();
    let mut start: usize = 0;
    while start < len && is_whitespace(chars[start])
        invariant
            len == s@.len(),
            chars@ == s@,
            start <= len,
            forall|i: int| 0 <= i < start ==> whitespace(#[trigger] s@[i]),
        decreases len - start,
    {
        start = start + 1;
    }
    proof {
        lemma_first_non_ws(s@);
        assert(start == first_non_ws(s@)) by {
            let f = first_non_ws(s@);
            if start < f {
                assert(whitespace(s@[start as int]));
            }
            if f < start {
                assert(whitespace(s@[f]));
            }
        }
    }
    if start == len {
        let empty = s.substring_char(0, 0);
        proof {
            assert(empty@ =~= Seq::<char>::empty());
        }
        return empty;
    }
    let mut end: usize = len;
    while end > 0 && is_whitespace(chars[end - 1])
        invariant
            len == s@.len(),
            chars@ == s@,
            end <= len,
            forall|i: int| end <= i < len ==> whitespace(#[trigger] s@[i]),
        decreases end,
    {
        end = end - 1;
    }
    proof {
        lemma_end_non_ws(s@);
        lemma_trim_bounds(s@);
        assert(end == end_non_ws(s@)) by {
            let e = end_non_ws(s@);
            if end < e {
                assert(whitespace(s@[e - 1]));
            }
            if e < end {
                assert(whitespace(s@[end - 1]));
            }
        }
    }
    s.substring_char(start, end)
}

/// Calls `String::push`, which appends one character.
#[verifier::external_body]
pub(crate) fn push_char(text: &mut String, c: char)
    ensures
        final(text)@ == old(text)@.push(c),
{
    text.push(c);
}

/// A string holding `chars`, in order.
pub fn string_from_chars(chars: &[char]) -> (text: String)
    ensures
        text@ == chars@,
{
    let mut text = String::new();
    let mut k: usize = 0;
    while k < chars.len()
        invariant
            k <= chars@.len(),
            text@ == chars@.take(k as int),
        decreases chars@.len() - k,
    {
        push_char(&mut text, chars[k]);
        proof {
            assert(chars@.take(k + 1) =~= chars@.take(k as int).push(chars@[k as int]));
        }
        k = k + 1;
    }
    proof {
        assert(chars@.take(chars@.len() as int) =~= chars@);
    }
    text
}

/// The words of `s` joined by single spaces: runs of whitespace between words
/// become one space, and leading and trailing whitespace disappears.
pub open spec fn collapse_ws(s: Seq<char>) -> Seq<char>
    decreases s.len(),
{
    if s.len() == 0 {
        Seq::empty()
    } else {
        let prev = collapse_ws(s.drop_last());
        let c = s.last();
        if whitespace(c) {
            prev
        } else if prev.len() == 0 {
            seq![c]
        } else if whitespace(s.drop_last().last()) {
            prev + seq![' ', c]
        } else {
            prev.push(c)
        }
    }
}

/// The characters of `s` that are not whitespace, in order.
pub open spec fn word_chars(s: Seq<char>) -> Seq<char> {
    s.filter(|c: char| !whitespace(c))
}

/// Whether `s` reads as one line of words: it neither starts nor ends with
/// whitespace, its only whitespace character is the plain space, and no two
/// spaces are adjacent.
pub open spec fn one_line(s: Seq<char>) -> bool {
    &&& s.len() > 0 ==> !whitespace(s[0]) && !whitespace(s.last())
    &&& forall|i: int| 0 <= i < s.len() && whitespace(#[trigger] s[i]) ==> s[i] == ' '
    &&& forall|i: int| 0 <= i < s.len() - 1 && #[trigger] s[i] == ' ' ==> !whitespace(s[i + 1])
}

/// Collapsing whitespace keeps every character of every word, in order, and
/// leaves one line: the words separated by single plain spaces, with nothing
/// before the first word or after the last.
pub proof fn lemma_collapse_keeps_words_on_one_line(s: Seq<char>)
    ensures
        word_chars(collapse_ws(s)) == word_chars(s),
        one_line(collapse_ws(s)),
    decreases s.len(),
{
    broadcast use vstd::seq_lib::group_filter_ensures;
    broadcast use Seq::lemma_filter_push, Seq::filter_distributes_over_add;

    if s.len() > 0 {
        let init = s.drop_last();
        let c = s.last();
        lemma_collapse_keeps_words_on_one_line(init);
        let prev = collapse_ws(init);
        let col = collapse_ws(s);
        assert(s =~= init.push(c));
        assert(word_chars(s) == if !whitespace(c) {
            word_chars(init).push(c)
        } else {
            word_chars(init)
        }) by {
            init.lemma_filter_push(c, |x: char| !whitespace(x));
        }
        if whitespace(c) {
        } else if prev.len() == 0 {
            assert(word_chars(prev) =~= Seq::<char>::empty()) by {
                reveal(Seq::filter);
            }
            assert(seq![c] =~= Seq::<char>::empty().push(c));
            Seq::<char>::empty().lemma_filter_push(c, |x: char| !whitespace(x));
            assert(word_chars(Seq::<char>::empty()) =~= Seq::<char>::empty()) by {
                reveal(Seq::filter);
            }
        } else if whitespace(init.last()) {
            assert(col == prev + seq![' ', c]);
            assert(seq![' ', c] =~= seq![' '].push(c));
            seq![' '].lemma_filter_push(c, |x: char| !whitespace(x));
            assert(seq![' '] =~= Seq::<char>::empty().push(' '));
            Seq::<char>::empty().lemma_filter_push(' ', |x: char| !whitespace(x));
            assert(word_chars(Seq::<char>::empty()) =~= Seq::<char>::empty()) by {
                reveal(Seq::filter);
            }
            assert(whitespace(' '));
            Seq::filter_distributes_over_add(prev, seq![' ', c], |x: char| !whitespace(x));
            assert(word_chars(col) =~= word_chars(prev).push(c));
            assert forall|i: int| 0 <= i < col.len() - 1 && #[trigger] col[i] == ' ' implies !whitespace(col[i + 1]) by {
                if i < prev.len() - 1 {
                    assert(col[i] == prev[i] && col[i + 1] == prev[i + 1]);
                } else if i == prev.len() - 1 {
                    assert(col[i] == prev.last());
                }
            }
            assert forall|i: int| 0 <= i < col.len() && whitespace(#[trigger] col[i]) implies col[i] == ' ' by {
                if i < prev.len() {
                    assert(col[i] == prev[i]);
                }
            }
        } else {
            assert(col == prev.push(c));
            prev.lemma_filter_push(c, |x: char| !whitespace(x));
            assert forall|i: int| 0 <= i < col.len() - 1 && #[trigger] col[i] == ' ' implies !whitespace(col[i + 1]) by {
                if i < prev.len() - 1 {
                    assert(col[i] == prev[i] && col[i + 1] == prev[i + 1]);
                }
            }
            assert forall|i: int| 0 <= i < col.len() && whitespace(#[trigger] col[i]) implies col[i] == ' ' by {
                if i < prev.len() {
                    assert(col[i] == prev[i]);
                }
            }
        }
    } else {
        assert(word_chars(s) =~= s) by {
            reveal(Seq::filter);
        }
    }
}

/// Longest excerpt kept whole, in characters.
pub const EXCERPT_CHARS: usize = 56;

/// A one-line excerpt: the collapsed text, cut after its first
/// [`EXCERPT_CHARS`] characters with an ellipsis when longer.
pub open spec fn excerpt_of(s: Seq<char>) -> Seq<char> {
    let collapsed = collapse_ws(s);
    if collapsed.len() <= EXCERPT_CHARS {
        collapsed
    } else {
        collapsed.take(EXCERPT_CHARS as int).push('…')
    }
}

/// The excerpt is one line of at most [`EXCERPT_CHARS`] characters plus an
/// ellipsis: it never starts with whitespace, its only whitespace character
/// is the plain space, and no two spaces are adjacent. When the collapsed
/// text fits, the excerpt keeps every character of every word of the input,
/// in order; otherwise it is the first [`EXCERPT_CHARS`] characters of the
/// collapsed text followed by `…`.
pub proof fn lemma_excerpt_is_one_line(s: Seq<char>)
    ensures
        excerpt_of(s).len() <= EXCERPT_CHARS + 1,
        excerpt_of(s).len() > 0 ==> !whitespace(excerpt_of(s)[0]),
        forall|i: int|
            0 <= i < excerpt_of(s).len() && whitespace(#[trigger] excerpt_of(s)[i]) ==> excerpt_of(
                s,
            )[i] == ' ',
        forall|i: int|
            0 <= i < excerpt_of(s).len() - 1 && #[trigger] excerpt_of(s)[i] == ' ' ==> !whitespace(
                excerpt_of(s)[i + 1],
            ),
        collapse_ws(s).len() <= EXCERPT_CHARS ==> word_chars(excerpt_of(s)) == word_chars(s),
        collapse_ws(s).len() > EXCERPT_CHARS ==> excerpt_of(s).last() == '…' && excerpt_of(s).drop_last()
            == collapse_ws(s).take(EXCERPT_CHARS as int),
{
    lemma_collapse_keeps_words_on_one_line(s);
    let col = collapse_ws(s);
    let r = excerpt_of(s);
    if col.len() > EXCERPT_CHARS {
        assert(!whitespace('…'));
        assert(r.drop_last() =~= col.take(EXCERPT_CHARS as int));
        assert forall|i: int| 0 <= i < r.len() && whitespace(#[trigger] r[i]) implies r[i] == ' ' by {
            if i < EXCERPT_CHARS {
                assert(r[i] == col[i]);
            }
        }
        assert forall|i: int| 0 <= i < r.len() - 1 && #[trigger] r[i] == ' ' implies !whitespace(r[i + 1]) by {
            assert(r[i] == col[i]);
            if i + 1 < EXCERPT_CHARS {
                assert(r[i + 1] == col[i + 1]);
            }
        }
        assert(r[0] == col[0]);
    }
}

/// A one-line excerpt of selected text, collapsed and truncated.
pub fn excerpt(text: &str) -> (line: String)
    ensures
        line@ == excerpt_of(text@),
{
    let chars = chars_of(text);
    let len = chars.len();
    let mut out: Vec<char> = Vec::new();
    let mut k: usize = 0;
    while k < len
        invariant
            len == text@.len(),
            chars@ == text@,
            k <= len,
            out@ == collapse_ws(text@.take(k as int)),
            out@.len() <= k + k,
        decreases len - k,
    {
        let c = chars[k];
        let ghost prefix = text@.take(k as int);
        proof {
            assert(text@.take(k + 1).drop_last() =~= prefix);
            assert(text@.take(k + 1).last() == c);
        }
        if !is_whitespace(c) {
            if out.len() == 0 {
                out.push(c);
            } else {
                if is_whitespace(chars[k - 1]) {
                    proof {
                        assert(prefix.last() == chars@[k - 1]);
                    }
                    out.push(' ');
                    out.push(c);
                    proof {
                        assert(out@ =~= collapse_ws(prefix) + seq![' ', c]);
                    }
                } else {
                    proof {
                        assert(prefix.last() == chars@[k - 1]);
                    }
                    out.push(c);
                }
            }
        }
        k = k + 1;
    }
    proof {
        assert(text@.take(len as int) =~= text@);
    }
    if out.len() <= EXCERPT_CHARS {
        return string_from_chars(out.as_slice());
    }
    let mut head: Vec<char> = Vec::new();
    let mut i: usize = 0;
    while i < EXCERPT_CHARS
        invariant
            out@.len() > EXCERPT_CHARS,
            i <= EXCERPT_CHARS,
            head@ == out@.take(i as int),
        decreases EXCERPT_CHARS - i,
    {
        head.push(out[i]);
        proof {
            assert(out@.take(i + 1) =~= out@.take(i as int).push(out@[i as int]));
        }
        i = i + 1;
    }
    head.push('…');
    string_from_chars(head.as_slice())
}

} // verus!
