use vstd::prelude::*;

verus! {

/// Whether two string slices hold the same characters.
pub(crate) fn str_eq(a: &str, b: &str) -> (same: bool)
    ensures
        same == (a@ == b@),
{
    let a_owned = String::from_str(a);
    let b_owned = String::from_str(b);
    a_owned == b_owned
}

/// `suffix` is a suffix of `s`.
pub open spec fn has_suffix(s: Seq<char>, suffix: Seq<char>) -> bool {
    suffix.len() <= s.len() && s.skip(s.len() - suffix.len()) == suffix
}

/// `prefix` is a prefix of `s`.
pub open spec fn has_prefix(s: Seq<char>, prefix: Seq<char>) -> bool {
    prefix.len() <= s.len() && s.take(prefix.len() as int) == prefix
}

/// Whether `s` ends with `suffix` (as `str::ends_with` with a string pattern).
pub(crate) fn ends_with(s: &str, suffix: &str) -> (r: bool)
    ensures
        r == has_suffix(s@, suffix@),
{
    let n = s.unicode_len();
    let m = suffix.unicode_len();
    if m > n {
        false
    } else {
        let tail = s.substring_char(n - m, n);
        proof {
            assert(s@.subrange((n - m) as int, n as int) =~= s@.skip(s@.len() - suffix@.len()));
        }
        str_eq(tail, suffix)
    }
}

/// Whether `s` starts with `prefix` (as `str::starts_with` with a string pattern).
pub(crate) fn starts_with(s: &str, prefix: &str) -> (r: bool)
    ensures
        r == has_prefix(s@, prefix@),
{
    let n = s.unicode_len();
    let m = prefix.unicode_len();
    if m > n {
        false
    } else {
        let head = s.substring_char(0, m);
        proof {
            assert(s@.subrange(0, m as int) =~= s@.take(prefix@.len() as int));
        }
        str_eq(head, prefix)
    }
}

/// The characters with the Unicode `White_Space` property, which `char::is_whitespace`
/// and `str::trim` go by.
pub open spec fn is_white_space(c: char) -> bool {
    ('\u{9}' <= c && c <= '\u{d}') || c == ' ' || c == '\u{85}' || c == '\u{a0}' || c == '\u{1680}'
        || ('\u{2000}' <= c && c <= '\u{200a}') || c == '\u{2028}' || c == '\u{2029}' || c
        == '\u{202f}' || c == '\u{205f}' || c == '\u{3000}'
}

/// `s` trims to the empty string: it holds white space only.
pub open spec fn is_blank_text(s: Seq<char>) -> bool {
    forall|i: int| 0 <= i < s.len() ==> is_white_space(#[trigger] s[i])
}

pub(crate) fn is_white_space_char(c: char) -> (r: bool)
    ensures
        r == is_white_space(c),
{
    ('\u{9}' <= c && c <= '\u{d}') || c == ' ' || c == '\u{85}' || c == '\u{a0}' || c == '\u{1680}'
        || ('\u{2000}' <= c && c <= '\u{200a}') || c == '\u{2028}' || c == '\u{2029}' || c
        == '\u{202f}' || c == '\u{205f}' || c == '\u{3000}'
}

/// Whether `s.trim().is_empty()`: every character of `s` is white space.
pub(crate) fn is_blank(s: &str) -> (r: bool)
    ensures
        r == is_blank_text(s@),
{
    for c in it: s.chars()
        invariant
            it.seq() == s@,
            forall|j: int| 0 <= j < it.index() ==> is_white_space(#[trigger] s@[j]),
    {
        if !is_white_space_char(c) {
            return false;
        }
    }
    true
}

} // verus!

verus! {

/// A text counts as blank exactly when it trims to nothing: when every one of its characters
/// is white space. So a text with one character that is not white space is never blank, the
/// empty text is blank, and a concatenation is blank exactly when both parts are.
pub proof fn law_blank_means_only_white_space(a: Seq<char>, b: Seq<char>)
    ensures
        is_blank_text(a) <==> (forall|i: int| 0 <= i < a.len() ==> is_white_space(#[trigger] a[i])),
        (exists|i: int| 0 <= i < a.len() && !is_white_space(#[trigger] a[i])) ==> !is_blank_text(a),
        is_blank_text(Seq::<char>::empty()),
        is_blank_text(a + b) <==> is_blank_text(a) && is_blank_text(b),
{
    if is_blank_text(a) && is_blank_text(b) {
        assert forall|i: int| 0 <= i < (a + b).len() implies is_white_space(#[trigger] (a + b)[i]) by {
            if i < a.len() {
                assert((a + b)[i] == a[i]);
            } else {
                assert((a + b)[i] == b[i - a.len()]);
            }
        }
    }
    if is_blank_text(a + b) {
        assert forall|i: int| 0 <= i < a.len() implies is_white_space(#[trigger] a[i]) by {
            assert((a + b)[i] == a[i]);
        }
        assert forall|i: int| 0 <= i < b.len() implies is_white_space(#[trigger] b[i]) by {
            assert((a + b)[a.len() + i] == b[i]);
        }
    }
}

} // verus!
