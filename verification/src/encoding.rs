use vstd::prelude::*;
use vstd::utf8::encode_utf8;
use base64::Engine;

verus! {

/// The standard (RFC 4648, padded) base64 text of the UTF-8 bytes of `text`.
pub uninterp spec fn standard_base64(text: Seq<char>) -> Seq<char>;

/// The bytes that base64 output is made of: the standard alphabet and the pad `=`.
pub open spec fn is_base64_char(c: char) -> bool {
    ('A' <= c && c <= 'Z') || ('a' <= c && c <= 'z') || ('0' <= c && c <= '9') || c == '+'
        || c == '/' || c == '='
}

/// Text made of base64 characters only: it holds no quote, backslash or line break, so it
/// cannot end the JavaScript string literal or script that it is placed in.
pub open spec fn is_base64_text(s: Seq<char>) -> bool {
    forall|i: int| 0 <= i < s.len() ==> is_base64_char(#[trigger] s[i])
}

/// Length of padded base64 output for `n` input bytes.
pub open spec fn base64_len(n: nat) -> nat {
    4 * ((n + 2) / 3)
}

/// `text` is short enough for its base64 length to be computed without overflow.
pub open spec fn base64_fits(text: Seq<char>) -> bool {
    base64_len(encode_utf8(text).len()) <= usize::MAX
}

/// Calls `base64::engine::general_purpose::STANDARD.encode` on the UTF-8 bytes of `text`.
/// Trusted: the result is named `standard_base64(text@)`; it is made of the standard alphabet
/// and `=` only, and its length is `4 * ceil(bytes / 3)` (the padded `encoded_len`).
/// The crate panics when that length overflows `usize`, which `requires` excludes.
#[verifier::external_body]
pub(crate) fn base64_encode(text: &str) -> (encoded: String)
    requires
        base64_fits(text@),
    ensures
        encoded@ == standard_base64(text@),
        encoded@.len() == base64_len(encode_utf8(text@).len()),
        forall|i: int| 0 <= i < encoded@.len() ==> is_base64_char(#[trigger] encoded@[i]),
{
    base64::engine::general_purpose::STANDARD.encode(text.as_bytes())
}

/// `String::push` of std: appends the one character `ch` at the end of `s`, as its
/// documentation says. Trusted: vstd gives this method no specification.
pub assume_specification[ String::push ](s: &mut String, ch: char)
    ensures
        final(s)@ == old(s)@.push(ch),
;

/// The JavaScript expression that turns the base64 text `b64` back into the Unicode string
/// whose UTF-8 bytes it encodes.
pub open spec fn js_b64_expr_text(b64: Seq<char>) -> Seq<char> {
    "decodeURIComponent(escape(atob('"@ + b64 + "')))"@
}

/// The JavaScript expression that evaluates to `text`, carried as its standard base64.
pub open spec fn js_b64_text(text: Seq<char>) -> Seq<char> {
    js_b64_expr_text(standard_base64(text))
}

/// Wraps base64 text in the JavaScript expression that decodes it to a Unicode string.
pub fn js_b64_expression(b64: &str) -> (expr: String)
    ensures
        expr@ == js_b64_expr_text(b64@),
{
    let mut out = String::from_str("decodeURIComponent(escape(atob('");
    out.append(b64);
    out.append("')))");
    out
}

/// Wraps `s` in a JavaScript expression that evaluates to `s`, carrying it as base64 so that
/// no character of `s` can end the surrounding script or string literal.
pub fn js_b64(s: &str) -> (expr: String)
    requires
        base64_fits(s@),
    ensures
        expr@ == js_b64_text(s@),
        is_base64_text(standard_base64(s@)),
        standard_base64(s@).len() == base64_len(encode_utf8(s@).len()),
{
    let b64 = base64_encode(s);
    js_b64_expression(b64.as_str())
}

} // verus!

verus! {

/// How one character of a theme name is written inside a single-quoted JavaScript string.
pub open spec fn js_escape_char(c: char) -> Seq<char> {
    if c == '\\' {
        seq!['\\', '\\']
    } else if c == '\'' {
        seq!['\\', '\'']
    } else {
        seq![c]
    }
}

/// `s` with every backslash doubled and every single quote preceded by a backslash.
pub open spec fn js_escape(s: Seq<char>) -> Seq<char>
    decreases s.len(),
{
    if s.len() == 0 {
        Seq::empty()
    } else {
        js_escape(s.drop_last()) + js_escape_char(s.last())
    }
}

/// Single-quoted JavaScript string literal for `s`.
pub open spec fn js_quoted(s: Seq<char>) -> Seq<char> {
    seq!['\''] + js_escape(s) + seq!['\'']
}

/// Writes `name` as a single-quoted JavaScript string literal: backslashes are doubled, then
/// single quotes are escaped, and the result is put between single quotes.
pub fn quote_js_name(name: &str) -> (lit: String)
    ensures
        lit@ == js_quoted(name@),
{
    let mut out = String::from_str("'");
    let ghost start = out@;
    for c in it: name.chars()
        invariant
            it.seq() == name@,
            out@ == start + js_escape(name@.take(it.index())),
    {
        proof {
            reveal_strlit("\\\\");
            reveal_strlit("\\'");
            assert(name@.take(it.index() + 1).drop_last() =~= name@.take(it.index()));
            assert(name@.take(it.index() + 1).last() == c);
        }
        if c == '\\' {
            out.append("\\\\");
        } else if c == '\'' {
            out.append("\\'");
        } else {
            out.push(c);
        }
    }
    out.append("'");
    proof {
        reveal_strlit("'");
        assert(name@.take(name@.len() as int) =~= name@);
        assert(out@ =~= js_quoted(name@));
    }
    out
}

} // verus!

verus! {

/// The characters denoted by the body of a single-quoted JavaScript string literal, where the
/// body may use the escapes `\\` and `\'`; `None` where the body is not such a literal body
/// (an unescaped quote or line break, or any other escape).
pub open spec fn js_literal_body_value(body: Seq<char>) -> Option<Seq<char>>
    decreases body.len(),
{
    if body.len() == 0 {
        Some(Seq::empty())
    } else if body[0] == '\\' {
        if body.len() >= 2 && (body[1] == '\\' || body[1] == '\'') {
            match js_literal_body_value(body.skip(2)) {
                Some(rest) => Some(seq![body[1]] + rest),
                None => None,
            }
        } else {
            None
        }
    } else if body[0] == '\'' || body[0] == '\n' || body[0] == '\r' {
        None
    } else {
        match js_literal_body_value(body.skip(1)) {
            Some(rest) => Some(seq![body[0]] + rest),
            None => None,
        }
    }
}

/// The string that a single-quoted JavaScript literal denotes, if `lit` is one.
pub open spec fn js_literal_value(lit: Seq<char>) -> Option<Seq<char>> {
    if lit.len() >= 2 && lit[0] == '\'' && lit.last() == '\'' {
        js_literal_body_value(lit.subrange(1, lit.len() - 1))
    } else {
        None
    }
}

proof fn lemma_js_escape_prepend(c: char, s: Seq<char>)
    ensures
        js_escape(seq![c] + s) == js_escape_char(c) + js_escape(s),
    decreases s.len(),
{
    if s.len() == 0 {
        assert((seq![c] + s).drop_last() =~= Seq::<char>::empty());
        assert((seq![c] + s).last() == c);
        assert(js_escape(Seq::<char>::empty()) =~= Seq::<char>::empty());
        assert(js_escape(seq![c] + s) =~= js_escape_char(c));
    } else {
        lemma_js_escape_prepend(c, s.drop_last());
        assert((seq![c] + s).drop_last() =~= seq![c] + s.drop_last());
        assert((seq![c] + s).last() == s.last());
        assert(js_escape(seq![c] + s) =~= js_escape_char(c) + js_escape(s));
    }
}

proof fn lemma_js_escape_body(s: Seq<char>)
    requires
        forall|i: int| 0 <= i < s.len() ==> #[trigger] s[i] != '\n' && s[i] != '\r',
    ensures
        js_literal_body_value(js_escape(s)) == Some(s),
    decreases s.len(),
{
    if s.len() == 0 {
    } else {
        let c = s[0];
        let rest = s.drop_first();
        assert(s =~= seq![c] + rest);
        lemma_js_escape_prepend(c, rest);
        assert(forall|i: int| 0 <= i < rest.len() ==> rest[i] == s[i + 1]);
        lemma_js_escape_body(rest);
        let e = js_escape(s);
        let n = js_escape_char(c).len() as int;
        assert(e.skip(n) =~= js_escape(rest));
        assert(js_literal_body_value(e) =~= Some(seq![c] + rest));
    }
}

/// A theme name written by `quote_js_name` is a JavaScript string literal that denotes
/// exactly that name, for every name without a carriage return or line feed.
pub proof fn law_quoted_name_denotes_name(name: Seq<char>)
    requires
        forall|i: int| 0 <= i < name.len() ==> #[trigger] name[i] != '\n' && name[i] != '\r',
    ensures
        js_literal_value(js_quoted(name)) == Some(name),
{
    lemma_js_escape_body(name);
    let q = js_quoted(name);
    assert(q.subrange(1, q.len() - 1) =~= js_escape(name));
}

} // verus!

verus! {

/// The UTF-8 form of `text` is no longer than `isize::MAX` bytes, as for every Rust string.
pub open spec fn within_isize(text: Seq<char>) -> bool {
    encode_utf8(text).len() <= isize::MAX
}

pub proof fn lemma_base64_len_bound(n: nat, k: nat)
    requires
        n <= isize::MAX,
        k <= 16384,
    ensures
        base64_len(n) <= usize::MAX,
        base64_len(k + base64_len(n)) <= usize::MAX,
{
    assert(usize::MAX == 2 * isize::MAX + 1);
    assert(isize::MAX >= 0x7fff_ffff);
    let m = isize::MAX as int;
    let a = base64_len(n) as int;
    assert(3 * ((n + 2) / 3) <= n + 2) by (nonlinear_arith);
    assert(a <= (4 * n + 8) / 3 + 1);
    assert(3 * ((k + a + 2) / 3) <= k + a + 2) by (nonlinear_arith);
    assert(base64_len(k + base64_len(n)) <= (4 * (k + a) + 8) / 3 + 1);
}

pub proof fn lemma_within_isize_fits(text: Seq<char>)
    requires
        within_isize(text),
    ensures
        base64_fits(text),
{
    lemma_base64_len_bound(encode_utf8(text).len(), 0);
}

pub proof fn lemma_encode_utf8_concat(a: Seq<char>, b: Seq<char>)
    ensures
        encode_utf8(a + b) == encode_utf8(a) + encode_utf8(b),
    decreases a.len(),
{
    if a.len() == 0 {
        assert(a + b =~= b);
        assert(encode_utf8(a) =~= Seq::<u8>::empty());
        assert(encode_utf8(a) + encode_utf8(b) =~= encode_utf8(b));
    } else {
        lemma_encode_utf8_concat(a.drop_first(), b);
        assert((a + b).drop_first() =~= a.drop_first() + b);
        assert((a + b)[0] == a[0]);
        assert(encode_utf8(a + b) =~= encode_utf8(a) + encode_utf8(b));
    }
}

pub proof fn lemma_encode_utf8_len(a: Seq<char>)
    ensures
        encode_utf8(a).len() <= 4 * a.len(),
    decreases a.len(),
{
    if a.len() > 0 {
        lemma_encode_utf8_len(a.drop_first());
    }
}

pub proof fn lemma_base64_ascii(encoded: Seq<char>)
    requires
        forall|i: int| 0 <= i < encoded.len() ==> is_base64_char(#[trigger] encoded[i]),
    ensures
        encode_utf8(encoded).len() == encoded.len(),
{
    assert(vstd::utf8::is_ascii_chars(encoded));
    vstd::utf8::is_ascii_chars_encode_utf8(encoded);
}

} // verus!

verus! {

/// The JavaScript expression for a text carries the base64 of the whole text, unchanged,
/// between `atob('` and `')`: it is `decodeURIComponent(escape(atob('` + the standard base64
/// of all of the text's UTF-8 bytes + `')))`, for every text.
pub proof fn law_js_b64_carries_whole_text(text: Seq<char>)
    ensures
        js_b64_text(text) == "decodeURIComponent(escape(atob('"@ + standard_base64(text)
            + "')))"@,
        forall|b64: Seq<char>|
            #[trigger] js_b64_expr_text(b64) == "decodeURIComponent(escape(atob('"@ + b64
                + "')))"@,
{
}

} // verus!
