//! Text operations on character sequences.

use vstd::prelude::*;
use vstd::string::StringExecFns;

verus! {

broadcast use vstd::string::group_string_axioms;

/// The characters with the Unicode property `White_Space`.
pub open spec fn white_space(c: char) -> bool {
    let n = c as u32;
    ||| 0x9 <= n <= 0xd
    ||| n == 0x20
    ||| n == 0x85
    ||| n == 0xa0
    ||| n == 0x1680
    ||| 0x2000 <= n <= 0x200a
    ||| n == 0x2028
    ||| n == 0x2029
    ||| n == 0x202f
    ||| n == 0x205f
    ||| n == 0x3000
}

/// `char::is_whitespace` of std: true exactly on the characters whose Unicode
/// property `White_Space` is set.
pub assume_specification[ char::is_whitespace ](c: char) -> (r: bool)
    ensures
        r == white_space(c),
;

/// `String::push` of std: appends one character and changes nothing else.
pub assume_specification[ String::push ](s: &mut String, c: char)
    ensures
        final(s)@ == old(s)@.push(c),
;

/// `s` without its leading white space.
pub open spec fn trim_start(s: Seq<char>) -> Seq<char>
    decreases s.len(),
{
    if s.len() > 0 && white_space(s[0]) {
        trim_start(s.subrange(1, s.len() as int))
    } else {
        s
    }
}

/// `s` without its trailing white space.
pub open spec fn trim_end(s: Seq<char>) -> Seq<char>
    decreases s.len(),
{
    if s.len() > 0 && white_space(s[s.len() - 1]) {
        trim_end(s.subrange(0, s.len() - 1))
    } else {
        s
    }
}

/// `s` without white space at either end.
pub open spec fn trimmed(s: Seq<char>) -> Seq<char> {
    trim_end(trim_start(s))
}

/// `needle` occurs somewhere in `s`.
pub open spec fn has_infix(s: Seq<char>, needle: Seq<char>) -> bool {
    exists|i: int|
        0 <= i <= s.len() - needle.len() && #[trigger] s.subrange(i, i + needle.len()) == needle
}

/// A text without a line end in it.
pub open spec fn one_line(s: Seq<char>) -> bool {
    forall|i: int| 0 <= i < s.len() ==> #[trigger] s[i] != '\n'
}

/// What is left of `s` behind `prefix`, where `s` starts with it.
pub open spec fn after_prefix(s: Seq<char>, prefix: Seq<char>) -> Option<Seq<char>> {
    if prefix.is_prefix_of(s) {
        Some(s.subrange(prefix.len() as int, s.len() as int))
    } else {
        None
    }
}

/// The characters of a text, in order.
pub fn chars_of(s: &str) -> (r: Vec<char>)
    ensures
        r@ == s@,
{
    let mut out: Vec<char> = Vec::new();
    for c in it: s.chars()
        invariant
            out@ == it.seq().take(it.index() as int),
            it.seq() == s@,
    {
        out.push(c);
    }
    out
}

/// Whether two texts are equal.
pub fn same_text(a: &str, b: &str) -> (r: bool)
    ensures
        r == (a@ == b@),
{
    let x = a.as_bytes();
    let y = b.as_bytes();
    proof {
        vstd::utf8::encode_utf8_decode_utf8(a@);
        vstd::utf8::encode_utf8_decode_utf8(b@);
    }
    if x.len() != y.len() {
        return false;
    }
    let mut i: usize = 0;
    while i < x.len()
        invariant
            i <= x@.len(),
            x@.len() == y@.len(),
            x@ == vstd::utf8::encode_utf8(a@),
            y@ == vstd::utf8::encode_utf8(b@),
            forall|j: int| 0 <= j < i ==> x@[j] == y@[j],
        decreases x.len() - i,
    {
        if x[i] != y[i] {
            return false;
        }
        i += 1;
    }
    assert(x@ =~= y@);
    true
}

/// The text of the characters from `from` up to `to`.
pub fn text_between(chars: &Vec<char>, from: usize, to: usize) -> (r: String)
    requires
        from <= to <= chars@.len(),
    ensures
        r@ == chars@.subrange(from as int, to as int),
{
    let mut out = String::new();
    let mut i: usize = from;
    while i < to
        invariant
            from <= i <= to <= chars@.len(),
            out@ == chars@.subrange(from as int, i as int),
        decreases to - i,
    {
        out.push(chars[i]);
        i += 1;
        assert(chars@.subrange(from as int, i as int) =~= chars@.subrange(
            from as int,
            i - 1,
        ).push(chars@[i - 1]));
    }
    out
}

/// Removing white space from the front one character at a time.
proof fn lemma_trim_start_skips(s: Seq<char>, n: int)
    requires
        0 <= n <= s.len(),
        forall|j: int| 0 <= j < n ==> white_space(s[j]),
    ensures
        trim_start(s) == trim_start(s.subrange(n, s.len() as int)),
    decreases n,
{
    if n == 0 {
        assert(s.subrange(0, s.len() as int) =~= s);
    } else {
        let rest = s.subrange(1, s.len() as int);
        lemma_trim_start_skips(rest, n - 1);
        assert(rest.subrange(n - 1, rest.len() as int) =~= s.subrange(n, s.len() as int));
    }
}

/// Removing white space from the back one character at a time.
proof fn lemma_trim_end_skips(s: Seq<char>, n: int)
    requires
        0 <= n <= s.len(),
        forall|j: int| n <= j < s.len() ==> white_space(s[j]),
    ensures
        trim_end(s) == trim_end(s.subrange(0, n)),
    decreases s.len() - n,
{
    if n == s.len() {
        assert(s.subrange(0, n) =~= s);
    } else {
        let rest = s.subrange(0, s.len() - 1);
        lemma_trim_end_skips(rest, n);
        assert(rest.subrange(0, n) =~= s.subrange(0, n));
    }
}

/// The text without white space at either end.
pub fn trim(s: &str) -> (r: String)
    ensures
        r@ == trimmed(s@),
{
    let chars = chars_of(s);
    let mut i: usize = 0;
    while i < chars.len() && chars[i].is_whitespace()
        invariant
            i <= chars@.len(),
            forall|j: int| 0 <= j < i ==> white_space(chars@[j]),
        decreases chars.len() - i,
    {
        i += 1;
    }
    let mut k: usize = chars.len();
    while k > i && chars[k - 1].is_whitespace()
        invariant
            i <= k <= chars@.len(),
            forall|j: int| k <= j < chars@.len() ==> white_space(chars@[j]),
        decreases k,
    {
        k -= 1;
    }
    proof {
        let rest = chars@.subrange(i as int, chars@.len() as int);
        lemma_trim_start_skips(chars@, i as int);
        assert(trim_start(chars@) == rest);
        lemma_trim_end_skips(rest, k - i);
        assert(rest.subrange(0, k - i) =~= chars@.subrange(i as int, k as int));
    }
    text_between(&chars, i, k)
}

/// Whether a text holds nothing but white space.
pub fn is_blank(s: &str) -> (r: bool)
    ensures
        r == (trimmed(s@).len() == 0),
{
    trim(s).as_str().is_empty()
}

/// What is left of `s` behind `prefix`, where `s` starts with it.
pub fn strip_prefix(s: &str, prefix: &str) -> (r: Option<String>)
    ensures
        match r {
            Some(rest) => after_prefix(s@, prefix@) == Some(rest@),
            None => after_prefix(s@, prefix@) is None,
        },
{
    let chars = chars_of(s);
    let head = chars_of(prefix);
    if chars.len() < head.len() || !occurs_at(&chars, 0, &head) {
        return None;
    }
    Some(text_between(&chars, head.len(), chars.len()))
}

/// Whether `s` starts with `prefix`.
pub fn starts_with(s: &str, prefix: &str) -> (r: bool)
    ensures
        r == prefix@.is_prefix_of(s@),
{
    let chars = chars_of(s);
    let head = chars_of(prefix);
    head.len() <= chars.len() && occurs_at(&chars, 0, &head)
}

/// Whether `needle` stands in `chars` from position `at` on.
fn occurs_at(chars: &Vec<char>, at: usize, needle: &Vec<char>) -> (r: bool)
    requires
        at + needle@.len() <= chars@.len(),
    ensures
        r == (chars@.subrange(at as int, at + needle@.len()) == needle@),
{
    let len: usize = chars.len();
    let mut i: usize = 0;
    while i < needle.len()
        invariant
            i <= needle@.len(),
            at + needle@.len() <= len,
            len == chars@.len(),
            forall|j: int| 0 <= j < i ==> chars@[at + j] == needle@[j],
        decreases needle.len() - i,
    {
        if chars[at + i] != needle[i] {
            assert(chars@.subrange(at as int, at + needle@.len())[i as int] != needle@[i as int]);
            return false;
        }
        i += 1;
    }
    assert(chars@.subrange(at as int, at + needle@.len()) =~= needle@);
    true
}

/// Whether `needle` occurs somewhere in `s`.
pub fn contains(s: &str, needle: &str) -> (r: bool)
    ensures
        r == has_infix(s@, needle@),
{
    let chars = chars_of(s);
    let part = chars_of(needle);
    if chars.len() < part.len() {
        return false;
    }
    let last: usize = chars.len() - part.len();
    let mut i: usize = 0;
    while i < last
        invariant
            chars@ == s@,
            part@ == needle@,
            last + part@.len() == chars@.len(),
            i <= last,
            forall|j: int|
                0 <= j < i ==> #[trigger] chars@.subrange(j, j + part@.len()) != part@,
        decreases last - i,
    {
        if occurs_at(&chars, i, &part) {
            return true;
        }
        i += 1;
    }
    occurs_at(&chars, last, &part)
}

/// `a` followed by `b`.
pub fn join(a: &str, b: &str) -> (r: String)
    ensures
        r@ == a@ + b@,
{
    let mut out = a.to_owned();
    out.append(b);
    out
}

/// A trimmed text neither starts nor ends with white space.
pub proof fn trimmed_text_has_no_outer_white_space(s: Seq<char>)
    ensures
        trimmed(s).len() > 0 ==> !white_space(trimmed(s)[0]) && !white_space(trimmed(s).last()),
{
    lemma_trim_start_front(s);
    lemma_trim_end_parts(trim_start(s));
}

proof fn lemma_trim_start_front(s: Seq<char>)
    ensures
        trim_start(s).len() > 0 ==> !white_space(trim_start(s)[0]),
    decreases s.len(),
{
    if s.len() > 0 && white_space(s[0]) {
        lemma_trim_start_front(s.subrange(1, s.len() as int));
    }
}

proof fn lemma_trim_end_parts(s: Seq<char>)
    ensures
        trim_end(s).len() > 0 ==> !white_space(trim_end(s).last()) && trim_end(s)[0] == s[0],
        trim_end(s).len() <= s.len(),
    decreases s.len(),
{
    if s.len() > 0 && white_space(s[s.len() - 1]) {
        lemma_trim_end_parts(s.subrange(0, s.len() - 1));
    }
}

/// To trim a text takes off a front and a back of white space and nothing
/// else: what is left starts and ends with other characters, or is empty.
pub proof fn trimming_takes_outer_white_space_only(s: Seq<char>)
    ensures
        exists|i: int, k: int|
            {
                &&& 0 <= i <= k <= s.len()
                &&& trimmed(s) == #[trigger] s.subrange(i, k)
                &&& forall|j: int| 0 <= j < i ==> white_space(#[trigger] s[j])
                &&& forall|j: int| k <= j < s.len() ==> white_space(#[trigger] s[j])
                &&& i < k ==> !white_space(s[i]) && !white_space(s[k - 1])
            },
{
    let i = lemma_trim_start_at(s);
    let rest = s.subrange(i, s.len() as int);
    let n = lemma_trim_end_at(rest);
    assert(rest.subrange(0, n) =~= s.subrange(i, i + n));
    assert forall|j: int| i + n <= j < s.len() implies white_space(#[trigger] s[j]) by {
        assert(rest[j - i] == s[j]);
    }
    if n > 0 {
        assert(rest[0] == s[i]);
        assert(rest[n - 1] == s[i + n - 1]);
    }
}

proof fn lemma_trim_start_at(s: Seq<char>) -> (i: int)
    ensures
        0 <= i <= s.len(),
        trim_start(s) == s.subrange(i, s.len() as int),
        forall|j: int| 0 <= j < i ==> white_space(#[trigger] s[j]),
        i < s.len() ==> !white_space(s[i]),
    decreases s.len(),
{
    if s.len() > 0 && white_space(s[0]) {
        let rest = s.subrange(1, s.len() as int);
        let i = lemma_trim_start_at(rest);
        assert(rest.subrange(i, rest.len() as int) =~= s.subrange(i + 1, s.len() as int));
        assert forall|j: int| 0 <= j < i + 1 implies white_space(#[trigger] s[j]) by {
            if j > 0 {
                assert(rest[j - 1] == s[j]);
            }
        }
        i + 1
    } else {
        assert(s.subrange(0, s.len() as int) =~= s);
        0
    }
}

proof fn lemma_trim_end_at(s: Seq<char>) -> (n: int)
    ensures
        0 <= n <= s.len(),
        trim_end(s) == s.subrange(0, n),
        forall|j: int| n <= j < s.len() ==> white_space(#[trigger] s[j]),
        n > 0 ==> !white_space(s[n - 1]),
    decreases s.len(),
{
    if s.len() > 0 && white_space(s[s.len() - 1]) {
        let rest = s.subrange(0, s.len() - 1);
        let n = lemma_trim_end_at(rest);
        assert(rest.subrange(0, n) =~= s.subrange(0, n));
        assert forall|j: int| n <= j < s.len() implies white_space(#[trigger] s[j]) by {
            if j < rest.len() {
                assert(rest[j] == s[j]);
            }
        }
        n
    } else {
        assert(s.subrange(0, s.len() as int) =~= s);
        s.len() as int
    }
}

/// A text is blank exactly where all of it is white space.
pub proof fn blank_texts_are_white_space(s: Seq<char>)
    ensures
        trimmed(s).len() == 0 <==> forall|j: int| 0 <= j < s.len() ==> white_space(#[trigger] s[j]),
{
    trimming_takes_outer_white_space_only(s);
    let (i, k) = choose|i: int, k: int|
        {
            &&& 0 <= i <= k <= s.len()
            &&& trimmed(s) == #[trigger] s.subrange(i, k)
            &&& forall|j: int| 0 <= j < i ==> white_space(#[trigger] s[j])
            &&& forall|j: int| k <= j < s.len() ==> white_space(#[trigger] s[j])
            &&& i < k ==> !white_space(s[i]) && !white_space(s[k - 1])
        };
    assert(trimmed(s).len() == k - i);
}

/// What stands behind a prefix is what the prefix has to be put before to give
/// the text again.
pub proof fn a_prefix_and_its_rest_make_the_text(s: Seq<char>, prefix: Seq<char>, rest: Seq<char>)
    ensures
        after_prefix(s, prefix) == Some(rest) <==> s == prefix + rest,
{
    if prefix.is_prefix_of(s) {
        assert(s =~= prefix + s.subrange(prefix.len() as int, s.len() as int));
    }
    assert(prefix =~= (prefix + rest).subrange(0, prefix.len() as int));
    assert((prefix + rest).subrange(prefix.len() as int, (prefix + rest).len() as int) =~= rest);
}

/// A text occurs in whatever it is a part of, and in nothing else.
pub proof fn an_infix_is_a_part(s: Seq<char>, needle: Seq<char>)
    ensures
        has_infix(s, needle) <==> exists|before: Seq<char>, after: Seq<char>|
            s == #[trigger] (before + needle + after),
{
    if has_infix(s, needle) {
        let i = choose|i: int|
            0 <= i <= s.len() - needle.len() && #[trigger] s.subrange(i, i + needle.len()) == needle;
        let before = s.subrange(0, i);
        let after = s.subrange(i + needle.len(), s.len() as int);
        assert(s =~= before + s.subrange(i, i + needle.len()) + after);
        assert(s == before + needle + after);
    }
    if exists|before: Seq<char>, after: Seq<char>| s == #[trigger] (before + needle + after) {
        let (before, after) = choose|before: Seq<char>, after: Seq<char>|
            s == #[trigger] (before + needle + after);
        let i = before.len() as int;
        assert(s.subrange(i, i + needle.len()) =~= needle);
    }
}

/// A text is one line exactly where no line end occurs in it.
pub proof fn one_line_texts_hold_no_line_end(s: Seq<char>)
    ensures
        one_line(s) <==> !s.contains('\n'),
{
    if !s.contains('\n') {
        assert forall|i: int| 0 <= i < s.len() implies #[trigger] s[i] != '\n' by {
            assert(s.contains(s[i]));
        }
    }
}

/// White space is, in ASCII, the space and the five controls from tab to
/// carriage return; in Latin-1, the next line and the no-break space; beyond
/// that, the Ogham space, the spaces from en quad to hair space, the line and
/// paragraph separators, and the narrow no-break, mathematical and ideographic
/// spaces.
pub proof fn white_space_is_what_unicode_says(c: char)
    ensures
        c < '\u{80}' ==> (white_space(c) <==> c == ' ' || '\t' <= c <= '\r'),
        '\u{80}' <= c < '\u{100}' ==> (white_space(c) <==> c == '\u{85}' || c == '\u{a0}'),
        '\u{100}' <= c < '\u{2000}' ==> (white_space(c) <==> c == '\u{1680}'),
        '\u{2000}' <= c < '\u{2100}' ==> (white_space(c) <==> c <= '\u{200a}' || c == '\u{2028}' || c
            == '\u{2029}' || c == '\u{202f}' || c == '\u{205f}'),
        '\u{2100}' <= c ==> (white_space(c) <==> c == '\u{3000}'),
{
}

} // verus!
