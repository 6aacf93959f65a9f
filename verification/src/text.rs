//! Text as sequences of characters.
//!
//! Strings are compared, cut and searched here character by character, so
//! that every result is stated over `Seq<char>`. The two questions that only
//! the Unicode tables of the standard library answer, which characters are
//! white space and what the lower case of a text is, are left to it and
//! named.

use vstd::prelude::*;
use vstd::std_specs::iter::IteratorSpec;

verus! {

/// Whether `c` has the Unicode property `White_Space`, as `char::is_whitespace`
/// tells.
pub uninterp spec fn is_space(c: char) -> bool;

/// The lower case of a text, as `str::to_lowercase` gives it.
pub uninterp spec fn lowercase(text: Seq<char>) -> Seq<char>;

/// `char::is_whitespace` of the standard library. Its answer is named, not
/// spelled out.
pub assume_specification[ char::is_whitespace ](c: char) -> (space: bool)
    ensures
        space == is_space(c),
;

/// `String::push` of the standard library: the string with `c` at its end.
pub assume_specification[ String::push ](target: &mut String, c: char)
    ensures
        final(target)@ == old(target)@.push(c),
;

/// `str::to_lowercase` of the standard library. Its result is named, not
/// spelled out.
#[verifier::external_body]
pub(crate) fn to_lowercase(text: &str) -> (lower: String)
    ensures
        lower@ == lowercase(text@),
{
    text.to_lowercase()
}

/// A set of characters to strip from the ends of a text.
#[derive(Clone, Copy, Debug)]
pub enum CharClass {
    /// White space.
    Space,
    /// One character.
    Only(char),
    /// One of two characters.
    Either(char, char),
}

impl CharClass {
    /// Whether `c` belongs to the class.
    pub open spec fn holds(self, c: char) -> bool {
        match self {
            CharClass::Space => is_space(c),
            CharClass::Only(a) => c == a,
            CharClass::Either(a, b) => c == a || c == b,
        }
    }

    /// Whether `c` belongs to the class.
    pub fn test(&self, c: char) -> (inside: bool)
        ensures
            inside == self.holds(c),
    {
        match *self {
            CharClass::Space => c.is_whitespace(),
            CharClass::Only(a) => c == a,
            CharClass::Either(a, b) => c == a || c == b,
        }
    }
}

/// How many characters at the start of `text` belong to `class`.
pub open spec fn leading(text: Seq<char>, class: CharClass) -> nat
    decreases text.len(),
{
    if text.len() > 0 && class.holds(text[0]) {
        1 + leading(text.drop_first(), class)
    } else {
        0
    }
}

/// How many characters at the end of `text` belong to `class`.
pub open spec fn trailing(text: Seq<char>, class: CharClass) -> nat
    decreases text.len(),
{
    if text.len() > 0 && class.holds(text.last()) {
        1 + trailing(text.drop_last(), class)
    } else {
        0
    }
}

/// `text` without the characters of `class` at its start.
pub open spec fn strip_start(text: Seq<char>, class: CharClass) -> Seq<char> {
    text.skip(leading(text, class) as int)
}

/// `text` without the characters of `class` at its end.
pub open spec fn strip_end(text: Seq<char>, class: CharClass) -> Seq<char> {
    text.take(text.len() - trailing(text, class))
}

/// `text` without the characters of `class` at either end.
pub open spec fn strip(text: Seq<char>, class: CharClass) -> Seq<char> {
    strip_end(strip_start(text, class), class)
}

/// `text` without white space at either end.
pub open spec fn trimmed(text: Seq<char>) -> Seq<char> {
    strip(text, CharClass::Space)
}

/// Whether `text` holds nothing but white space.
pub open spec fn is_blank(text: Seq<char>) -> bool {
    trimmed(text).len() == 0
}

/// Whether `text` begins with `prefix`.
pub open spec fn starts_with(text: Seq<char>, prefix: Seq<char>) -> bool {
    prefix.len() <= text.len() && text.take(prefix.len() as int) == prefix
}

/// Whether `text` ends with `suffix`.
pub open spec fn ends_with(text: Seq<char>, suffix: Seq<char>) -> bool {
    suffix.len() <= text.len() && text.skip(text.len() - suffix.len()) == suffix
}

/// Whether `part` stands in `text` at position `at`.
pub open spec fn occurs_at(text: Seq<char>, part: Seq<char>, at: int) -> bool {
    0 <= at && at + part.len() <= text.len() && text.subrange(at, at + part.len()) == part
}

/// Whether `part` stands somewhere in `text`.
pub open spec fn contains(text: Seq<char>, part: Seq<char>) -> bool {
    exists|at: int| occurs_at(text, part, at)
}

/// `text` with every `from` replaced by `to`.
pub open spec fn replaced(text: Seq<char>, from: char, to: char) -> Seq<char> {
    text.map_values(|c: char| if c == from { to } else { c })
}

/// The texts of a list of strings.
pub open spec fn texts(strings: Seq<String>) -> Seq<Seq<char>> {
    strings.map_values(|s: String| s@)
}

/// Whether `a` comes before `b` in the order of strings: character by
/// character, a prefix before what it is a prefix of.
pub open spec fn precedes(a: Seq<char>, b: Seq<char>) -> bool
    decreases a.len(),
{
    if b.len() == 0 {
        false
    } else if a.len() == 0 {
        true
    } else if a[0] != b[0] {
        (a[0] as u32) < (b[0] as u32)
    } else {
        precedes(a.drop_first(), b.drop_first())
    }
}

/// No text comes before itself.
pub proof fn lemma_precedes_irreflexive(a: Seq<char>)
    ensures
        !precedes(a, a),
    decreases a.len(),
{
    if a.len() > 0 {
        lemma_precedes_irreflexive(a.drop_first());
    }
}

/// Of two different texts one comes before the other.
pub proof fn lemma_precedes_total(a: Seq<char>, b: Seq<char>)
    ensures
        a != b ==> precedes(a, b) || precedes(b, a),
        !(precedes(a, b) && precedes(b, a)),
    decreases a.len(),
{
    if a.len() > 0 && b.len() > 0 && a[0] == b[0] {
        lemma_precedes_total(a.drop_first(), b.drop_first());
        if a.drop_first() == b.drop_first() {
            assert(a =~= seq![a[0]] + a.drop_first());
            assert(b =~= seq![b[0]] + b.drop_first());
        }
    } else if a.len() == 0 && b.len() == 0 {
        assert(a =~= b);
    } else if a.len() > 0 && b.len() > 0 {
        vstd::utf8::char_u32_cast(a[0], a[0] as u32);
        vstd::utf8::char_u32_cast(b[0], b[0] as u32);
    }
}

/// What comes before a text comes before everything after that text.
pub proof fn lemma_precedes_transitive(a: Seq<char>, b: Seq<char>, c: Seq<char>)
    requires
        precedes(a, b),
        precedes(b, c),
    ensures
        precedes(a, c),
    decreases a.len(),
{
    if a.len() > 0 && a[0] == b[0] && b[0] == c[0] {
        lemma_precedes_transitive(a.drop_first(), b.drop_first(), c.drop_first());
    }
}

/// The first `n` characters belong to `class` and the one after them, if
/// there is one, does not: then `n` is the count of leading characters.
proof fn lemma_leading_is(text: Seq<char>, class: CharClass, n: int)
    requires
        0 <= n <= text.len(),
        forall|i: int| 0 <= i < n ==> class.holds(#[trigger] text[i]),
        n < text.len() ==> !class.holds(text[n]),
    ensures
        leading(text, class) == n,
    decreases n,
{
    if n > 0 {
        let rest = text.drop_first();
        assert(class.holds(text[0]));
        assert forall|i: int| 0 <= i < n - 1 implies class.holds(#[trigger] rest[i]) by {
            assert(rest[i] == text[i + 1]);
        }
        if n - 1 < rest.len() {
            assert(rest[n - 1] == text[n]);
        }
        lemma_leading_is(rest, class, n - 1);
    }
}

/// The last `n` characters belong to `class` and the one before them, if
/// there is one, does not: then `n` is the count of trailing characters.
proof fn lemma_trailing_is(text: Seq<char>, class: CharClass, n: int)
    requires
        0 <= n <= text.len(),
        forall|i: int| text.len() - n <= i < text.len() ==> class.holds(#[trigger] text[i]),
        n < text.len() ==> !class.holds(text[text.len() - n - 1]),
    ensures
        trailing(text, class) == n,
    decreases n,
{
    if n > 0 {
        let rest = text.drop_last();
        assert(class.holds(text[text.len() - 1]));
        assert forall|i: int| rest.len() - (n - 1) <= i < rest.len() implies class.holds(
            #[trigger] rest[i],
        ) by {
            assert(rest[i] == text[i]);
        }
        if n - 1 < rest.len() {
            assert(rest[rest.len() - (n - 1) - 1] == text[text.len() - n - 1]);
        }
        lemma_trailing_is(rest, class, n - 1);
    }
}

/// The characters of a string.
pub fn chars_of(text: &str) -> (chars: Vec<char>)
    ensures
        chars@ == text@,
{
    broadcast use vstd::string::group_string_axioms;

    let mut chars: Vec<char> = Vec::new();
    for c in it: text.chars()
        invariant
            it.seq() == text@,
            chars@ == it.seq().take(it.index() as int),
    {
        chars.push(c);
    }
    assert(chars@ == text@);
    chars
}

/// The string made of `chars[from..to]`.
pub fn text_of(chars: &[char], from: usize, to: usize) -> (text: String)
    requires
        from <= to <= chars.len(),
    ensures
        text@ == chars@.subrange(from as int, to as int),
{
    let mut text = String::new();
    let mut i: usize = from;
    while i < to
        invariant
            from <= i <= to,
            to <= chars.len(),
            text@ == chars@.subrange(from as int, i as int),
        decreases to - i,
    {
        text.push(chars[i]);
        proof {
            assert(chars@.subrange(from as int, i + 1) == chars@.subrange(
                from as int,
                i as int,
            ).push(chars[i as int]));
        }
        i += 1;
    }
    text
}

/// Whether two strings hold the same characters.
pub fn text_eq(a: &str, b: &str) -> (same: bool)
    ensures
        same == (a@ == b@),
{
    broadcast use vstd::string::group_string_axioms;

    let mut xs = a.chars();
    let mut ys = b.chars();
    let ghost mut k: int = 0;
    loop
        invariant
            0 <= k <= a@.len(),
            k <= b@.len(),
            xs.remaining() == a@.skip(k),
            ys.remaining() == b@.skip(k),
            a@.take(k) == b@.take(k),
            xs.obeys_prophetic_iter_laws(),
            ys.obeys_prophetic_iter_laws(),
        decreases a@.len() - k,
    {
        let x = xs.next();
        let y = ys.next();
        match (x, y) {
            (Some(c), Some(d)) => {
                if c != d {
                    assert(a@[k] != b@[k]);
                    return false;
                }
                proof {
                    assert(a@.take(k + 1) == a@.take(k).push(a@[k]));
                    assert(b@.take(k + 1) == b@.take(k).push(b@[k]));
                    assert(a@.skip(k).drop_first() == a@.skip(k + 1));
                    assert(b@.skip(k).drop_first() == b@.skip(k + 1));
                    k = k + 1;
                }
            },
            (None, None) => {
                assert(a@.skip(k).len() == 0);
                assert(a@.take(k) == a@);
                assert(b@.take(k) == b@);
                return true;
            },
            _ => {
                assert(a@.len() != b@.len());
                return false;
            },
        }
    }
}

/// Whether `chars[from..to]` holds the same characters as `other`.
pub fn range_eq(chars: &[char], from: usize, to: usize, other: &[char]) -> (same: bool)
    requires
        from <= to <= chars.len(),
    ensures
        same == (chars@.subrange(from as int, to as int) == other@),
{
    if to - from != other.len() {
        return false;
    }
    let mut i: usize = 0;
    while i < other.len()
        invariant
            from <= to <= chars.len(),
            to - from == other.len(),
            i <= other.len(),
            forall|k: int| 0 <= k < i ==> chars@[from + k] == other@[k],
        decreases other.len() - i,
    {
        if chars[from + i] != other[i] {
            assert(chars@.subrange(from as int, to as int)[i as int] != other@[i as int]);
            return false;
        }
        i += 1;
    }
    assert(chars@.subrange(from as int, to as int) =~= other@);
    true
}

/// The bounds of `chars[from..to]` without the characters of `class` at its
/// start.
pub fn skip_leading(chars: &[char], from: usize, to: usize, class: CharClass) -> (start: usize)
    requires
        from <= to <= chars.len(),
    ensures
        from <= start <= to,
        start - from == leading(chars@.subrange(from as int, to as int), class),
        chars@.subrange(start as int, to as int) == strip_start(
            chars@.subrange(from as int, to as int),
            class,
        ),
{
    let ghost part = chars@.subrange(from as int, to as int);
    let mut start = from;
    while start < to && class.test(chars[start])
        invariant
            from <= start <= to,
            to <= chars.len(),
            part == chars@.subrange(from as int, to as int),
            forall|i: int| 0 <= i < start - from ==> class.holds(#[trigger] part[i]),
        decreases to - start,
    {
        assert(part[start - from] == chars@[start as int]);
        start += 1;
    }
    proof {
        if start < to {
            assert(part[start - from] == chars@[start as int]);
        }
        lemma_leading_is(part, class, start - from);
        assert(part.skip(start - from) == chars@.subrange(start as int, to as int));
    }
    start
}

/// The bounds of `chars[from..to]` without the characters of `class` at its
/// end.
pub fn skip_trailing(chars: &[char], from: usize, to: usize, class: CharClass) -> (end: usize)
    requires
        from <= to <= chars.len(),
    ensures
        from <= end <= to,
        to - end == trailing(chars@.subrange(from as int, to as int), class),
        chars@.subrange(from as int, end as int) == strip_end(
            chars@.subrange(from as int, to as int),
            class,
        ),
{
    let ghost part = chars@.subrange(from as int, to as int);
    let mut end = to;
    while end > from && class.test(chars[end - 1])
        invariant
            from <= end <= to,
            to <= chars.len(),
            part == chars@.subrange(from as int, to as int),
            forall|i: int| end - from <= i < to - from ==> class.holds(#[trigger] part[i]),
        decreases end - from,
    {
        assert(part[end - 1 - from] == chars@[end - 1]);
        end -= 1;
    }
    proof {
        if end > from {
            assert(part[end - 1 - from] == chars@[end - 1]);
        }
        lemma_trailing_is(part, class, to - end);
        assert(part.take(part.len() - (to - end)) == chars@.subrange(from as int, end as int));
    }
    end
}

/// The bounds of `chars[from..to]` without the characters of `class` at
/// either end.
pub fn strip_bounds(chars: &[char], from: usize, to: usize, class: CharClass) -> (bounds: (
    usize,
    usize,
))
    requires
        from <= to <= chars.len(),
    ensures
        from <= bounds.0 <= bounds.1 <= to,
        chars@.subrange(bounds.0 as int, bounds.1 as int) == strip(
            chars@.subrange(from as int, to as int),
            class,
        ),
{
    let start = skip_leading(chars, from, to, class);
    let end = skip_trailing(chars, start, to, class);
    (start, end)
}

/// Whether a string holds nothing but white space.
pub fn blank(text: &str) -> (empty: bool)
    ensures
        empty == is_blank(text@),
{
    let chars = chars_of(text);
    let (start, end) = strip_bounds(chars.as_slice(), 0, chars.len(), CharClass::Space);
    proof {
        assert(chars@.subrange(0, chars.len() as int) == chars@);
    }
    start == end
}

/// A string without the white space at its ends.
pub fn trim(text: &str) -> (inner: String)
    ensures
        inner@ == trimmed(text@),
{
    let chars = chars_of(text);
    let (start, end) = strip_bounds(chars.as_slice(), 0, chars.len(), CharClass::Space);
    proof {
        assert(chars@.subrange(0, chars.len() as int) == chars@);
    }
    text_of(chars.as_slice(), start, end)
}

/// Whether `part` stands in `chars` at position `at`.
pub fn matches_at(chars: &[char], part: &[char], at: usize) -> (found: bool)
    ensures
        found == occurs_at(chars@, part@, at as int),
{
    if at > chars.len() || part.len() > chars.len() - at {
        return false;
    }
    range_eq(chars, at, at + part.len(), part)
}

/// Whether `part` stands somewhere in `chars`.
pub fn find(chars: &[char], part: &[char]) -> (found: bool)
    ensures
        found == contains(chars@, part@),
{
    if part.len() > chars.len() {
        assert forall|at: int| !occurs_at(chars@, part@, at) by {}
        return false;
    }
    let last = chars.len() - part.len();
    let mut at: usize = 0;
    loop
        invariant
            last == chars.len() - part.len(),
            at <= last,
            forall|k: int| 0 <= k < at ==> !occurs_at(chars@, part@, k),
        decreases last - at,
    {
        if matches_at(chars, part, at) {
            return true;
        }
        if at == last {
            assert forall|k: int| !occurs_at(chars@, part@, k) by {}
            return false;
        }
        at += 1;
    }
}

/// Whether `chars` begins with `prefix`.
pub fn has_prefix(chars: &[char], prefix: &[char]) -> (found: bool)
    ensures
        found == starts_with(chars@, prefix@),
{
    let found = matches_at(chars, prefix, 0);
    proof {
        if prefix.len() <= chars.len() {
            assert(chars@.take(prefix.len() as int) == chars@.subrange(0, 0 + prefix.len()));
        }
    }
    found
}

/// A string with every `from` replaced by `to`.
pub fn replace_char(text: &str, from: char, to: char) -> (out: String)
    ensures
        out@ == replaced(text@, from, to),
{
    broadcast use vstd::string::group_string_axioms;

    let mut out = String::new();
    for c in it: text.chars()
        invariant
            it.seq() == text@,
            out@ == replaced(it.seq().take(it.index() as int), from, to),
    {
        proof {
            let done = text@.take(it.index() as int);
            assert(text@.take(it.index() + 1) == done.push(c));
            assert(replaced(done.push(c), from, to) == replaced(done, from, to).push(
                if c == from {
                    to
                } else {
                    c
                },
            ));
        }
        out.push(if c == from { to } else { c });
    }
    assert(text@.take(text@.len() as int) == text@);
    out
}

/// Whether `a` comes before `b` in the order of strings.
pub fn comes_before(a: &[char], b: &[char]) -> (before: bool)
    ensures
        before == precedes(a@, b@),
{
    let mut i: usize = 0;
    proof {
        assert(a@.skip(0) == a@);
        assert(b@.skip(0) == b@);
    }
    while i < a.len() && i < b.len()
        invariant
            i <= a.len(),
            i <= b.len(),
            precedes(a@, b@) == precedes(a@.skip(i as int), b@.skip(i as int)),
        decreases a.len() - i,
    {
        proof {
            assert(a@.skip(i as int)[0] == a@[i as int]);
            assert(b@.skip(i as int)[0] == b@[i as int]);
            assert(a@.skip(i as int).drop_first() == a@.skip(i + 1));
            assert(b@.skip(i as int).drop_first() == b@.skip(i + 1));
        }
        if a[i] != b[i] {
            return (a[i] as u32) < (b[i] as u32);
        }
        i += 1;
    }
    i < b.len()
}

} // verus!
