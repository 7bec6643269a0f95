//! Text helpers over the characters of a string.
//!
//! Every contract here speaks of a string's view, its sequence of `char`s.

use vstd::prelude::*;
use vstd::utf8::{decode_utf8, valid_utf8};

verus! {

/// The message of std's error for bytes that are no UTF-8.
pub uninterp spec fn utf8_refusal(bytes: Seq<u8>) -> Seq<char>;

/// `String::from_utf8` of std gives the text that valid UTF-8 stands for and
/// refuses any other bytes; a refusal is handed on as its message, from its
/// `Display`.
#[verifier::external_body]
pub(crate) fn decode_text(bytes: &[u8]) -> (r: Result<String, String>)
    ensures
        match r {
            Ok(text) => valid_utf8(bytes@) && text@ == decode_utf8(bytes@),
            Err(message) => !valid_utf8(bytes@) && message@ == utf8_refusal(bytes@),
        },
{
    String::from_utf8(bytes.to_vec()).map_err(|e| e.to_string())
}

/// `String::push` of std appends one character to the end of the string.
pub assume_specification[ String::push ](s: &mut String, c: char)
    ensures
        final(s)@ == old(s)@.push(c),
;

/// The pattern `p` stands in `s` at position `i`.
pub open spec fn occurs_at(s: Seq<char>, p: Seq<char>, i: int) -> bool {
    0 <= i && i + p.len() <= s.len() && s.subrange(i, i + p.len()) == p
}

/// The pattern `p` stands somewhere in `s`. The empty pattern stands in every text.
pub open spec fn contains_text(s: Seq<char>, p: Seq<char>) -> bool {
    exists|i: int| occurs_at(s, p, i)
}

/// `s` with every occurrence of `p` taken out, scanning from the left and never
/// looking again at a character that was part of an occurrence already taken out.
/// The empty pattern takes nothing out.
pub open spec fn without(s: Seq<char>, p: Seq<char>) -> Seq<char>
    decreases s.len(),
{
    if p.len() == 0 || s.len() < p.len() {
        s
    } else if s.take(p.len() as int) == p {
        without(s.skip(p.len() as int), p)
    } else {
        seq![s[0]] + without(s.skip(1), p)
    }
}

/// `s` after taking out the patterns one after the other, the first one first.
pub open spec fn without_each(s: Seq<char>, patterns: Seq<Seq<char>>) -> Seq<char>
    decreases patterns.len(),
{
    if patterns.len() == 0 {
        s
    } else {
        without_each(without(s, patterns[0]), patterns.drop_first())
    }
}

/// The views of a slice of string slices.
pub open spec fn views_of(items: Seq<&str>) -> Seq<Seq<char>> {
    Seq::new(items.len(), |i: int| items[i]@)
}

/// The lower-case form of an ASCII capital letter; every other character is itself.
pub open spec fn ascii_lower(c: char) -> char {
    if 'A' <= c && c <= 'Z' {
        ((c as u8) + 32) as char
    } else {
        c
    }
}

/// `s` with every character equal to `from` replaced by `to`.
pub open spec fn replaced(s: Seq<char>, from: char, to: char) -> Seq<char> {
    s.map_values(|c: char| if c == from { to } else { c })
}

/// The characters that carry the Unicode property White_Space.
pub open spec fn is_white_space(c: char) -> bool {
    let n = c as u32;
    ||| 0x09 <= n <= 0x0d
    ||| n == 0x20
    ||| n == 0x85
    ||| n == 0xa0
    ||| n == 0x1680
    ||| 0x2000 <= n <= 0x200a
    ||| n == 0x2028
    ||| n == 0x2029
    ||| n == 0x202f
    ||| n == 0x205f
    ||| n == 0x3000
}

/// `s` without its leading white space.
pub open spec fn trimmed_start(s: Seq<char>) -> Seq<char>
    decreases s.len(),
{
    if s.len() > 0 && is_white_space(s[0]) {
        trimmed_start(s.drop_first())
    } else {
        s
    }
}

/// `s` without its trailing white space.
pub open spec fn trimmed_end(s: Seq<char>) -> Seq<char>
    decreases s.len(),
{
    if s.len() > 0 && is_white_space(s.last()) {
        trimmed_end(s.drop_last())
    } else {
        s
    }
}

/// `s` without its leading and trailing white space.
pub open spec fn trimmed(s: Seq<char>) -> Seq<char> {
    trimmed_end(trimmed_start(s))
}

/// The characters of a string, in order.
pub fn to_chars(s: &str) -> (out: Vec<char>)
    ensures
        out@ == s@,
{
    let mut out: Vec<char> = Vec::new();
    for c in it: s.chars()
        invariant
            out@ == it.seq().take(it.index() as int),
    {
        out.push(c);
    }
    out
}

/// The string made of the characters `chars[from..to]`.
pub fn from_chars(chars: &Vec<char>, from: usize, to: usize) -> (out: String)
    requires
        from <= to <= chars.len(),
    ensures
        out@ == chars@.subrange(from as int, to as int),
{
    let mut out = String::new();
    let mut i: usize = from;
    while i < to
        invariant
            from <= i <= to <= chars.len(),
            out@ == chars@.subrange(from as int, i as int),
        decreases to - i,
    {
        out.push(chars[i]);
        i += 1;
    }
    out
}

/// Whether two strings hold the same characters.
pub fn same_text(a: &str, b: &str) -> (r: bool)
    ensures
        r == (a@ == b@),
{
    let x = to_chars(a);
    let y = to_chars(b);
    if x.len() != y.len() {
        return false;
    }
    let mut i: usize = 0;
    while i < x.len()
        invariant
            i <= x.len() == y.len(),
            x@ == a@,
            y@ == b@,
            x@.take(i as int) == y@.take(i as int),
        decreases x.len() - i,
    {
        if x[i] != y[i] {
            assert(a@[i as int] != b@[i as int]);
            return false;
        }
        assert(x@.take(i + 1) == x@.take(i as int).push(x@[i as int]));
        assert(y@.take(i + 1) == y@.take(i as int).push(y@[i as int]));
        i += 1;
    }
    assert(x@.take(x.len() as int) == x@);
    assert(y@.take(y.len() as int) == y@);
    true
}

/// Whether the pattern stands in the text at position `i`.
pub fn matches_at(text: &Vec<char>, pattern: &Vec<char>, i: usize) -> (r: bool)
    requires
        i + pattern.len() <= text.len(),
    ensures
        r == occurs_at(text@, pattern@, i as int),
{
    let ghost window = text@.subrange(i as int, i + pattern.len());
    let mut k: usize = 0;
    while k < pattern.len()
        invariant
            k <= pattern.len(),
            i + pattern.len() <= text.len(),
            window == text@.subrange(i as int, i + pattern.len()),
            window.take(k as int) == pattern@.take(k as int),
        decreases pattern.len() - k,
    {
        if text[i + k] != pattern[k] {
            assert(window[k as int] != pattern@[k as int]);
            return false;
        }
        assert(window.take(k + 1) == window.take(k as int).push(window[k as int]));
        assert(pattern@.take(k + 1) == pattern@.take(k as int).push(pattern@[k as int]));
        k += 1;
    }
    assert(window.take(pattern.len() as int) == window);
    assert(pattern@.take(pattern.len() as int) == pattern@);
    true
}

/// Whether `needle` stands somewhere in `haystack`.
pub fn contains(haystack: &str, needle: &str) -> (r: bool)
    ensures
        r == contains_text(haystack@, needle@),
{
    let text = to_chars(haystack);
    let pattern = to_chars(needle);
    if pattern.len() > text.len() {
        assert forall|j: int| !occurs_at(text@, pattern@, j) by {}
        return false;
    }
    let last: usize = text.len() - pattern.len();
    let mut i: usize = 0;
    while i < last
        invariant
            i <= last,
            last == text.len() - pattern.len(),
            pattern.len() <= text.len(),
            text@ == haystack@,
            pattern@ == needle@,
            forall|j: int| 0 <= j < i ==> !occurs_at(text@, pattern@, j),
        decreases last - i,
    {
        if matches_at(&text, &pattern, i) {
            assert(occurs_at(haystack@, needle@, i as int));
            return true;
        }
        i += 1;
    }
    let found = matches_at(&text, &pattern, last);
    proof {
        if found {
            assert(occurs_at(haystack@, needle@, last as int));
        } else {
            assert forall|j: int| !occurs_at(text@, pattern@, j) by {
                if occurs_at(text@, pattern@, j) {
                    assert(j <= last);
                }
            }
        }
    }
    found
}

/// The text without any occurrence of the pattern.
pub fn remove_pattern(text: &Vec<char>, pattern: &Vec<char>) -> (out: String)
    ensures
        out@ == without(text@, pattern@),
{
    let mut out = String::new();
    let n = text.len();
    let m = pattern.len();
    let mut i: usize = 0;
    assert(text@.skip(0) == text@);
    assert(out@ + without(text@, pattern@) == without(text@, pattern@));
    while i < n
        invariant
            i <= n == text.len(),
            m == pattern.len(),
            out@ + without(text@.skip(i as int), pattern@) == without(text@, pattern@),
        decreases n - i,
    {
        let ghost rest = text@.skip(i as int);
        if m > 0 && m <= n - i && matches_at(text, pattern, i) {
            proof {
                assert(rest.take(m as int) == text@.subrange(i as int, i + m));
                assert(rest.skip(m as int) == text@.skip(i + m));
            }
            i += m;
        } else {
            proof {
                if m > 0 && m <= n - i {
                    assert(rest.take(m as int) == text@.subrange(i as int, i + m));
                }
                assert(rest.skip(1) == text@.skip(i + 1));
                assert(rest[0] == text@[i as int]);
                if m == 0 || rest.len() < m {
                    lemma_without_inert(rest, pattern@);
                    lemma_without_inert(rest.skip(1), pattern@);
                    assert(rest == seq![rest[0]] + rest.skip(1));
                }
                assert(without(rest, pattern@) == seq![rest[0]] + without(
                    rest.skip(1),
                    pattern@,
                ));
                assert(out@.push(text@[i as int]) + without(text@.skip(i + 1), pattern@) == out@
                    + (seq![rest[0]] + without(rest.skip(1), pattern@)));
            }
            out.push(text[i]);
            i += 1;
        }
    }
    proof {
        assert(text@.skip(n as int).len() == 0);
        assert(without(text@.skip(n as int), pattern@) == Seq::<char>::empty());
        assert(out@ + Seq::<char>::empty() == out@);
    }
    out
}

/// A text shorter than the pattern, and any text under the empty pattern, is left as it is.
pub proof fn lemma_without_inert(s: Seq<char>, p: Seq<char>)
    requires
        p.len() == 0 || s.len() < p.len(),
    ensures
        without(s, p) == s,
{
}

/// Takes every occurrence of each pattern out of `s`, one pattern after the other.
pub fn remove_characters(s: &mut String, c: &[&str])
    ensures
        final(s)@ == without_each(old(s)@, views_of(c@)),
{
    let ghost all = views_of(c@);
    let mut k: usize = 0;
    assert(all.skip(0) == all);
    while k < c.len()
        invariant
            k <= c.len(),
            all == views_of(c@),
            without_each(s@, all.skip(k as int)) == without_each(old(s)@, all),
        decreases c.len() - k,
    {
        let text = to_chars(s.as_str());
        let pattern = to_chars(c[k]);
        proof {
            let rest = all.skip(k as int);
            assert(rest[0] == pattern@);
            assert(rest.drop_first() == all.skip(k + 1));
        }
        *s = remove_pattern(&text, &pattern);
        k += 1;
    }
}

/// The lower-case form of an ASCII capital letter; every other character is itself.
pub fn lower_char(c: char) -> (r: char)
    ensures
        r == ascii_lower(c),
{
    if 'A' <= c && c <= 'Z' {
        ((c as u8) + 32u8) as char
    } else {
        c
    }
}

/// The text with its ASCII capital letters in lower case.
pub fn to_ascii_lowercase(s: &str) -> (out: String)
    ensures
        out@ == s@.map_values(|c: char| ascii_lower(c)),
{
    let chars = to_chars(s);
    let mut out = String::new();
    let mut i: usize = 0;
    while i < chars.len()
        invariant
            i <= chars.len(),
            out@ == chars@.take(i as int).map_values(|c: char| ascii_lower(c)),
        decreases chars.len() - i,
    {
        assert(chars@.take(i + 1) == chars@.take(i as int).push(chars@[i as int]));
        out.push(lower_char(chars[i]));
        i += 1;
    }
    assert(chars@.take(chars.len() as int) == chars@);
    out
}

/// The text with every `from` replaced by `to`.
pub fn replace_char(s: &str, from: char, to: char) -> (out: String)
    ensures
        out@ == replaced(s@, from, to),
{
    let chars = to_chars(s);
    let mut out = String::new();
    let mut i: usize = 0;
    while i < chars.len()
        invariant
            i <= chars.len(),
            out@ == replaced(chars@.take(i as int), from, to),
        decreases chars.len() - i,
    {
        assert(chars@.take(i + 1) == chars@.take(i as int).push(chars@[i as int]));
        let c = chars[i];
        out.push(if c == from { to } else { c });
        i += 1;
    }
    assert(chars@.take(chars.len() as int) == chars@);
    out
}

/// Whether the character carries the Unicode property White_Space.
pub fn is_whitespace(c: char) -> (r: bool)
    ensures
        r == is_white_space(c),
{
    let n: u32 = c as u32;
    (0x09 <= n && n <= 0x0d) || n == 0x20 || n == 0x85 || n == 0xa0 || n == 0x1680 || (0x2000 <= n
        && n <= 0x200a) || n == 0x2028 || n == 0x2029 || n == 0x202f || n == 0x205f || n == 0x3000
}

/// The text without its leading and trailing white space.
pub fn trim(s: &str) -> (out: String)
    ensures
        out@ == trimmed(s@),
{
    let chars = to_chars(s);
    let mut start: usize = 0;
    assert(chars@.skip(0) == chars@);
    while start < chars.len() && is_whitespace(chars[start])
        invariant
            start <= chars.len(),
            trimmed_start(chars@.skip(start as int)) == trimmed_start(chars@),
        decreases chars.len() - start,
    {
        assert(chars@.skip(start as int).drop_first() == chars@.skip(start + 1));
        start += 1;
    }
    let ghost body = chars@.skip(start as int);
    assert(trimmed_start(chars@) == body);
    let mut end: usize = chars.len();
    while end > start && is_whitespace(chars[end - 1])
        invariant
            start <= end <= chars.len(),
            body == chars@.skip(start as int),
            trimmed_end(chars@.subrange(start as int, end as int)) == trimmed_end(body),
        decreases end - start,
    {
        assert(chars@.subrange(start as int, end as int).drop_last() == chars@.subrange(
            start as int,
            end - 1,
        ));
        end -= 1;
    }
    assert(chars@.subrange(start as int, chars.len() as int) == body);
    from_chars(&chars, start, end)
}

/// The two texts one after the other.
pub fn join_texts(a: &str, b: &str) -> (out: String)
    ensures
        out@ == a@ + b@,
{
    let mut out = a.to_owned();
    out.append(b);
    out
}

/// Taking a character out of a text keeps, in order, the characters that differ from it.
pub proof fn lemma_without_char(s: Seq<char>, c: char, keep: spec_fn(char) -> bool)
    requires
        forall|x: char| #[trigger] keep(x) == (x != c),
    ensures
        without(s, seq![c]) == s.filter(keep),
    decreases s.len(),
{
    reveal_with_fuel(Seq::filter, 2);
    if s.len() == 0 {
    } else {
        let head = seq![s[0]];
        let rest = s.skip(1);
        assert(s == head + rest);
        Seq::filter_distributes_over_add(head, rest, keep);
        lemma_without_char(rest, c, keep);
        assert(head.drop_last() == Seq::<char>::empty());
        assert(head.filter(keep) == if keep(s[0]) {
            head
        } else {
            Seq::<char>::empty()
        });
        assert(s.take(1) == head);
        if s[0] == c {
            assert(head == seq![c]);
            assert(Seq::<char>::empty() + rest.filter(keep) == rest.filter(keep));
        } else {
            assert(head[0] != seq![c][0]);
        }
    }
}

/// Keeping under one condition and then under another keeps under both.
pub proof fn lemma_filter_twice(
    s: Seq<char>,
    first: spec_fn(char) -> bool,
    second: spec_fn(char) -> bool,
    both: spec_fn(char) -> bool,
)
    requires
        forall|x: char| #[trigger] both(x) == (first(x) && second(x)),
    ensures
        s.filter(first).filter(second) == s.filter(both),
    decreases s.len(),
{
    reveal(Seq::filter);
    if s.len() > 0 {
        lemma_filter_twice(s.drop_last(), first, second, both);
        if first(s.last()) {
            let kept = s.drop_last().filter(first);
            assert(kept.push(s.last()).drop_last() == kept);
        }
    }
}

/// Keeping under a condition that holds of every character keeps the text.
pub proof fn lemma_filter_all(s: Seq<char>, keep: spec_fn(char) -> bool)
    requires
        forall|x: char| #[trigger] keep(x),
    ensures
        s.filter(keep) == s,
    decreases s.len(),
{
    reveal(Seq::filter);
    if s.len() > 0 {
        lemma_filter_all(s.drop_last(), keep);
        assert(s.drop_last().push(s.last()) == s);
    }
}

/// Keeping under a condition that holds of every character of a text keeps the text.
pub proof fn lemma_filter_keeps(s: Seq<char>, keep: spec_fn(char) -> bool)
    requires
        forall|i: int| 0 <= i < s.len() ==> keep(#[trigger] s[i]),
    ensures
        s.filter(keep) == s,
    decreases s.len(),
{
    reveal(Seq::filter);
    if s.len() > 0 {
        lemma_filter_keeps(s.drop_last(), keep);
        assert(s.drop_last().push(s.last()) == s);
    }
}

/// Each character as a pattern of its own.
pub open spec fn singles(chars: Seq<char>) -> Seq<Seq<char>> {
    chars.map_values(|c: char| seq![c])
}

/// Taking a list of characters out of a text, one after the other, keeps, in
/// order, the characters that are not in the list.
pub proof fn lemma_without_each_char(s: Seq<char>, chars: Seq<char>, keep: spec_fn(char) -> bool)
    requires
        forall|x: char| #[trigger] keep(x) == !chars.contains(x),
    ensures
        without_each(s, singles(chars)) == s.filter(keep),
    decreases chars.len(),
{
    if chars.len() == 0 {
        lemma_filter_all(s, keep);
    } else {
        let c = chars[0];
        let rest = chars.drop_first();
        let not_c = |x: char| x != c;
        let not_rest = |x: char| !rest.contains(x);
        assert(singles(chars)[0] == seq![c]);
        assert(singles(chars).drop_first() == singles(rest));
        lemma_without_char(s, c, not_c);
        lemma_without_each_char(s.filter(not_c), rest, not_rest);
        assert forall|x: char| #[trigger] keep(x) == (not_c(x) && not_rest(x)) by {
            if chars.contains(x) {
                let i = choose|i: int| 0 <= i < chars.len() && chars[i] == x;
                if i > 0 {
                    assert(rest[i - 1] == x);
                }
            } else {
                assert(chars[0] != x);
                if rest.contains(x) {
                    let i = choose|i: int| 0 <= i < rest.len() && rest[i] == x;
                    assert(chars[i + 1] == x);
                }
            }
        }
        lemma_filter_twice(s, not_c, not_rest, keep);
    }
}

} // verus!
