//! Small text utilities over the character view of strings.
//!
//! Every contract here speaks of `Seq<char>`, the view that `&str` and
//! `String` share, so callers can reason about texts without caring how
//! they are stored.

use vstd::prelude::*;
use vstd::string::StringExecFns;

verus! {

/// Whether `c` carries the Unicode `White_Space` property.
pub uninterp spec fn is_whitespace(c: char) -> bool;

/// `char::is_whitespace` of the standard library: the answer is the
/// `White_Space` property of the character, named by [`is_whitespace`].
#[verifier::external_body]
pub(crate) fn char_is_whitespace(c: char) -> (b: bool)
    ensures
        b == is_whitespace(c),
{
    c.is_whitespace()
}

/// `String::push` of the standard library appends one character at the end.
pub assume_specification[ String::push ](s: &mut String, c: char)
    ensures
        final(s)@ == old(s)@.push(c),
;

/// The characters of `s`, in order.
pub fn to_chars(s: &str) -> (v: Vec<char>)
    ensures
        v@ == s@,
{
    let mut v: Vec<char> = Vec::new();
    for c in it: s.chars()
        invariant
            it.seq() == s@,
            v@ == it.seq().take(it.index()),
    {
        v.push(c);
    }
    v
}

/// The text made of `chars[from..to]`.
pub fn string_of(chars: &Vec<char>, from: usize, to: usize) -> (s: String)
    requires
        from <= to <= chars.len(),
    ensures
        s@ == chars@.subrange(from as int, to as int),
{
    let mut s = String::new();
    let mut i: usize = from;
    while i < to
        invariant
            from <= i <= to <= chars.len(),
            s@ == chars@.subrange(from as int, i as int),
        decreases to - i,
    {
        s.push(chars[i]);
        i += 1;
    }
    s
}

/// `head` followed by `tail`.
pub fn join(head: &str, tail: &str) -> (s: String)
    ensures
        s@ == head@ + tail@,
{
    let mut s = head.to_owned();
    s.append(tail);
    s
}

/// A result whose error is a text, with the text taken by its characters.
pub open spec fn result_view<T>(result: Result<T, String>) -> Result<T, Seq<char>> {
    match result {
        Ok(value) => Ok(value),
        Err(message) => Err(message@),
    }
}

/// A text is blank when it holds nothing but whitespace; the empty text is blank.
pub open spec fn is_blank(s: Seq<char>) -> bool {
    forall|i: int| 0 <= i < s.len() ==> is_whitespace(#[trigger] s[i])
}

/// Decides [`is_blank`]: what is left after trimming whitespace is empty.
pub fn blank(s: &str) -> (b: bool)
    ensures
        b == is_blank(s@),
{
    let chars = to_chars(s);
    let mut i: usize = 0;
    while i < chars.len()
        invariant
            i <= chars.len(),
            chars@ == s@,
            forall|k: int| 0 <= k < i ==> is_whitespace(#[trigger] s@[k]),
        decreases chars.len() - i,
    {
        if !char_is_whitespace(chars[i]) {
            return false;
        }
        i += 1;
    }
    true
}

/// The first index at or after `i` that holds whitespace, or the length of
/// `s` when the rest of the text holds none.
pub open spec fn word_end(s: Seq<char>, i: int) -> int
    decreases s.len() - i,
{
    if i < 0 || i >= s.len() {
        s.len() as int
    } else if is_whitespace(s[i]) {
        i
    } else {
        word_end(s, i + 1)
    }
}

/// The words of `s` that begin at or after index `i`: the maximal runs of
/// characters that are not whitespace, from left to right.
pub open spec fn words_from(s: Seq<char>, i: int) -> Seq<Seq<char>>
    decreases s.len() - i,
{
    if i < 0 || i >= s.len() {
        Seq::empty()
    } else if is_whitespace(s[i]) {
        words_from(s, i + 1)
    } else {
        proof {
            lemma_word_end_bounds(s, i);
        }
        seq![s.subrange(i, word_end(s, i))] + words_from(s, word_end(s, i))
    }
}

/// The words of `s`: it is cut at whitespace, any amount of which separates
/// two words, and no word is empty.
pub open spec fn words(s: Seq<char>) -> Seq<Seq<char>> {
    words_from(s, 0)
}

/// A word that starts at `i` ends after `i` and within the text.
pub proof fn lemma_word_end_bounds(s: Seq<char>, i: int)
    requires
        0 <= i < s.len(),
    ensures
        i <= word_end(s, i) <= s.len(),
        !is_whitespace(s[i]) ==> i < word_end(s, i),
    decreases s.len() - i,
{
    if !is_whitespace(s[i]) {
        if i + 1 < s.len() {
            lemma_word_end_bounds(s, i + 1);
        } else {
            assert(word_end(s, i + 1) == s.len());
        }
    }
}

/// A text without a word from index `i` on is whitespace from there on, and
/// the other way round.
pub proof fn lemma_blank_has_no_words(s: Seq<char>, i: int)
    requires
        0 <= i,
    ensures
        words_from(s, i).len() == 0 <==> forall|k: int|
            i <= k < s.len() ==> is_whitespace(#[trigger] s[k]),
    decreases s.len() - i,
{
    if i < s.len() {
        if is_whitespace(s[i]) {
            lemma_blank_has_no_words(s, i + 1);
        } else {
            lemma_word_end_bounds(s, i);
        }
    }
}

/// A blank text has no words, and only a blank text has none.
pub proof fn lemma_words_of_blank(s: Seq<char>)
    ensures
        is_blank(s) <==> words(s).len() == 0,
{
    lemma_blank_has_no_words(s, 0);
}

/// No character before the end of a word is whitespace.
pub proof fn lemma_word_holds_no_whitespace(s: Seq<char>, i: int, k: int)
    requires
        0 <= i <= k < word_end(s, i),
    ensures
        k < s.len(),
        !is_whitespace(s[k]),
    decreases s.len() - i,
{
    if i < s.len() && !is_whitespace(s[i]) && i < k {
        lemma_word_holds_no_whitespace(s, i + 1, k);
    }
}

/// A word is a non-empty text without whitespace.
pub open spec fn is_word(w: Seq<char>) -> bool {
    &&& w.len() > 0
    &&& forall|k: int| 0 <= k < w.len() ==> !is_whitespace(#[trigger] w[k])
}

/// Every one of the words of a text is a word.
pub proof fn lemma_words_are_words(s: Seq<char>, i: int)
    requires
        0 <= i,
    ensures
        forall|n: int| 0 <= n < words_from(s, i).len() ==> is_word(#[trigger] words_from(s, i)[n]),
    decreases s.len() - i,
{
    if i >= s.len() {
        assert(words_from(s, i).len() == 0);
    } else {
        if is_whitespace(s[i]) {
            lemma_words_are_words(s, i + 1);
            assert(words_from(s, i) == words_from(s, i + 1));
        } else {
            lemma_word_end_bounds(s, i);
            let end = word_end(s, i);
            lemma_words_are_words(s, end);
            assert(words_from(s, i) == seq![s.subrange(i, end)] + words_from(s, end));
            let first = s.subrange(i, end);
            assert forall|k: int| 0 <= k < first.len() implies !is_whitespace(
                #[trigger] first[k],
            ) by {
                lemma_word_holds_no_whitespace(s, i, i + k);
            }
            assert(is_word(first));
            assert forall|n: int| 0 <= n < words_from(s, i).len() implies is_word(
                #[trigger] words_from(s, i)[n],
            ) by {
                if n == 0 {
                    assert(words_from(s, i)[0] == first);
                } else {
                    assert(words_from(s, i)[n] == words_from(s, end)[n - 1]);
                }
            }
        }
    }
}

/// Splits `s` at whitespace into its words.
pub fn split_whitespace(s: &str) -> (out: Vec<String>)
    ensures
        out.deep_view() == words(s@),
{
    let chars = to_chars(s);
    let n = chars.len();
    let mut out: Vec<String> = Vec::new();
    let mut i: usize = 0;
    while i < n
        invariant
            i <= n,
            n == chars.len(),
            chars@ == s@,
            out.deep_view() + words_from(s@, i as int) == words(s@),
        decreases n - i,
    {
        if char_is_whitespace(chars[i]) {
            i += 1;
        } else {
            let mut j: usize = i + 1;
            while j < n && !char_is_whitespace(chars[j])
                invariant
                    i < j <= n,
                    n == chars.len(),
                    chars@ == s@,
                    word_end(s@, j as int) == word_end(s@, i as int),
                decreases n - j,
            {
                j += 1;
            }
            let word = string_of(&chars, i, j);
            proof {
                let ghost before = out.deep_view();
                assert(word_end(s@, i as int) == j);
                assert(words_from(s@, i as int) == seq![word@] + words_from(s@, j as int));
                assert(before.push(word@) + words_from(s@, j as int) == before + words_from(
                    s@,
                    i as int,
                ));
            }
            let ghost before = out.deep_view();
            out.push(word);
            assert(out.deep_view() == before.push(word@));
            i = j;
        }
    }
    assert(words_from(s@, n as int) == Seq::<Seq<char>>::empty());
    out
}

/// Whether two texts hold the same characters.
pub fn same_text(a: &str, b: &str) -> (same: bool)
    ensures
        same == (a@ == b@),
{
    let x = to_chars(a);
    let y = to_chars(b);
    same_chars(&x, &y)
}

/// Whether two character vectors are equal.
pub fn same_chars(x: &Vec<char>, y: &Vec<char>) -> (same: bool)
    ensures
        same == (x@ == y@),
{
    if x.len() != y.len() {
        return false;
    }
    let mut i: usize = 0;
    while i < x.len()
        invariant
            i <= x.len(),
            x.len() == y.len(),
            x@.take(i as int) == y@.take(i as int),
        decreases x.len() - i,
    {
        if x[i] != y[i] {
            return false;
        }
        assert(x@.take(i + 1) == x@.take(i as int).push(x@[i as int]));
        assert(y@.take(i + 1) == y@.take(i as int).push(y@[i as int]));
        i += 1;
    }
    assert(x@.take(x.len() as int) == x@);
    assert(y@.take(y.len() as int) == y@);
    true
}

/// Whether `pattern` occurs in `s` at index `at`.
pub open spec fn occurs_at(s: Seq<char>, pattern: Seq<char>, at: int) -> bool {
    0 <= at && at + pattern.len() <= s.len() && s.subrange(at, at + pattern.len()) == pattern
}

/// Decides [`occurs_at`].
pub fn matches_at(s: &Vec<char>, pattern: &Vec<char>, at: usize) -> (found: bool)
    ensures
        found == occurs_at(s@, pattern@, at as int),
{
    if at > s.len() || pattern.len() > s.len() - at {
        return false;
    }
    let mut k: usize = 0;
    while k < pattern.len()
        invariant
            k <= pattern.len(),
            at + pattern.len() <= s.len(),
            s@.subrange(at as int, at + k) == pattern@.take(k as int),
        decreases pattern.len() - k,
    {
        if s[at + k] != pattern[k] {
            assert(s@.subrange(at as int, at + pattern.len())[k as int] != pattern@[k as int]);
            return false;
        }
        assert(s@.subrange(at as int, at + k + 1) == s@.subrange(at as int, at + k).push(
            s@[at + k],
        ));
        assert(pattern@.take(k + 1) == pattern@.take(k as int).push(pattern@[k as int]));
        k += 1;
    }
    assert(pattern@.take(pattern.len() as int) == pattern@);
    true
}

/// Whether `s` begins with `prefix`.
pub fn starts_with(s: &str, prefix: &str) -> (b: bool)
    ensures
        b == prefix@.is_prefix_of(s@),
{
    let x = to_chars(s);
    let p = to_chars(prefix);
    let b = matches_at(&x, &p, 0);
    assert(b == p@.is_prefix_of(x@));
    b
}

/// Whether `s` ends with `suffix`.
pub fn ends_with(s: &str, suffix: &str) -> (b: bool)
    ensures
        b == suffix@.is_suffix_of(s@),
{
    let x = to_chars(s);
    let p = to_chars(suffix);
    if p.len() > x.len() {
        return false;
    }
    let b = matches_at(&x, &p, x.len() - p.len());
    assert(b == p@.is_suffix_of(x@));
    b
}

/// Whether `pattern` occurs somewhere in `s`.
pub open spec fn occurs_in(s: Seq<char>, pattern: Seq<char>) -> bool {
    exists|at: int| occurs_at(s, pattern, at)
}

/// Decides [`occurs_in`].
pub fn contains(s: &str, pattern: &str) -> (found: bool)
    ensures
        found == occurs_in(s@, pattern@),
{
    let x = to_chars(s);
    let p = to_chars(pattern);
    if p.len() == 0 {
        assert(s@.subrange(0, 0) == pattern@);
        assert(occurs_at(s@, pattern@, 0));
        return true;
    }
    if p.len() > x.len() {
        return false;
    }
    let last: usize = x.len() - p.len();
    let mut at: usize = 0;
    while at <= last
        invariant
            at <= last + 1,
            last == x.len() - p.len(),
            last < x.len(),
            x@ == s@,
            p@ == pattern@,
            forall|k: int| 0 <= k < at ==> !occurs_at(s@, pattern@, k),
        decreases last + 1 - at,
    {
        if matches_at(&x, &p, at) {
            return true;
        }
        at += 1;
    }
    false
}

/// The code point of `c`, with the ASCII capitals mapped to their small letters.
pub open spec fn ascii_lower(c: char) -> int {
    if 'A' <= c && c <= 'Z' {
        c as int + 32
    } else {
        c as int
    }
}

/// Two texts are equal up to ASCII case when they are equally long and agree
/// position by position once ASCII capitals are read as small letters.
pub open spec fn eq_ascii_case_insensitive(a: Seq<char>, b: Seq<char>) -> bool {
    &&& a.len() == b.len()
    &&& forall|i: int| 0 <= i < a.len() ==> ascii_lower(#[trigger] a[i]) == ascii_lower(b[i])
}

/// Computes [`ascii_lower`].
fn lower_code(c: char) -> (code: u32)
    ensures
        code == ascii_lower(c),
{
    if 'A' <= c && c <= 'Z' {
        c as u32 + 32
    } else {
        c as u32
    }
}

/// Decides [`eq_ascii_case_insensitive`].
pub fn eq_ignore_ascii_case(a: &str, b: &str) -> (same: bool)
    ensures
        same == eq_ascii_case_insensitive(a@, b@),
{
    let x = to_chars(a);
    let y = to_chars(b);
    if x.len() != y.len() {
        return false;
    }
    let mut i: usize = 0;
    while i < x.len()
        invariant
            i <= x.len(),
            x.len() == y.len(),
            x@ == a@,
            y@ == b@,
            forall|k: int| 0 <= k < i ==> ascii_lower(#[trigger] a@[k]) == ascii_lower(b@[k]),
        decreases x.len() - i,
    {
        if lower_code(x[i]) != lower_code(y[i]) {
            return false;
        }
        i += 1;
    }
    true
}

/// What is left of `s` once `suffix` has been taken from its end as often as
/// it stands there. An empty `suffix` takes nothing.
pub open spec fn without_trailing(s: Seq<char>, suffix: Seq<char>) -> Seq<char>
    decreases s.len(),
{
    if suffix.len() > 0 && suffix.is_suffix_of(s) {
        without_trailing(s.take(s.len() - suffix.len()), suffix)
    } else {
        s
    }
}

/// Where the last field of `s[..end]` begins when fields are separated by
/// `sep`: just after the last `sep` before `end`, or at 0 when there is none.
pub open spec fn last_field_start(s: Seq<char>, sep: char, end: int) -> int
    decreases end,
{
    if end <= 0 {
        0
    } else if s[end - 1] == sep {
        end
    } else {
        last_field_start(s, sep, end - 1)
    }
}

/// The last of the fields that `sep` separates in `s`; all of `s` when
/// `sep` does not occur in it.
pub open spec fn last_field(s: Seq<char>, sep: char) -> Seq<char> {
    s.skip(last_field_start(s, sep, s.len() as int))
}

/// The last `sep`-separated field of what is left of `s` after every trailing
/// `suffix` has been removed.
pub fn last_field_before_suffix(s: &str, suffix: &str, sep: char) -> (field: String)
    ensures
        field@ == last_field(without_trailing(s@, suffix@), sep),
{
    let x = to_chars(s);
    let p = to_chars(suffix);
    let mut end: usize = x.len();
    if p.len() > 0 {
        assert(s@.take(end as int) == s@);
        while end >= p.len() && matches_at(&x, &p, end - p.len())
            invariant
                end <= x.len(),
                p.len() > 0,
                x@ == s@,
                p@ == suffix@,
                without_trailing(s@.take(end as int), suffix@) == without_trailing(s@, suffix@),
            decreases end,
        {
            assert(s@.take(end as int).subrange(end - p.len(), end as int) == s@.subrange(
                end - p.len(),
                end as int,
            ));
            assert(s@.take(end as int).take(end - p.len()) == s@.take(end - p.len()));
            end -= p.len();
        }
        assert(!suffix@.is_suffix_of(s@.take(end as int))) by {
            if end >= p.len() {
                assert(s@.take(end as int).subrange(end - p.len(), end as int) == s@.subrange(
                    end - p.len(),
                    end as int,
                ));
            }
        }
    } else {
        assert(s@.take(end as int) == s@);
    }
    let ghost stem = s@.take(end as int);
    assert(without_trailing(s@, suffix@) == stem);
    let mut start: usize = end;
    while start > 0 && x[start - 1] != sep
        invariant
            start <= end <= x.len(),
            x@ == s@,
            stem == s@.take(end as int),
            last_field_start(stem, sep, start as int) == last_field_start(stem, sep, end as int),
        decreases start,
    {
        start -= 1;
    }
    let field = string_of(&x, start, end);
    assert(last_field_start(stem, sep, start as int) == start);
    assert(field@ == stem.skip(start as int));
    field
}

/// The character that writes the digit `d`: `0` to `9`, then `A` to `F`.
pub open spec fn digit_char(d: int) -> char {
    if d < 10 {
        (48 + d) as char
    } else {
        (55 + d) as char
    }
}

/// `n` written in base ten, without sign or leading zeros.
pub open spec fn decimal(n: nat) -> Seq<char>
    decreases n,
{
    if n < 10 {
        seq![digit_char(n as int)]
    } else {
        decimal(n / 10).push(digit_char((n % 10) as int))
    }
}

/// `n` written in base ten, with a leading `-` when it is negative.
pub open spec fn signed_decimal(n: int) -> Seq<char> {
    if n < 0 {
        seq!['-'] + decimal((-n) as nat)
    } else {
        decimal(n as nat)
    }
}

/// `n` written in base sixteen with capital letters, without leading zeros.
pub open spec fn hex_upper(n: nat) -> Seq<char>
    decreases n,
{
    if n < 16 {
        seq![digit_char(n as int)]
    } else {
        hex_upper(n / 16).push(digit_char((n % 16) as int))
    }
}

/// `v` read from its end to its start.
pub open spec fn backwards(v: Seq<char>) -> Seq<char> {
    Seq::new(v.len(), |k: int| v[v.len() - 1 - k])
}

/// The character for a digit below sixteen.
fn digit(d: u8) -> (c: char)
    requires
        d < 16,
    ensures
        c == digit_char(d as int),
{
    if d < 10 {
        (48u8 + d) as char
    } else {
        (55u8 + d) as char
    }
}

/// Appends to `out` the characters of `rev`, last one first.
fn push_backwards(out: &mut String, rev: &Vec<char>)
    ensures
        final(out)@ == old(out)@ + backwards(rev@),
{
    let n = rev.len();
    let mut i: usize = 0;
    while i < n
        invariant
            i <= n,
            n == rev.len(),
            out@ == old(out)@ + backwards(rev@).take(i as int),
        decreases n - i,
    {
        out.push(rev[n - 1 - i]);
        assert(backwards(rev@).take(i + 1) == backwards(rev@).take(i as int).push(
            rev@[n - 1 - i],
        ));
        i += 1;
    }
    assert(backwards(rev@).take(n as int) == backwards(rev@));
}

/// Appends `n` in base ten to `out`.
pub fn push_decimal(out: &mut String, n: u64)
    ensures
        final(out)@ == old(out)@ + decimal(n as nat),
{
    let mut rev: Vec<char> = Vec::new();
    let mut rest: u64 = n;
    while rest >= 10
        invariant
            decimal(n as nat) == decimal(rest as nat) + backwards(rev@),
        decreases rest,
    {
        let d = digit((rest % 10) as u8);
        let ghost before = rev@;
        rev.push(d);
        assert(backwards(rev@) == seq![d] + backwards(before));
        assert(decimal(rest as nat) == decimal((rest / 10) as nat).push(d));
        assert(decimal((rest / 10) as nat).push(d) + backwards(before) == decimal(
            (rest / 10) as nat,
        ) + (seq![d] + backwards(before)));
        rest = rest / 10;
    }
    let d = digit(rest as u8);
    let ghost before = rev@;
    rev.push(d);
    assert(backwards(rev@) == seq![d] + backwards(before));
    assert(decimal(rest as nat) + backwards(before) == backwards(rev@));
    push_backwards(out, &rev);
}

/// Appends `n` in base ten to `out`, with `-` in front when it is negative.
pub fn push_signed_decimal(out: &mut String, n: i64)
    ensures
        final(out)@ == old(out)@ + signed_decimal(n as int),
{
    if n < 0 {
        out.push('-');
        let magnitude: u64 = if n == i64::MIN {
            9223372036854775808u64
        } else {
            (-n) as u64
        };
        let ghost mid = out@;
        push_decimal(out, magnitude);
        assert(out@ == old(out)@ + (seq!['-'] + decimal(magnitude as nat)));
    } else {
        push_decimal(out, n as u64);
    }
}

/// Appends `n` in base sixteen, capital letters, to `out`.
pub fn push_hex_upper(out: &mut String, n: u32)
    ensures
        final(out)@ == old(out)@ + hex_upper(n as nat),
{
    let mut rev: Vec<char> = Vec::new();
    let mut rest: u32 = n;
    while rest >= 16
        invariant
            hex_upper(n as nat) == hex_upper(rest as nat) + backwards(rev@),
        decreases rest,
    {
        let d = digit((rest % 16) as u8);
        let ghost before = rev@;
        rev.push(d);
        assert(backwards(rev@) == seq![d] + backwards(before));
        assert(hex_upper(rest as nat) == hex_upper((rest / 16) as nat).push(d));
        assert(hex_upper((rest / 16) as nat).push(d) + backwards(before) == hex_upper(
            (rest / 16) as nat,
        ) + (seq![d] + backwards(before)));
        rest = rest / 16;
    }
    let d = digit(rest as u8);
    let ghost before = rev@;
    rev.push(d);
    assert(backwards(rev@) == seq![d] + backwards(before));
    assert(hex_upper(rest as nat) + backwards(before) == backwards(rev@));
    push_backwards(out, &rev);
}

} // verus!
