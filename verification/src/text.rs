//! Character-level helpers on string slices.

use vstd::prelude::*;
use vstd::string::*;
use vstd::utf8::*;

verus! {

/// Two texts with the same UTF-8 encoding are the same text.
pub proof fn lemma_encoding_is_injective(a: Seq<char>, b: Seq<char>)
    requires
        encode_utf8(a) == encode_utf8(b),
    ensures
        a == b,
{
    encode_utf8_decode_utf8(a);
    encode_utf8_decode_utf8(b);
}

/// Whether two string slices hold the same characters.
pub fn same(a: &str, b: &str) -> (eq: bool)
    ensures
        eq == (a@ == b@),
{
    let x = a.as_bytes();
    let y = b.as_bytes();
    if x.len() != y.len() {
        return false;
    }
    let mut i: usize = 0;
    while i < x.len()
        invariant
            x@.len() == y@.len(),
            i <= x@.len(),
            x@ == a.spec_bytes(),
            y@ == b.spec_bytes(),
            forall|j: int| 0 <= j < i ==> x@[j] == y@[j],
        decreases x@.len() - i,
    {
        if x[i] != y[i] {
            return false;
        }
        i += 1;
    }
    proof {
        assert(x@ =~= y@);
        lemma_encoding_is_injective(a@, b@);
    }
    true
}

/// The character at position `i` of `line`. Where the caller knows the line
/// to be ASCII, `ascii` says so and the character is read in one step;
/// otherwise the line is decoded up to that position.
fn char_at(line: &str, ascii: bool, i: usize) -> (c: char)
    requires
        i < line@.len(),
        ascii ==> is_ascii(line),
    ensures
        c == line@[i as int],
{
    if ascii {
        let b: u8 = line.get_ascii(i);
        assert(line@[i as int] as u8 == b && '\0' <= line@[i as int] <= '\u{7f}');
        b as char
    } else {
        line.get_char(i)
    }
}

/// The characters of `line` from position `from` up to `to`, with `ascii`
/// as in [`char_at`].
fn piece<'a>(line: &'a str, ascii: bool, from: usize, to: usize) -> (part: &'a str)
    requires
        from <= to <= line@.len(),
        ascii ==> is_ascii(line),
    ensures
        part@ == line@.subrange(from as int, to as int),
{
    if ascii {
        line.substring_ascii(from, to)
    } else {
        line.substring_char(from, to)
    }
}

/// The five characters that separate the words of a command line: space,
/// tab, line feed, form feed and carriage return.
pub open spec fn is_blank(c: char) -> bool {
    c == ' ' || c == '\t' || c == '\n' || c == '\x0C' || c == '\r'
}

/// How many characters at the front of `s` are not blank.
pub open spec fn word_run(s: Seq<char>) -> nat
    decreases s.len(),
{
    if s.len() > 0 && !is_blank(s[0]) {
        1 + word_run(s.drop_first())
    } else {
        0
    }
}

/// The leading word lies inside the text and holds no blank.
pub proof fn lemma_word_run_bounds(s: Seq<char>)
    ensures
        word_run(s) <= s.len(),
        s.len() > 0 && !is_blank(s[0]) ==> word_run(s) >= 1,
        forall|k: int| 0 <= k < word_run(s) ==> !is_blank(#[trigger] s[k]),
    decreases s.len(),
{
    if s.len() > 0 && !is_blank(s[0]) {
        let t = s.drop_first();
        lemma_word_run_bounds(t);
        assert forall|k: int| 0 <= k < word_run(s) implies !is_blank(#[trigger] s[k]) by {
            if k > 0 {
                assert(s[k] == t[k - 1]);
            }
        }
    }
}

/// The words of `s`: its maximal runs of characters that are not blank, in
/// the order in which they occur.
pub open spec fn words(s: Seq<char>) -> Seq<Seq<char>>
    decreases s.len(),
    via words_terminates
{
    if s.len() == 0 {
        Seq::empty()
    } else if is_blank(s[0]) {
        words(s.drop_first())
    } else {
        let n = word_run(s) as int;
        seq![s.take(n)] + words(s.skip(n))
    }
}

#[via_fn]
proof fn words_terminates(s: Seq<char>) {
    lemma_word_run_bounds(s);
}

/// A word: at least one character, none of them blank.
pub open spec fn is_word(w: Seq<char>) -> bool {
    w.len() > 0 && forall|k: int| 0 <= k < w.len() ==> !is_blank(#[trigger] w[k])
}

/// The characters of each slice, in order.
pub open spec fn views(v: Seq<&str>) -> Seq<Seq<char>> {
    Seq::new(v.len(), |i: int| v[i]@)
}

/// Executable form of [`is_blank`].
pub fn blank(c: char) -> (b: bool)
    ensures
        b == is_blank(c),
{
    c == ' ' || c == '\t' || c == '\n' || c == '\x0C' || c == '\r'
}

/// A run of `m` characters that are not blank, followed by a blank or by the
/// end of the text, is the leading word.
pub proof fn lemma_word_run(s: Seq<char>, m: int)
    requires
        0 <= m <= s.len(),
        forall|k: int| 0 <= k < m ==> !is_blank(#[trigger] s[k]),
        m == s.len() || is_blank(s[m]),
    ensures
        word_run(s) == m,
    decreases m,
{
    if m > 0 {
        let t = s.drop_first();
        assert forall|k: int| 0 <= k < m - 1 implies !is_blank(#[trigger] t[k]) by {
            assert(t[k] == s[k + 1]);
        }
        lemma_word_run(t, m - 1);
    }
}

/// No word is empty and no word holds a blank.
pub proof fn lemma_words_are_words(s: Seq<char>)
    ensures
        forall|i: int| 0 <= i < words(s).len() ==> is_word(#[trigger] words(s)[i]),
    decreases s.len(),
{
    if s.len() == 0 {
        assert(words(s).len() == 0);
    } else if is_blank(s[0]) {
        lemma_words_are_words(s.drop_first());
        assert(words(s) == words(s.drop_first()));
    } else {
        let n = word_run(s) as int;
        lemma_word_run_bounds(s);
        lemma_words_are_words(s.skip(n));
        let tail = words(s.skip(n));
        assert(words(s) == seq![s.take(n)] + tail);
        assert forall|i: int| 0 <= i < words(s).len() implies is_word(#[trigger] words(s)[i]) by {
            if i == 0 {
                assert(words(s)[0] == s.take(n));
            } else {
                assert(words(s)[i] == tail[i - 1]);
            }
        }
    }
}

/// Splits a line into its words.
pub fn split_words<'a>(line: &'a str) -> (tokens: Vec<&'a str>)
    ensures
        views(tokens@) == words(line@),
{
    let ascii = line.is_ascii();
    let n: usize = line.unicode_len();
    let mut tokens: Vec<&'a str> = Vec::new();
    let mut i: usize = 0;
    proof {
        assert(line@.skip(0) =~= line@);
        assert(views(tokens@) + words(line@) =~= words(line@));
    }
    while i < n
        invariant
            n == line@.len(),
            ascii ==> is_ascii(line),
            i <= n,
            views(tokens@) + words(line@.skip(i as int)) == words(line@),
        decreases n - i,
    {
        let ghost rest = line@.skip(i as int);
        if blank(char_at(line, ascii, i)) {
            proof {
                assert(rest.drop_first() =~= line@.skip(i + 1));
            }
            i += 1;
        } else {
            let mut j: usize = i + 1;
            while j < n && !blank(char_at(line, ascii, j))
                invariant
                    n == line@.len(),
                    ascii ==> is_ascii(line),
                    i < j <= n,
                    forall|k: int| i <= k < j ==> !is_blank(#[trigger] line@[k]),
                decreases n - j,
            {
                j += 1;
            }
            let word = piece(line, ascii, i, j);
            proof {
                lemma_word_run(rest, j - i);
                assert(rest.take(j - i) =~= line@.subrange(i as int, j as int));
                assert(rest.skip(j - i) =~= line@.skip(j as int));
                assert(views(tokens@.push(word)) =~= views(tokens@) + seq![word@]);
                assert(words(rest) == seq![word@] + words(line@.skip(j as int)));
                assert(views(tokens@.push(word)) + words(line@.skip(j as int)) =~= views(tokens@)
                    + words(rest));
            }
            tokens.push(word);
            i = j;
        }
    }
    proof {
        assert(line@.skip(n as int).len() == 0);
        assert(views(tokens@) + words(line@.skip(n as int)) =~= views(tokens@));
    }
    tokens
}

/// The characters that Unicode classes as white space (`White_Space`).
pub open spec fn is_space(c: char) -> bool {
    ||| '\u{9}' <= c <= '\u{D}'
    ||| c == ' '
    ||| c == '\u{85}'
    ||| c == '\u{A0}'
    ||| c == '\u{1680}'
    ||| '\u{2000}' <= c <= '\u{200A}'
    ||| c == '\u{2028}'
    ||| c == '\u{2029}'
    ||| c == '\u{202F}'
    ||| c == '\u{205F}'
    ||| c == '\u{3000}'
}

/// Executable form of [`is_space`].
pub fn space(c: char) -> (b: bool)
    ensures
        b == is_space(c),
{
    ('\u{9}' <= c && c <= '\u{D}') || c == ' ' || c == '\u{85}' || c == '\u{A0}' || c
        == '\u{1680}' || ('\u{2000}' <= c && c <= '\u{200A}') || c == '\u{2028}' || c
        == '\u{2029}' || c == '\u{202F}' || c == '\u{205F}' || c == '\u{3000}'
}

/// `s` without the white space at its front.
pub open spec fn trimmed_start(s: Seq<char>) -> Seq<char>
    decreases s.len(),
{
    if s.len() > 0 && is_space(s[0]) {
        trimmed_start(s.drop_first())
    } else {
        s
    }
}

/// `s` without the white space at its end.
pub open spec fn trimmed_end(s: Seq<char>) -> Seq<char>
    decreases s.len(),
{
    if s.len() > 0 && is_space(s.last()) {
        trimmed_end(s.drop_last())
    } else {
        s
    }
}

/// `s` without the white space at either end.
pub open spec fn trimmed(s: Seq<char>) -> Seq<char> {
    trimmed_end(trimmed_start(s))
}

/// Dropping `a` leading white-space characters that are followed by
/// something else, or by nothing, trims the front.
pub proof fn lemma_trimmed_start(s: Seq<char>, a: int)
    requires
        0 <= a <= s.len(),
        forall|k: int| 0 <= k < a ==> is_space(#[trigger] s[k]),
        a == s.len() || !is_space(s[a]),
    ensures
        trimmed_start(s) == s.skip(a),
    decreases a,
{
    if a > 0 {
        let t = s.drop_first();
        assert forall|k: int| 0 <= k < a - 1 implies is_space(#[trigger] t[k]) by {
            assert(t[k] == s[k + 1]);
        }
        lemma_trimmed_start(t, a - 1);
        assert(t.skip(a - 1) =~= s.skip(a));
    } else {
        assert(s.skip(0) =~= s);
    }
}

/// Keeping the first `b` characters, where only white space follows them
/// and the last of them is none, trims the end.
pub proof fn lemma_trimmed_end(s: Seq<char>, b: int)
    requires
        0 <= b <= s.len(),
        forall|k: int| b <= k < s.len() ==> is_space(#[trigger] s[k]),
        b == 0 || !is_space(s[b - 1]),
    ensures
        trimmed_end(s) == s.take(b),
    decreases s.len() - b,
{
    if b < s.len() {
        let t = s.drop_last();
        lemma_trimmed_end(t, b);
        assert(t.take(b) =~= s.take(b));
    } else {
        assert(s.take(b) =~= s);
    }
}

/// The line without the white space at either end.
pub fn trim<'a>(line: &'a str) -> (inner: &'a str)
    ensures
        inner@ == trimmed(line@),
{
    let ascii = line.is_ascii();
    let n: usize = line.unicode_len();
    let mut a: usize = 0;
    while a < n && space(char_at(line, ascii, a))
        invariant
            n == line@.len(),
            ascii ==> is_ascii(line),
            a <= n,
            forall|k: int| 0 <= k < a ==> is_space(#[trigger] line@[k]),
        decreases n - a,
    {
        a += 1;
    }
    let mut b: usize = n;
    while b > a && space(char_at(line, ascii, b - 1))
        invariant
            n == line@.len(),
            ascii ==> is_ascii(line),
            a <= b <= n,
            forall|k: int| b <= k < n ==> is_space(#[trigger] line@[k]),
        decreases b,
    {
        b -= 1;
    }
    proof {
        let rest = line@.skip(a as int);
        lemma_trimmed_start(line@, a as int);
        lemma_trimmed_end(rest, b - a);
        assert(rest.take(b - a) =~= line@.subrange(a as int, b as int));
    }
    piece(line, ascii, a, b)
}

} // verus!
