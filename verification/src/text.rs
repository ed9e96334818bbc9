//! Text as sequences of characters: whitespace, words, and the normal form in
//! which every run of whitespace is a single space.

use vstd::prelude::*;

verus! {

/// Whether `c` has the Unicode property `White_Space`.
pub open spec fn is_whitespace(c: char) -> bool {
    ||| '\u{9}' <= c <= '\u{d}'
    ||| c == ' '
    ||| c == '\u{85}'
    ||| c == '\u{a0}'
    ||| c == '\u{1680}'
    ||| '\u{2000}' <= c <= '\u{200a}'
    ||| c == '\u{2028}'
    ||| c == '\u{2029}'
    ||| c == '\u{202f}'
    ||| c == '\u{205f}'
    ||| c == '\u{3000}'
}

/// The upper-case form of an ASCII lower-case letter; any other character
/// unchanged.
pub open spec fn ascii_upper(c: char) -> char {
    if 'a' <= c <= 'z' {
        ((c as u8) - 32) as char
    } else {
        c
    }
}

/// The number of characters of `s` before its first whitespace character.
pub open spec fn word_len(s: Seq<char>) -> nat
    decreases s.len(),
{
    if s.len() > 0 && !is_whitespace(s[0]) {
        1 + word_len(s.skip(1))
    } else {
        0
    }
}

/// The maximal runs of characters of `s` that are not whitespace, in order.
pub open spec fn words(s: Seq<char>) -> Seq<Seq<char>>
    decreases s.len(),
    via words_decreases
{
    if s.len() == 0 {
        Seq::empty()
    } else if is_whitespace(s[0]) {
        words(s.skip(1))
    } else {
        let n = word_len(s) as int;
        seq![s.take(n)] + words(s.skip(n))
    }
}

#[via_fn]
proof fn words_decreases(s: Seq<char>) {
    lemma_word_len_bounds(s);
}

/// Whether `w` is non-empty and holds no whitespace.
pub open spec fn is_word(w: Seq<char>) -> bool {
    &&& w.len() > 0
    &&& forall|k: int| 0 <= k < w.len() ==> !is_whitespace(#[trigger] w[k])
}

/// The given pieces with `separator` between each two neighbours.
pub open spec fn join(pieces: Seq<Seq<char>>, separator: char) -> Seq<char>
    decreases pieces.len(),
{
    if pieces.len() == 0 {
        Seq::empty()
    } else if pieces.len() == 1 {
        pieces[0]
    } else {
        pieces[0] + seq![separator] + join(pieces.skip(1), separator)
    }
}

/// `s` without leading and trailing whitespace, and with every other run of
/// whitespace replaced by one space.
pub open spec fn normalized(s: Seq<char>) -> Seq<char> {
    join(words(s), ' ')
}

/// Whether every whitespace character of `t` is a single space between two
/// characters that are not whitespace.
pub open spec fn is_normal(t: Seq<char>) -> bool {
    forall|i: int|
        0 <= i < t.len() && is_whitespace(#[trigger] t[i]) ==> {
            &&& t[i] == ' '
            &&& 0 < i < t.len() - 1
            &&& !is_whitespace(t[i - 1])
            &&& !is_whitespace(t[i + 1])
        }
}

/// A word never reaches past the end of the text.
pub proof fn lemma_word_len_bounds(s: Seq<char>)
    ensures
        word_len(s) <= s.len(),
        s.len() > 0 && !is_whitespace(s[0]) ==> word_len(s) >= 1,
    decreases s.len(),
{
    if s.len() > 0 && !is_whitespace(s[0]) {
        lemma_word_len_bounds(s.skip(1));
    }
}

/// `word_len(s)` is `n` when the first `n` characters of `s` are not
/// whitespace and the text ends there or goes on with whitespace.
pub proof fn lemma_word_len_is(s: Seq<char>, n: int)
    requires
        0 <= n <= s.len(),
        forall|k: int| 0 <= k < n ==> !is_whitespace(#[trigger] s[k]),
        n == s.len() || is_whitespace(s[n]),
    ensures
        word_len(s) == n,
    decreases n,
{
    if n > 0 {
        let t = s.skip(1);
        assert forall|k: int| 0 <= k < n - 1 implies !is_whitespace(#[trigger] t[k]) by {
            assert(t[k] == s[k + 1]);
        }
        lemma_word_len_is(t, n - 1);
    }
}

/// The first `word_len(s)` characters of `s` are not whitespace.
proof fn lemma_word_run(s: Seq<char>, n: int)
    requires
        n == word_len(s),
    ensures
        forall|k: int| 0 <= k < n ==> !is_whitespace(#[trigger] s[k]),
        n < s.len() ==> is_whitespace(s[n]),
    decreases s.len(),
{
    lemma_word_len_bounds(s);
    if s.len() > 0 && !is_whitespace(s[0]) {
        let t = s.skip(1);
        lemma_word_run(t, n - 1);
        assert forall|k: int| 0 <= k < n implies !is_whitespace(#[trigger] s[k]) by {
            if k > 0 {
                assert(s[k] == t[k - 1]);
            }
        }
        if n < s.len() {
            assert(s[n] == t[n - 1]);
        }
    }
}

/// Every word of a text is non-empty and holds no whitespace.
pub proof fn lemma_words_are_words(s: Seq<char>)
    ensures
        forall|i: int| 0 <= i < words(s).len() ==> is_word(#[trigger] words(s)[i]),
    decreases s.len(),
{
    if s.len() == 0 {
        assert(words(s).len() == 0);
    } else if is_whitespace(s[0]) {
        lemma_words_are_words(s.skip(1));
        assert(words(s) == words(s.skip(1)));
    } else {
        let n = word_len(s) as int;
        let first = s.take(n);
        let rest = words(s.skip(n));
        lemma_word_len_bounds(s);
        lemma_word_run(s, n);
        lemma_words_are_words(s.skip(n));
        assert(is_word(first)) by {
            assert forall|k: int| 0 <= k < first.len() implies !is_whitespace(
                #[trigger] first[k],
            ) by {
                assert(first[k] == s[k]);
            }
        }
        assert forall|i: int| 0 <= i < words(s).len() implies is_word(#[trigger] words(s)[i]) by {
            if i > 0 {
                assert(words(s)[i] == rest[i - 1]);
            }
        }
    }
}

/// Words joined by single spaces are in normal form, and are again the same
/// words.
pub proof fn lemma_joined_words(ws: Seq<Seq<char>>)
    requires
        forall|i: int| 0 <= i < ws.len() ==> is_word(#[trigger] ws[i]),
    ensures
        is_normal(join(ws, ' ')),
        words(join(ws, ' ')) == ws,
        ws.len() > 0 ==> join(ws, ' ').len() > 0 && !is_whitespace(join(ws, ' ')[0])
            && !is_whitespace(join(ws, ' ').last()),
    decreases ws.len(),
{
    let joined = join(ws, ' ');
    if ws.len() == 0 {
    } else if ws.len() == 1 {
        let w = ws[0];
        assert(is_word(w));
        lemma_word_len_is(w, w.len() as int);
        assert(w.take(w.len() as int) =~= w);
        assert(w.skip(w.len() as int) =~= Seq::<char>::empty());
        assert(words(w.skip(w.len() as int)) =~= Seq::<Seq<char>>::empty());
        assert(words(w) =~= seq![w]);
        assert(ws =~= seq![w]);
    } else {
        let w = ws[0];
        let rest = ws.skip(1);
        let tail = join(rest, ' ');
        let n = w.len() as int;
        assert(is_word(w));
        assert forall|i: int| 0 <= i < rest.len() implies is_word(#[trigger] rest[i]) by {
            assert(rest[i] == ws[i + 1]);
        }
        lemma_joined_words(rest);
        assert(joined == w + seq![' '] + tail);
        assert forall|k: int| 0 <= k < n implies !is_whitespace(#[trigger] joined[k]) by {
            assert(joined[k] == w[k]);
        }
        assert(joined[n] == ' ');
        assert forall|k: int| n < k < joined.len() implies #[trigger] joined[k] == tail[k - n - 1] by {
        }
        lemma_word_len_is(joined, n);
        assert(joined.take(n) =~= w);
        let after = joined.skip(n);
        assert(after =~= seq![' '] + tail);
        assert(after.skip(1) =~= tail);
        assert(words(after) == words(tail));
        assert(words(joined) =~= ws);
        assert forall|i: int| 0 <= i < joined.len() && is_whitespace(#[trigger] joined[i]) implies {
            &&& joined[i] == ' '
            &&& 0 < i < joined.len() - 1
            &&& !is_whitespace(joined[i - 1])
            &&& !is_whitespace(joined[i + 1])
        } by {
            if i == n {
                assert(joined[i - 1] == w[n - 1]);
                assert(joined[i + 1] == tail[0]);
            } else {
                assert(i > n);
                let j = i - n - 1;
                assert(joined[i] == tail[j]);
                assert(is_whitespace(tail[j]));
                assert(joined[i - 1] == tail[j - 1]);
                assert(joined[i + 1] == tail[j + 1]);
            }
        }
        assert(joined.last() == tail.last());
    }
}

/// A text in its normal form holds whitespace only as single spaces between
/// words.
pub proof fn lemma_normalized_is_normal(s: Seq<char>)
    ensures
        is_normal(normalized(s)),
{
    lemma_words_are_words(s);
    lemma_joined_words(words(s));
}

/// The normal form keeps the words of a text, so that normalizing twice
/// gives what normalizing once gives.
pub proof fn lemma_normalized_keeps_words(s: Seq<char>)
    ensures
        words(normalized(s)) == words(s),
        normalized(normalized(s)) == normalized(s),
{
    lemma_words_are_words(s);
    lemma_joined_words(words(s));
}

/// `String::push` of the standard library appends one character.
pub assume_specification[ String::push ](s: &mut String, c: char)
    ensures
        final(s)@ == old(s)@.push(c),
;

/// Equality of two string slices, as `==` of the standard library decides
/// it: they hold the same characters.
#[verifier::external_body]
pub(crate) fn same_text(a: &str, b: &str) -> (res: bool)
    ensures
        res == (a@ == b@),
{
    a == b
}

/// Whether `c` has the Unicode property `White_Space`.
pub fn char_is_whitespace(c: char) -> (res: bool)
    ensures
        res == is_whitespace(c),
{
    ('\u{9}' <= c && c <= '\u{d}') || c == ' ' || c == '\u{85}' || c == '\u{a0}' || c == '\u{1680}'
        || ('\u{2000}' <= c && c <= '\u{200a}') || c == '\u{2028}' || c == '\u{2029}' || c
        == '\u{202f}' || c == '\u{205f}' || c == '\u{3000}'
}

/// The upper-case form of an ASCII lower-case letter; any other character
/// unchanged.
pub fn char_ascii_upper(c: char) -> (res: char)
    ensures
        res == ascii_upper(c),
{
    if 'a' <= c && c <= 'z' {
        ((c as u8) - 32) as char
    } else {
        c
    }
}

/// The characters of `text`, in order.
pub fn to_chars(text: &str) -> (res: Vec<char>)
    ensures
        res@ == text@,
{
    let mut out: Vec<char> = Vec::new();
    for c in it: text.chars()
        invariant
            it.seq() == text@,
            out@ == text@.take(it.index()),
    {
        out.push(c);
        assert(text@.take(it.index() + 1) =~= text@.take(it.index()).push(c));
    }
    assert(text@.take(text@.len() as int) =~= text@);
    out
}

/// Whether `text` ends with the character `c`.
pub fn ends_with_char(text: &str, c: char) -> (res: bool)
    ensures
        res == (text@.len() > 0 && text@.last() == c),
{
    let mut last: Option<char> = None;
    for x in it: text.chars()
        invariant
            it.seq() == text@,
            last == (if it.index() == 0 {
                None
            } else {
                Some(text@[it.index() - 1])
            }),
    {
        last = Some(x);
    }
    match last {
        Some(x) => x == c,
        None => false,
    }
}

/// What is still owed to the normal form of a text when `out` has been
/// written and the words `rest` are to come.
spec fn continued(out: Seq<char>, rest: Seq<Seq<char>>) -> Seq<char> {
    if rest.len() == 0 {
        out
    } else if out.len() == 0 {
        join(rest, ' ')
    } else {
        out + seq![' '] + join(rest, ' ')
    }
}

/// Writing the first of the words that are to come keeps what `continued`
/// says.
proof fn lemma_continued_step(out: Seq<char>, w: Seq<char>, rest: Seq<Seq<char>>)
    requires
        w.len() > 0,
    ensures
        continued(out, seq![w] + rest) == continued(
            if out.len() == 0 {
                w
            } else {
                out + seq![' '] + w
            },
            rest,
        ),
{
    let all = seq![w] + rest;
    assert(all[0] == w);
    assert(all.skip(1) =~= rest);
    if rest.len() > 0 {
        assert(join(all, ' ') == w + seq![' '] + join(rest, ' '));
        if out.len() > 0 {
            assert(out + seq![' '] + (w + seq![' '] + join(rest, ' ')) =~= (out + seq![' ']
                + w) + seq![' '] + join(rest, ' '));
        }
    } else {
        assert(join(all, ' ') == w);
    }
}

/// Collapses every run of whitespace in `text` to one space and drops the
/// whitespace at both ends.
pub fn normalize_whitespace(text: &str) -> (res: String)
    ensures
        res@ == normalized(text@),
{
    let chars = to_chars(text);
    let n = chars.len();
    let mut out = String::new();
    let mut blank = true;
    let mut i: usize = 0;
    proof {
        assert(text@.skip(0) =~= text@);
    }
    while i < n
        invariant
            n == chars@.len(),
            chars@ == text@,
            i <= n,
            blank == (out@.len() == 0),
            normalized(text@) == continued(out@, words(text@.skip(i as int))),
        decreases n - i,
    {
        let ghost tail = text@.skip(i as int);
        if char_is_whitespace(chars[i]) {
            proof {
                assert(tail.skip(1) =~= text@.skip(i + 1));
            }
            i = i + 1;
        } else {
            if !blank {
                out.push(' ');
            }
            let ghost before = out@;
            let ghost start = i;
            while i < n && !char_is_whitespace(chars[i])
                invariant
                    n == chars@.len(),
                    chars@ == text@,
                    start <= i <= n,
                    out@ == before + text@.subrange(start as int, i as int),
                    forall|k: int| start <= k < i ==> !is_whitespace(#[trigger] text@[k]),
                decreases n - i,
            {
                out.push(chars[i]);
                proof {
                    assert(text@.subrange(start as int, i + 1) =~= text@.subrange(
                        start as int,
                        i as int,
                    ).push(text@[i as int]));
                }
                i = i + 1;
            }
            blank = false;
            proof {
                let len = i - start;
                let w = text@.subrange(start as int, i as int);
                assert forall|k: int| 0 <= k < len implies !is_whitespace(#[trigger] tail[k]) by {
                    assert(tail[k] == text@[start + k]);
                }
                lemma_word_len_is(tail, len);
                assert(tail.take(len) =~= w);
                assert(tail.skip(len) =~= text@.skip(i as int));
                lemma_continued_step(
                    if before.len() == 0 {
                        before
                    } else {
                        before.drop_last()
                    },
                    w,
                    words(text@.skip(i as int)),
                );
                assert(before.len() > 0 ==> before =~= before.drop_last() + seq![' ']);
            }
        }
    }
    out
}

} // verus!
