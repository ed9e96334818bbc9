//! How the names of GraphQL types are derived from the names of collections.

use crate::text::{ascii_upper, char_ascii_upper, join};
use vstd::prelude::*;

verus! {

/// The number of characters of `s` before its first underscore.
pub open spec fn segment_len(s: Seq<char>) -> nat
    decreases s.len(),
{
    if s.len() > 0 && s[0] != '_' {
        1 + segment_len(s.skip(1))
    } else {
        0
    }
}

/// The parts of `s` between its underscores, in order. An underscore at
/// the very end closes the last part and opens no new one.
pub open spec fn segments(s: Seq<char>) -> Seq<Seq<char>>
    decreases s.len(),
    via segments_decreases
{
    if s.len() == 0 {
        Seq::empty()
    } else {
        let n = segment_len(s) as int;
        if n == s.len() {
            seq![s]
        } else {
            seq![s.take(n)] + segments(s.skip(n + 1))
        }
    }
}

#[via_fn]
proof fn segments_decreases(s: Seq<char>) {
    lemma_segment_len_bounds(s);
}

/// `w` with its first character in upper case.
pub open spec fn capitalized(w: Seq<char>) -> Seq<char> {
    if w.len() == 0 {
        w
    } else {
        w.update(0, ascii_upper(w[0]))
    }
}

/// `w` without one `s` at its end, where it has one.
pub open spec fn singular(w: Seq<char>) -> Seq<char> {
    if w.len() > 0 && w.last() == 's' {
        w.drop_last()
    } else {
        w
    }
}

/// `w` with an `s` at its end: added where it has none.
pub open spec fn plural(w: Seq<char>) -> Seq<char> {
    if w.len() > 0 && w.last() == 's' {
        w
    } else {
        w.push('s')
    }
}

/// The given words one after the other.
pub open spec fn concat(ws: Seq<Seq<char>>) -> Seq<char>
    decreases ws.len(),
{
    if ws.len() == 0 {
        Seq::empty()
    } else {
        ws[0] + concat(ws.skip(1))
    }
}

/// The words of a type's name: the segments of the collection's name, each
/// capitalized, the first of them in the singular.
pub open spec fn type_words(collection: Seq<char>) -> Seq<Seq<char>> {
    let words = segments(collection).map_values(|w: Seq<char>| capitalized(w));
    if words.len() > 0 {
        words.update(0, singular(words[0]))
    } else {
        words
    }
}

/// The name of the GraphQL type of the documents of a collection.
pub open spec fn doc_type(collection: Seq<char>) -> Seq<char> {
    concat(type_words(collection))
}

/// The name of the filter type that a subscription to `table` declares:
/// the table's name without its last character, then `Filter`, capitalized.
pub open spec fn subscription_filter_type(table: Seq<char>) -> Seq<char> {
    capitalized(table.drop_last() + "Filter"@)
}

/// Whether `s` holds no underscore.
pub open spec fn has_no_underscore(s: Seq<char>) -> bool {
    forall|k: int| 0 <= k < s.len() ==> #[trigger] s[k] != '_'
}

/// Whether `c` is an ASCII lower-case letter.
pub open spec fn is_ascii_lower(c: char) -> bool {
    'a' <= c <= 'z'
}

/// A segment never reaches past the end of the text.
pub proof fn lemma_segment_len_bounds(s: Seq<char>)
    ensures
        segment_len(s) <= s.len(),
    decreases s.len(),
{
    if s.len() > 0 && s[0] != '_' {
        lemma_segment_len_bounds(s.skip(1));
    }
}

/// `segment_len(s)` is `n` when the first `n` characters of `s` are no
/// underscores and the text ends there or goes on with an underscore.
pub proof fn lemma_segment_len_is(s: Seq<char>, n: int)
    requires
        0 <= n <= s.len(),
        forall|k: int| 0 <= k < n ==> #[trigger] s[k] != '_',
        n == s.len() || s[n] == '_',
    ensures
        segment_len(s) == n,
    decreases n,
{
    if n > 0 {
        let t = s.skip(1);
        assert forall|k: int| 0 <= k < n - 1 implies #[trigger] t[k] != '_' by {
            assert(t[k] == s[k + 1]);
        }
        lemma_segment_len_is(t, n - 1);
    }
}

/// The first `segment_len(s)` characters of `s` are no underscores, and an
/// underscore follows them where the text goes on.
pub proof fn lemma_segment_run(s: Seq<char>)
    ensures
        forall|k: int| 0 <= k < segment_len(s) ==> #[trigger] s[k] != '_',
        segment_len(s) < s.len() ==> s[segment_len(s) as int] == '_',
    decreases s.len(),
{
    lemma_segment_len_bounds(s);
    if s.len() > 0 && s[0] != '_' {
        let t = s.skip(1);
        lemma_segment_run(t);
        assert forall|k: int| 0 <= k < segment_len(s) implies #[trigger] s[k] != '_' by {
            if k > 0 {
                assert(s[k] == t[k - 1]);
            }
        }
        if segment_len(s) < s.len() {
            assert(s[segment_len(s) as int] == t[segment_len(t) as int]);
        }
    }
}

/// No segment of a text holds an underscore.
pub proof fn lemma_segments_hold_no_underscore(s: Seq<char>)
    ensures
        forall|i: int| 0 <= i < segments(s).len() ==> has_no_underscore(#[trigger] segments(s)[i]),
    decreases s.len(),
{
    if s.len() > 0 {
        let n = segment_len(s) as int;
        lemma_segment_len_bounds(s);
        lemma_segment_run(s);
        let first = s.take(n);
        assert(has_no_underscore(first)) by {
            assert forall|k: int| 0 <= k < first.len() implies #[trigger] first[k] != '_' by {
                assert(first[k] == s[k]);
            }
        }
        if n == s.len() {
            assert(first =~= s);
        } else {
            let rest = segments(s.skip(n + 1));
            lemma_segments_hold_no_underscore(s.skip(n + 1));
            assert(segments(s) == seq![first] + rest);
            assert forall|i: int| 0 <= i < segments(s).len() implies has_no_underscore(
                #[trigger] segments(s)[i],
            ) by {
                if i > 0 {
                    assert(segments(s)[i] == rest[i - 1]);
                }
            }
        }
    }
}

/// The segments of a text, with an underscore between each two neighbours,
/// are the text again: but for one underscore at its very end, which closes
/// the last segment.
pub proof fn lemma_segments_rejoin(s: Seq<char>)
    ensures
        join(segments(s), '_') == (if s.len() > 0 && s.last() == '_' {
            s.drop_last()
        } else {
            s
        }),
    decreases s.len(),
{
    if s.len() > 0 {
        let n = segment_len(s) as int;
        lemma_segment_len_bounds(s);
        lemma_segment_run(s);
        if n == s.len() {
            assert(s.last() == s[n - 1]);
        } else {
            let first = s.take(n);
            let tail = s.skip(n + 1);
            let rest = segments(tail);
            let all = seq![first] + rest;
            lemma_segments_rejoin(tail);
            assert(all[0] == first);
            assert(all.skip(1) =~= rest);
            if tail.len() == 0 {
                assert(rest =~= Seq::<Seq<char>>::empty());
                assert(s.drop_last() =~= first);
            } else {
                assert(rest.len() > 0);
                assert(s.last() == tail.last());
                assert(join(all, '_') == first + seq!['_'] + join(rest, '_'));
                if tail.last() == '_' {
                    assert(first + seq!['_'] + tail.drop_last() =~= s.drop_last());
                } else {
                    assert(first + seq!['_'] + tail =~= s);
                }
            }
        }
    }
}

/// Words without underscores, one after the other, hold no underscore.
pub proof fn lemma_concat_holds_no_underscore(ws: Seq<Seq<char>>)
    requires
        forall|i: int| 0 <= i < ws.len() ==> has_no_underscore(#[trigger] ws[i]),
    ensures
        has_no_underscore(concat(ws)),
    decreases ws.len(),
{
    if ws.len() > 0 {
        let rest = ws.skip(1);
        assert forall|i: int| 0 <= i < rest.len() implies has_no_underscore(#[trigger] rest[i]) by {
            assert(rest[i] == ws[i + 1]);
        }
        lemma_concat_holds_no_underscore(rest);
        assert(has_no_underscore(ws[0]));
    }
}

/// The words of a type's name, one for each segment of the collection's
/// name and in the same order: the segment capitalized, and for the first
/// segment also in the singular. A word that is not empty begins with the
/// upper-case form of the segment's first character, which is no lower-case
/// letter.
pub proof fn lemma_type_words_follow_segments(collection: Seq<char>)
    ensures
        type_words(collection).len() == segments(collection).len(),
        forall|i: int|
            0 <= i < segments(collection).len() ==> #[trigger] type_words(collection)[i] == (if i
                == 0 {
                singular(capitalized(segments(collection)[i]))
            } else {
                capitalized(segments(collection)[i])
            }),
        forall|i: int|
            0 <= i < segments(collection).len() && (#[trigger] type_words(collection)[i]).len() > 0
                ==> {
                &&& type_words(collection)[i][0] == ascii_upper(segments(collection)[i][0])
                &&& !is_ascii_lower(type_words(collection)[i][0])
            },
{
}

/// The name of a type holds no underscore, whatever the collection's name.
pub proof fn lemma_doc_type_holds_no_underscore(collection: Seq<char>)
    ensures
        has_no_underscore(doc_type(collection)),
{
    lemma_segments_hold_no_underscore(collection);
    lemma_type_words_follow_segments(collection);
    let words = type_words(collection);
    assert forall|i: int| 0 <= i < words.len() implies has_no_underscore(#[trigger] words[i]) by {
        let segment = segments(collection)[i];
        assert(has_no_underscore(segment));
        let word = words[i];
        assert forall|k: int| 0 <= k < word.len() implies #[trigger] word[k] != '_' by {
            if k > 0 {
                assert(word[k] == segment[k]);
            } else {
                assert(word[0] == ascii_upper(segment[0]));
                assert(segment[0] != '_');
            }
        }
    }
    lemma_concat_holds_no_underscore(words);
}

/// The segments of `s`, each capitalized, one after the other.
pub open spec fn capitalized_segments(s: Seq<char>) -> Seq<char> {
    concat(segments(s).map_values(|w: Seq<char>| capitalized(w)))
}

/// What follows the first segment of `s` in a name built from it: the
/// capitalized segments behind the first underscore.
pub open spec fn after_first_segment(s: Seq<char>) -> Seq<char> {
    if segment_len(s) < s.len() {
        capitalized_segments(s.skip(segment_len(s) as int + 1))
    } else {
        Seq::empty()
    }
}

/// The capitalized segments of a text begin with its first segment,
/// capitalized.
pub proof fn lemma_capitalized_segments_unfold(s: Seq<char>)
    ensures
        capitalized_segments(s) == capitalized(s.take(segment_len(s) as int))
            + after_first_segment(s),
{
    let up = |w: Seq<char>| capitalized(w);
    let n = segment_len(s) as int;
    lemma_segment_len_bounds(s);
    if s.len() == 0 {
        assert(s.take(0) =~= s);
        assert(capitalized_segments(s) =~= capitalized(s) + Seq::<char>::empty());
    } else if n == s.len() {
        assert(s.take(n) =~= s);
        let words = seq![s].map_values(up);
        assert(words[0] == capitalized(s));
        assert(words.skip(1) =~= Seq::<Seq<char>>::empty());
        assert(concat(words.skip(1)) =~= Seq::<char>::empty());
        assert(concat(words) =~= capitalized(s) + Seq::<char>::empty());
    } else {
        let rest = segments(s.skip(n + 1));
        let words = (seq![s.take(n)] + rest).map_values(up);
        assert(words[0] == capitalized(s.take(n)));
        assert(words.skip(1) =~= rest.map_values(up));
    }
}

/// The name of a type begins with the first segment of the collection's
/// name, capitalized and in the singular.
pub proof fn lemma_doc_type_unfold(s: Seq<char>)
    requires
        s.len() > 0,
    ensures
        doc_type(s) == singular(capitalized(s.take(segment_len(s) as int))) + after_first_segment(
            s,
        ),
{
    let up = |w: Seq<char>| capitalized(w);
    let n = segment_len(s) as int;
    lemma_segment_len_bounds(s);
    if n == s.len() {
        assert(s.take(n) =~= s);
        let words = type_words(s);
        assert(words[0] == singular(capitalized(s)));
        assert(words.skip(1) =~= Seq::<Seq<char>>::empty());
        assert(concat(words.skip(1)) =~= Seq::<char>::empty());
        assert(concat(words) =~= singular(capitalized(s)) + Seq::<char>::empty());
    } else {
        let rest = segments(s.skip(n + 1));
        let words = type_words(s);
        assert(segments(s) == seq![s.take(n)] + rest);
        assert(words[0] == singular(capitalized(s.take(n))));
        assert(words.skip(1) =~= rest.map_values(up));
    }
}

/// Where the first segment ends: at the first underscore from `from` on, or
/// at the end of the text.
pub(crate) fn segment_end(chars: &Vec<char>, from: usize) -> (end: usize)
    requires
        from <= chars.len(),
    ensures
        from <= end <= chars.len(),
        end - from == segment_len(chars@.skip(from as int)),
        end < chars.len() ==> chars@[end as int] == '_',
{
    let n = chars.len();
    let mut end = from;
    while end < n && chars[end] != '_'
        invariant
            n == chars@.len(),
            from <= end <= n,
            forall|k: int| from <= k < end ==> #[trigger] chars@[k] != '_',
        decreases n - end,
    {
        end = end + 1;
    }
    proof {
        let tail = chars@.skip(from as int);
        assert forall|k: int| 0 <= k < end - from implies #[trigger] tail[k] != '_' by {
            assert(tail[k] == chars@[from + k]);
        }
        lemma_segment_len_is(tail, end - from);
    }
    end
}

/// Appends the characters from `from` up to `to`, the first of them in
/// upper case.
pub(crate) fn push_capitalized(out: &mut String, chars: &Vec<char>, from: usize, to: usize)
    requires
        from <= to <= chars.len(),
    ensures
        final(out)@ == old(out)@ + capitalized(chars@.subrange(from as int, to as int)),
{
    let ghost word = chars@.subrange(from as int, to as int);
    if from < to {
        out.push(char_ascii_upper(chars[from]));
        let mut i = from + 1;
        while i < to
            invariant
                from < i <= to <= chars@.len(),
                word == chars@.subrange(from as int, to as int),
                out@ == old(out)@ + capitalized(word).take(i - from),
            decreases to - i,
        {
            out.push(chars[i]);
            proof {
                assert(capitalized(word).take(i + 1 - from) =~= capitalized(word).take(i - from).push(
                    chars@[i as int],
                ));
            }
            i = i + 1;
        }
        proof {
            assert(capitalized(word).take(to - from) =~= capitalized(word));
        }
    } else {
        proof {
            assert(old(out)@ + capitalized(word) =~= old(out)@);
        }
    }
}

} // verus!
