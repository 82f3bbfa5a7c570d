//! Text primitives: lowercasing, substring containment and splitting into words.

use vstd::prelude::*;
use vstd::std_specs::iter::IteratorSpec;

verus! {

/// The lowercase form of a text, as Unicode defines it.
pub uninterp spec fn lowercase_of(text: Seq<char>) -> Seq<char>;

/// Whether a character is white space: one of the twenty-five characters that
/// have the Unicode property `White_Space`.
pub open spec fn is_white_space(c: char) -> bool {
    let code = c as u32;
    ||| 0x0009 <= code <= 0x000D
    ||| code == 0x0020
    ||| code == 0x0085
    ||| code == 0x00A0
    ||| code == 0x1680
    ||| 0x2000 <= code <= 0x200A
    ||| code == 0x2028
    ||| code == 0x2029
    ||| code == 0x202F
    ||| code == 0x205F
    ||| code == 0x3000
}

/// `needle` stands in `text`, starting at position `at`.
pub open spec fn occurs_at(needle: Seq<char>, text: Seq<char>, at: int) -> bool {
    &&& 0 <= at
    &&& at + needle.len() <= text.len()
    &&& text.subrange(at, at + needle.len()) == needle
}

/// `needle` stands somewhere in `text`.
pub open spec fn is_substring(needle: Seq<char>, text: Seq<char>) -> bool {
    exists|at: int| occurs_at(needle, text, at)
}

/// The words of a text: its maximal runs of characters that are not white
/// space, from left to right.
///
/// Defined by the last character: white space adds nothing, a character that
/// follows another word character lengthens the last word, and any other
/// character opens a new word.
pub open spec fn words(text: Seq<char>) -> Seq<Seq<char>>
    decreases text.len(),
{
    if text.len() == 0 {
        Seq::empty()
    } else {
        let before = words(text.drop_last());
        let c = text.last();
        if is_white_space(c) {
            before
        } else if text.len() >= 2 && !is_white_space(text[text.len() - 2]) {
            before.drop_last().push(before.last().push(c))
        } else {
            before.push(seq![c])
        }
    }
}

/// Calls `str::to_lowercase`. The result is the text's lowercase form; the
/// standard library computes it from the Unicode tables, and nothing is
/// claimed of the tables here.
#[verifier::external_body]
pub(crate) fn to_lowercase(text: &str) -> (lowered: String)
    ensures
        lowered@ == lowercase_of(text@),
{
    text.to_lowercase()
}

/// Calls `str::contains` with a string slice as the pattern. The result says
/// whether `needle` is a substring of `text`.
#[verifier::external_body]
pub(crate) fn contains(text: &str, needle: &str) -> (found: bool)
    ensures
        found == is_substring(needle@, text@),
{
    text.contains(needle)
}

/// Tells whether a character is white space.
pub fn is_whitespace(c: char) -> (white: bool)
    ensures
        white == is_white_space(c),
{
    let code = c as u32;
    (0x0009 <= code && code <= 0x000D) || code == 0x0020 || code == 0x0085 || code == 0x00A0
        || code == 0x1680 || (0x2000 <= code && code <= 0x200A) || code == 0x2028 || code == 0x2029
        || code == 0x202F || code == 0x205F || code == 0x3000
}

/// Splits a text into its words.
pub fn split_words<'a>(text: &'a str) -> (parts: Vec<&'a str>)
    ensures
        parts.deep_view() == words(text@),
        parts.len() == words(text@).len(),
        forall|k: int| 0 <= k < parts.len() ==> (#[trigger] parts[k])@ == words(text@)[k],
{
    let n = text.unicode_len();
    let mut parts: Vec<&'a str> = Vec::new();
    let mut in_word = false;
    let mut start: usize = 0;
    let mut i: usize = 0;
    let mut rest = text.chars();
    loop
        invariant
            n == text@.len(),
            i <= n,
            rest.remaining() == text@.skip(i as int),
            in_word ==> start < i && !is_white_space(text@[i - 1]) && words(text@.take(i as int))
                == parts.deep_view().push(text@.subrange(start as int, i as int)),
            !in_word ==> (i == 0 || is_white_space(text@[i - 1])) && words(text@.take(i as int))
                == parts.deep_view(),
        ensures
            i == n,
        decreases n - i,
    {
        let ghost before = rest.remaining();
        let next = rest.next();
        if next.is_none() {
            break;
        }
        let c = next.unwrap();
        proof {
            assert(before.len() > 0);
            assert(c == text@[i as int]);
            assert(before.drop_first() == text@.skip(i as int + 1));
            let upto = text@.take(i as int + 1);
            assert(upto.drop_last() == text@.take(i as int));
            assert(upto.last() == c);
            if i > 0 {
                assert(upto[upto.len() - 2] == text@[i - 1]);
            }
            if in_word && !is_white_space(c) {
                let word = text@.subrange(start as int, i as int);
                assert(parts.deep_view().push(word).drop_last() == parts.deep_view());
                assert(word.push(c) == text@.subrange(start as int, i as int + 1));
            }
            if !in_word && !is_white_space(c) {
                assert(seq![c] == text@.subrange(i as int, i as int + 1));
            }
        }
        if is_whitespace(c) {
            if in_word {
                let word = text.substring_char(start, i);
                parts.push(word);
                in_word = false;
            }
        } else if !in_word {
            start = i;
            in_word = true;
        }
        i += 1;
    }
    if in_word {
        let word = text.substring_char(start, n);
        parts.push(word);
    }
    assert(text@.take(n as int) == text@);
    assert forall|k: int| 0 <= k < parts.len() implies (#[trigger] parts[k])@ == words(text@)[k] by {
        assert(parts.deep_view()[k] == parts[k]@);
    }
    parts
}

/// The empty text is a substring of every text.
pub proof fn empty_is_substring(text: Seq<char>)
    ensures
        is_substring(Seq::empty(), text),
{
    assert(text.subrange(0, 0) == Seq::<char>::empty());
    assert(occurs_at(Seq::empty(), text, 0));
}

/// A word is never empty and holds no white space.
pub proof fn words_hold_no_white_space(text: Seq<char>, w: int, at: int)
    requires
        0 <= w < words(text).len(),
    ensures
        words(text)[w].len() > 0,
        0 <= at < words(text)[w].len() ==> !is_white_space(words(text)[w][at]),
    decreases text.len(),
{
    if text.len() > 0 {
        let before = words(text.drop_last());
        if is_white_space(text.last()) {
            words_hold_no_white_space(text.drop_last(), w, at);
        } else if text.len() >= 2 && !is_white_space(text[text.len() - 2]) {
            lemma_words_end_in_word(text.drop_last());
            words_hold_no_white_space(text.drop_last(), w, at);
        } else if w < before.len() {
            words_hold_no_white_space(text.drop_last(), w, at);
        }
    }
}

/// White space alone holds no word.
pub proof fn words_of_white_space(text: Seq<char>)
    requires
        forall|k: int| 0 <= k < text.len() ==> is_white_space(#[trigger] text[k]),
    ensures
        words(text) == Seq::<Seq<char>>::empty(),
    decreases text.len(),
{
    if text.len() > 0 {
        words_of_white_space(text.drop_last());
    }
}

/// A text without white space is its own single word, unless it is empty.
pub proof fn words_of_word(text: Seq<char>)
    requires
        text.len() > 0,
        forall|k: int| 0 <= k < text.len() ==> !is_white_space(#[trigger] text[k]),
    ensures
        words(text) == seq![text],
    decreases text.len(),
{
    if text.len() == 1 {
        assert(words(text.drop_last()) == Seq::<Seq<char>>::empty());
        assert(seq![text.last()] == text);
    } else {
        words_of_word(text.drop_last());
        assert(text.drop_last().push(text.last()) == text);
        assert(seq![text.drop_last()].drop_last().push(text) == seq![text]);
    }
}

/// Where two texts meet at white space, or one of them is empty, the words of
/// the joined text are the words of the first, then those of the second.
pub proof fn words_of_joined(left: Seq<char>, right: Seq<char>)
    requires
        left.len() == 0 || right.len() == 0 || is_white_space(left.last()) || is_white_space(
            right[0],
        ),
    ensures
        words(left + right) == words(left) + words(right),
    decreases right.len(),
{
    let joined = left + right;
    if right.len() == 0 {
        assert(joined == left);
        assert(words(left) + words(right) == words(left));
    } else {
        let c = right.last();
        assert(joined.drop_last() == left + right.drop_last());
        assert(joined.last() == c);
        words_of_joined(left, right.drop_last());
        let before = words(right.drop_last());
        if is_white_space(c) {
        } else if right.len() >= 2 && !is_white_space(right[right.len() - 2]) {
            assert(joined[joined.len() - 2] == right[right.len() - 2]);
            lemma_words_end_in_word(right.drop_last());
            assert((words(left) + before).drop_last() == words(left) + before.drop_last());
            assert((words(left) + before.drop_last()).push(before.last().push(c)) == words(left)
                + before.drop_last().push(before.last().push(c)));
        } else {
            if right.len() >= 2 {
                assert(joined[joined.len() - 2] == right[right.len() - 2]);
            } else if left.len() > 0 {
                assert(joined[joined.len() - 2] == left.last());
            }
            assert((words(left) + before).push(seq![c]) == words(left) + before.push(seq![c]));
        }
    }
}

/// A text that ends in a word character has at least one word.
proof fn lemma_words_end_in_word(text: Seq<char>)
    requires
        text.len() > 0,
        !is_white_space(text.last()),
    ensures
        words(text).len() > 0,
    decreases text.len(),
{
    if text.len() >= 2 && !is_white_space(text[text.len() - 2]) {
        lemma_words_end_in_word(text.drop_last());
    }
}

} // verus!
