//! Splitting a command line into its whitespace-separated words.

use vstd::prelude::*;
use crate::text::texts;
use crate::text::lemma_texts_push;
use crate::text::lemma_texts_empty;

verus! {

/// Whether `c` is a white-space character (the Unicode property `White_Space`).
pub open spec fn is_space(c: char) -> bool {
    let n = c as u32;
    ||| 0x09 <= n <= 0x0D
    ||| n == 0x20
    ||| n == 0x85
    ||| n == 0xA0
    ||| n == 0x1680
    ||| 0x2000 <= n <= 0x200A
    ||| n == 0x2028
    ||| n == 0x2029
    ||| n == 0x202F
    ||| n == 0x205F
    ||| n == 0x3000
}

/// Tells whether `c` separates words.
pub fn is_whitespace(c: char) -> (space: bool)
    ensures
        space == is_space(c),
{
    let n: u32 = c as u32;
    (0x09 <= n && n <= 0x0D) || n == 0x20 || n == 0x85 || n == 0xA0 || n == 0x1680 || (0x2000 <= n
        && n <= 0x200A) || n == 0x2028 || n == 0x2029 || n == 0x202F || n == 0x205F || n == 0x3000
}

/// The characters of `text`, in order.
pub fn characters(text: &str) -> (chars: Vec<char>)
    ensures
        chars@ == text@,
{
    let mut chars: Vec<char> = Vec::new();
    for c in it: text.chars()
        invariant
            it.seq() == text@,
            chars@ == it.seq().take(it.index()),
    {
        chars.push(c);
    }
    assert(text@.take(text@.len() as int) == text@);
    chars
}

/// How many characters stand at the start of `s` before the first white space.
pub open spec fn leading_word(s: Seq<char>) -> nat
    decreases s.len(),
{
    if s.len() > 0 && !is_space(s[0]) {
        1 + leading_word(s.drop_first())
    } else {
        0
    }
}

/// The leading word is never longer than the text.
pub proof fn lemma_leading_word_bound(s: Seq<char>)
    ensures
        leading_word(s) <= s.len(),
    decreases s.len(),
{
    if s.len() > 0 && !is_space(s[0]) {
        lemma_leading_word_bound(s.drop_first());
    }
}

/// The words of `s`: its maximal runs of characters that are not white space,
/// in the order in which they stand in `s`.
pub open spec fn split_words(s: Seq<char>) -> Seq<Seq<char>>
    decreases s.len(),
{
    if s.len() == 0 {
        Seq::empty()
    } else if is_space(s[0]) {
        split_words(s.drop_first())
    } else {
        let n = leading_word(s);
        if n <= s.len() {
            seq![s.take(n as int)] + split_words(s.skip(n as int))
        } else {
            Seq::empty()
        }
    }
}

/// No character of the leading word is white space.
pub proof fn lemma_leading_word_has_no_space(s: Seq<char>)
    ensures
        forall|k: int| 0 <= k < leading_word(s) ==> !is_space(#[trigger] s[k]),
    decreases s.len(),
{
    if s.len() > 0 && !is_space(s[0]) {
        let rest = s.drop_first();
        lemma_leading_word_has_no_space(rest);
        lemma_leading_word_bound(s);
        assert forall|k: int| 0 <= k < leading_word(s) implies !is_space(#[trigger] s[k]) by {
            if k > 0 {
                assert(s[k] == rest[k - 1]);
            }
        }
    }
}

/// Whether `word` holds at least one character, and none that is white space.
pub open spec fn is_word(word: Seq<char>) -> bool {
    word.len() > 0 && forall|k: int| 0 <= k < word.len() ==> !is_space(#[trigger] word[k])
}

/// Every word that splitting gives holds at least one character, and none
/// that is white space.
pub proof fn lemma_words_hold_no_space(s: Seq<char>)
    ensures
        forall|i: int| 0 <= i < split_words(s).len() ==> is_word(#[trigger] split_words(s)[i]),
    decreases s.len(),
{
    let words = split_words(s);
    if s.len() == 0 {
    } else if is_space(s[0]) {
        lemma_words_hold_no_space(s.drop_first());
        assert(words == split_words(s.drop_first()));
    } else {
        let n = leading_word(s);
        lemma_leading_word_bound(s);
        lemma_leading_word_has_no_space(s);
        let first = s.take(n as int);
        let rest = split_words(s.skip(n as int));
        lemma_words_hold_no_space(s.skip(n as int));
        assert(words == seq![first] + rest);
        assert(is_word(first)) by {
            assert forall|k: int| 0 <= k < first.len() implies !is_space(#[trigger] first[k]) by {
                assert(first[k] == s[k]);
            }
        }
        assert forall|i: int| 0 <= i < words.len() implies is_word(#[trigger] words[i]) by {
            if i > 0 {
                assert(words[i] == rest[i - 1]);
            } else {
                assert(words[0] == first);
            }
        }
    }
}

/// Text that is white space throughout, or empty, has no words.
pub proof fn lemma_blank_has_no_words(s: Seq<char>)
    requires
        forall|k: int| 0 <= k < s.len() ==> is_space(#[trigger] s[k]),
    ensures
        split_words(s) == Seq::<Seq<char>>::empty(),
    decreases s.len(),
{
    if s.len() > 0 {
        let rest = s.drop_first();
        assert forall|k: int| 0 <= k < rest.len() implies is_space(#[trigger] rest[k]) by {
            assert(rest[k] == s[k + 1]);
        }
        lemma_blank_has_no_words(rest);
    }
}

/// Text without white space is one word: itself.
pub proof fn lemma_plain_text_is_one_word(s: Seq<char>)
    requires
        s.len() > 0,
        forall|k: int| 0 <= k < s.len() ==> !is_space(#[trigger] s[k]),
    ensures
        split_words(s) == seq![s],
{
    lemma_plain_text_is_its_leading_word(s);
    assert(s.take(s.len() as int) =~= s);
    assert(s.skip(s.len() as int) =~= Seq::<char>::empty());
    assert(split_words(Seq::<char>::empty()) =~= Seq::<Seq<char>>::empty());
    assert(split_words(s) =~= seq![s] + split_words(s.skip(s.len() as int)));
}

proof fn lemma_plain_text_is_its_leading_word(s: Seq<char>)
    requires
        forall|k: int| 0 <= k < s.len() ==> !is_space(#[trigger] s[k]),
    ensures
        leading_word(s) == s.len(),
    decreases s.len(),
{
    if s.len() > 0 {
        let rest = s.drop_first();
        assert forall|k: int| 0 <= k < rest.len() implies !is_space(#[trigger] rest[k]) by {
            assert(rest[k] == s[k + 1]);
        }
        lemma_plain_text_is_its_leading_word(rest);
    }
}

proof fn lemma_skip_step(s: Seq<char>, i: int)
    requires
        0 <= i < s.len(),
    ensures
        s.skip(i).len() > 0,
        s.skip(i)[0] == s[i],
        s.skip(i).drop_first() == s.skip(i + 1),
{
    assert(s.skip(i).drop_first() =~= s.skip(i + 1));
}

/// Splits `text` on white space into its words. Leading, trailing and repeated
/// white space gives no empty word.
pub fn split_whitespace(text: &str) -> (words: Vec<String>)
    ensures
        texts(words@) == split_words(text@),
{
    let chars = characters(text);
    let n = chars.len();
    let mut words: Vec<String> = Vec::new();
    let mut i: usize = 0;
    proof {
        lemma_texts_empty();
        assert(text@.skip(0) =~= text@);
    }
    while i < n
        invariant
            chars@ == text@,
            n == chars.len(),
            i <= n,
            split_words(text@) == texts(words@) + split_words(text@.skip(i as int)),
        decreases n - i,
    {
        proof {
            lemma_skip_step(text@, i as int);
        }
        if is_whitespace(chars[i]) {
            i += 1;
        } else {
            let start = i;
            let mut end = i + 1;
            proof {
                lemma_skip_step(text@, start as int);
            }
            while end < n && !is_whitespace(chars[end])
                invariant
                    chars@ == text@,
                    n == chars.len(),
                    start < end <= n,
                    leading_word(text@.skip(start as int)) == (end - start) + leading_word(
                        text@.skip(end as int),
                    ),
                decreases n - end,
            {
                proof {
                    lemma_skip_step(text@, end as int);
                }
                end += 1;
            }
            proof {
                if end < n {
                    lemma_skip_step(text@, end as int);
                }
                let rest = text@.skip(start as int);
                assert(leading_word(text@.skip(end as int)) == 0);
                assert(rest.take(end - start) =~= text@.subrange(start as int, end as int));
                assert(rest.skip(end - start) =~= text@.skip(end as int));
            }
            let word = text.substring_char(start, end).to_string();
            proof {
                lemma_texts_push(words@, word);
                assert(texts(words@).push(word@) + split_words(text@.skip(end as int)) =~= texts(
                    words@,
                ) + (seq![word@] + split_words(text@.skip(end as int))));
            }
            words.push(word);
            i = end;
        }
    }
    words
}

} // verus!
