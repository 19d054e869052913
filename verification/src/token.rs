//! Splitting a line into tokens: the maximal runs of characters that are
//! not ASCII blanks.

use vstd::prelude::*;

verus! {

/// Whether `c` is an ASCII blank: space, horizontal tab, line feed, form
/// feed or carriage return.
pub open spec fn is_blank(c: char) -> bool {
    c == ' ' || c == '\t' || c == '\n' || c == '\x0C' || c == '\r'
}

/// The length of the longest prefix of `s` that holds no blank.
pub open spec fn word_len(s: Seq<char>) -> nat
    decreases s.len(),
{
    if s.len() > 0 && !is_blank(s[0]) {
        1 + word_len(s.drop_first())
    } else {
        0
    }
}

/// The tokens of `s`, from left to right. Blanks separate tokens and
/// belong to none; any number of them may stand before, between and after
/// the tokens.
pub open spec fn tokens(s: Seq<char>) -> Seq<Seq<char>>
    decreases s.len(),
    via tokens_decreases
{
    if s.len() == 0 {
        Seq::empty()
    } else if is_blank(s[0]) {
        tokens(s.drop_first())
    } else {
        seq![s.take(word_len(s) as int)] + tokens(s.skip(word_len(s) as int))
    }
}

#[via_fn]
proof fn tokens_decreases(s: Seq<char>) {
    lemma_word_len_bounds(s);
}

/// A word is no longer than the text it begins, and not empty when the
/// text begins with a character that is no blank.
pub proof fn lemma_word_len_bounds(s: Seq<char>)
    ensures
        word_len(s) <= s.len(),
        s.len() > 0 && !is_blank(s[0]) ==> word_len(s) >= 1,
    decreases s.len(),
{
    if s.len() > 0 && !is_blank(s[0]) {
        lemma_word_len_bounds(s.drop_first());
    }
}

/// Whether `c` is an ASCII blank.
pub fn is_blank_char(c: char) -> (blank: bool)
    ensures
        blank == is_blank(c),
{
    c == ' ' || c == '\t' || c == '\n' || c == '\x0C' || c == '\r'
}

/// Finds the first token of `text` at or after position `from`, as the
/// half-open range of positions that it occupies.
pub fn next_token(text: &[char], from: usize) -> (found: Option<(usize, usize)>)
    requires
        from <= text.len(),
    ensures
        match found {
            None => tokens(text@.skip(from as int)).len() == 0,
            Some((start, end)) => {
                &&& from <= start < end <= text.len()
                &&& tokens(text@.skip(from as int)) == seq![
                    text@.subrange(start as int, end as int),
                ] + tokens(text@.skip(end as int))
            },
        },
{
    let n: usize = text.len();
    let mut start: usize = from;
    while start < n && is_blank_char(text[start])
        invariant
            from <= start <= n,
            n == text.len(),
            tokens(text@.skip(start as int)) == tokens(text@.skip(from as int)),
        decreases n - start,
    {
        assert(text@.skip(start as int).drop_first() =~= text@.skip(start + 1));
        start += 1;
    }
    if start == n {
        return None;
    }
    let ghost word = text@.skip(start as int);
    let mut end: usize = start + 1;
    assert(word.drop_first() =~= text@.skip(end as int));
    while end < n && !is_blank_char(text[end])
        invariant
            start < end <= n,
            n == text.len(),
            word == text@.skip(start as int),
            word_len(word) == (end - start) + word_len(text@.skip(end as int)),
        decreases n - end,
    {
        assert(text@.skip(end as int).drop_first() =~= text@.skip(end + 1));
        end += 1;
    }
    assert(word.take(end - start) =~= text@.subrange(start as int, end as int));
    assert(word.skip(end - start) =~= text@.skip(end as int));
    Some((start, end))
}

/// Whether `s` holds no blank.
pub open spec fn blank_free(s: Seq<char>) -> bool {
    forall|i: int| 0 <= i < s.len() ==> !is_blank(#[trigger] s[i])
}

/// A word ends at the first blank, or at the end of the text when there is
/// no blank.
pub proof fn lemma_word_ends_at_first_blank(s: Seq<char>)
    ensures
        blank_free(s.take(word_len(s) as int)),
        word_len(s) < s.len() ==> is_blank(s[word_len(s) as int]),
    decreases s.len(),
{
    lemma_word_len_bounds(s);
    if s.len() > 0 && !is_blank(s[0]) {
        let rest = s.drop_first();
        lemma_word_ends_at_first_blank(rest);
        lemma_word_len_bounds(rest);
        let word = s.take(word_len(s) as int);
        assert forall|i: int| 0 <= i < word.len() implies !is_blank(#[trigger] word[i]) by {
            if i > 0 {
                assert(word[i] == rest.take(word_len(rest) as int)[i - 1]);
            }
        }
    }
}

/// The word that begins a text without blanks is the whole text.
pub proof fn lemma_word_len_of_blank_free(s: Seq<char>)
    requires
        blank_free(s),
    ensures
        word_len(s) == s.len(),
    decreases s.len(),
{
    if s.len() > 0 {
        let rest = s.drop_first();
        lemma_word_len_of_blank_free(rest);
    }
}

/// Every token is a word: it is not empty and holds no blank.
pub proof fn lemma_tokens_are_words(s: Seq<char>, i: int)
    requires
        0 <= i < tokens(s).len(),
    ensures
        tokens(s)[i].len() > 0,
        blank_free(tokens(s)[i]),
    decreases s.len(),
{
    if s.len() == 0 {
    } else if is_blank(s[0]) {
        lemma_tokens_are_words(s.drop_first(), i);
    } else {
        lemma_word_len_bounds(s);
        lemma_word_ends_at_first_blank(s);
        if i > 0 {
            lemma_tokens_are_words(s.skip(word_len(s) as int), i - 1);
        }
    }
}

/// A text of blanks alone has no token, and only such a text has none.
pub proof fn lemma_no_token_iff_all_blank(s: Seq<char>)
    ensures
        tokens(s).len() == 0 <==> forall|i: int| 0 <= i < s.len() ==> is_blank(#[trigger] s[i]),
    decreases s.len(),
{
    if s.len() > 0 && is_blank(s[0]) {
        let rest = s.drop_first();
        lemma_no_token_iff_all_blank(rest);
        if tokens(s).len() == 0 {
            assert forall|i: int| 0 <= i < s.len() implies is_blank(#[trigger] s[i]) by {
                if i > 0 {
                    assert(s[i] == rest[i - 1]);
                }
            }
        }
    }
}

/// A text that is not empty and holds no blank is its own single token.
pub proof fn lemma_word_is_single_token(s: Seq<char>)
    requires
        s.len() > 0,
        blank_free(s),
    ensures
        tokens(s) == seq![s],
{
    lemma_word_len_of_blank_free(s);
    assert(s.take(s.len() as int) =~= s);
    assert(tokens(s.skip(s.len() as int)) =~= Seq::<Seq<char>>::empty());
}

/// A blank between two texts keeps their tokens apart: the tokens of the
/// whole are those of the left text followed by those of the right one.
pub proof fn lemma_tokens_across_blank(left: Seq<char>, blank: char, right: Seq<char>)
    requires
        is_blank(blank),
    ensures
        tokens(left.push(blank) + right) == tokens(left) + tokens(right),
    decreases left.len(),
{
    let whole = left.push(blank) + right;
    if left.len() == 0 {
        assert(whole.drop_first() =~= right);
    } else if is_blank(left[0]) {
        assert(whole.drop_first() =~= left.drop_first().push(blank) + right);
        lemma_tokens_across_blank(left.drop_first(), blank, right);
    } else {
        let w: int = word_len(left) as int;
        lemma_word_len_bounds(left);
        lemma_word_len_across_blank(left, blank, right);
        assert(whole.take(w) =~= left.take(w));
        assert(whole.skip(w) =~= left.skip(w).push(blank) + right);
        lemma_tokens_across_blank(left.skip(w), blank, right);
    }
}

/// A word never reaches across a blank.
proof fn lemma_word_len_across_blank(left: Seq<char>, blank: char, right: Seq<char>)
    requires
        is_blank(blank),
    ensures
        word_len(left.push(blank) + right) == word_len(left),
    decreases left.len(),
{
    let whole = left.push(blank) + right;
    if left.len() > 0 && !is_blank(left[0]) {
        assert(whole.drop_first() =~= left.drop_first().push(blank) + right);
        lemma_word_len_across_blank(left.drop_first(), blank, right);
    }
}

} // verus!
