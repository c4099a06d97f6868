//! What holds of every rule.

use super::matcher::Rule;
use super::wildcard::{
    lemma_tokenize_step, tokenize, tokens_accept, wildcard_accepts, within_segment, Token,
};
use crate::config::location::PatternType;
use vstd::prelude::*;

verus! {

/// The pattern holds no star.
pub open spec fn plain(pattern: Seq<char>) -> bool {
    forall|i: int| 0 <= i < pattern.len() ==> pattern[i] != '*'
}

/// A text rule matches its own pattern and nothing else, so it tells upper
/// case from lower case.
pub proof fn lemma_text_is_exact(rule: Rule, candidate: Seq<char>)
    requires
        rule.kind == PatternType::Text,
    ensures
        rule.accepts(rule.pattern),
        rule.accepts(candidate) ==> candidate == rule.pattern,
{
}

/// A wildcard pattern without a star matches its own text and nothing
/// else, whatever the separator.
pub proof fn lemma_plain_wildcard_is_exact(pattern: Seq<char>, text: Seq<char>, sep: char)
    requires
        plain(pattern),
    ensures
        wildcard_accepts(pattern, text, sep) == (text == pattern),
    decreases pattern.len(),
{
    if pattern.len() == 0 {
        assert(wildcard_accepts(pattern, text, sep) == (text =~= pattern));
    } else {
        let tokens = tokenize(pattern);
        let rest = pattern.skip(1);
        lemma_tokenize_step(pattern, 0);
        assert(tokens.skip(1) == tokenize(rest));
        assert forall|i: int| 0 <= i < rest.len() implies rest[i] != '*' by {
            assert(rest[i] == pattern[i + 1]);
        }
        if text.len() > 0 {
            lemma_plain_wildcard_is_exact(rest, text.skip(1), sep);
            if text[0] == pattern[0] && text.skip(1) == rest {
                assert forall|i: int| 0 <= i < text.len() implies text[i] == pattern[i] by {
                    if i > 0 {
                        assert(pattern[i] == rest[i - 1]);
                    }
                }
                assert(text =~= pattern);
            }
        }
    }
}

/// `*` alone matches exactly the texts that hold no separator: a single
/// star never reaches into the next segment.
pub proof fn lemma_star_stays_in_its_segment(text: Seq<char>, sep: char)
    ensures
        wildcard_accepts(seq!['*'], text, sep) == within_segment(text, sep),
{
    let pattern = seq!['*'];
    let tokens = tokenize(pattern);
    assert(tokenize(pattern.skip(1)) == Seq::<Token>::empty());
    let rest = tokens.skip(1);
    let n = text.len() as int;
    assert(text.take(n) == text);
    if within_segment(text, sep) {
        assert(tokens_accept(rest, text.skip(n), sep));
    }
    if tokens_accept(tokens, text, sep) {
        let k = choose|k: int|
            0 <= k <= text.len() && within_segment(text.take(k), sep) && tokens_accept(
                rest,
                #[trigger] text.skip(k),
                sep,
            );
        assert(text.skip(k).len() == 0);
        assert(k == n);
    }
}

/// `**` alone matches every text, separators or not.
pub proof fn lemma_double_star_matches_all(text: Seq<char>, sep: char)
    ensures
        wildcard_accepts(seq!['*', '*'], text, sep),
{
    let pattern = seq!['*', '*'];
    let tokens = tokenize(pattern);
    assert(tokenize(pattern.skip(2)) == Seq::<Token>::empty());
    let rest = tokens.skip(1);
    let n = text.len() as int;
    assert(tokens_accept(rest, text.skip(n), sep));
}

/// The text ends in `suffix`, and what stands before it is `k` characters
/// long.
pub open spec fn ends_at(text: Seq<char>, k: int, suffix: Seq<char>) -> bool {
    0 <= k <= text.len() && text.skip(k) == suffix
}

/// `*` before a plain rest, as in `*.example.com`, matches exactly the
/// texts that end in that rest and hold no separator before it: one more
/// segment, and no text that has only the rest's own segments.
pub proof fn lemma_leading_star(suffix: Seq<char>, text: Seq<char>, sep: char)
    requires
        plain(suffix),
    ensures
        wildcard_accepts(seq!['*'] + suffix, text, sep) <==> exists|k: int|
            #[trigger] ends_at(text, k, suffix) && within_segment(text.take(k), sep),
{
    let pattern = seq!['*'] + suffix;
    let tokens = tokenize(pattern);
    lemma_tokenize_step(pattern, 0);
    assert(pattern.skip(0) == pattern);
    assert(pattern.skip(1) == suffix);
    if suffix.len() > 0 {
        assert(pattern[1] == suffix[0]);
    }
    assert(tokens == seq![Token::Segment] + tokenize(suffix));
    let rest = tokens.skip(1);
    assert(rest == tokenize(suffix));
    if wildcard_accepts(pattern, text, sep) {
        let k = choose|k: int|
            0 <= k <= text.len() && within_segment(text.take(k), sep) && tokens_accept(
                rest,
                #[trigger] text.skip(k),
                sep,
            );
        lemma_plain_wildcard_is_exact(suffix, text.skip(k), sep);
        assert(ends_at(text, k, suffix));
    }
    if exists|k: int| #[trigger] ends_at(text, k, suffix) && within_segment(text.take(k), sep) {
        let k = choose|k: int|
            #[trigger] ends_at(text, k, suffix) && within_segment(text.take(k), sep);
        lemma_plain_wildcard_is_exact(suffix, text.skip(k), sep);
        assert(tokens_accept(rest, text.skip(k), sep));
    }
}

/// `**` before a plain rest, as in `**.example.com`, matches exactly the
/// texts that end in that rest, whatever stands before it.
pub proof fn lemma_leading_double_star(suffix: Seq<char>, text: Seq<char>, sep: char)
    requires
        plain(suffix),
    ensures
        wildcard_accepts(seq!['*', '*'] + suffix, text, sep) <==> exists|k: int|
            #[trigger] ends_at(text, k, suffix),
{
    let pattern = seq!['*', '*'] + suffix;
    let tokens = tokenize(pattern);
    lemma_tokenize_step(pattern, 0);
    assert(pattern.skip(0) == pattern);
    assert(pattern.skip(2) == suffix);
    assert(tokens == seq![Token::Span] + tokenize(suffix));
    let rest = tokens.skip(1);
    assert(rest == tokenize(suffix));
    if wildcard_accepts(pattern, text, sep) {
        let k = choose|k: int|
            0 <= k <= text.len() && tokens_accept(rest, #[trigger] text.skip(k), sep);
        lemma_plain_wildcard_is_exact(suffix, text.skip(k), sep);
        assert(ends_at(text, k, suffix));
    }
    if exists|k: int| #[trigger] ends_at(text, k, suffix) {
        let k = choose|k: int| #[trigger] ends_at(text, k, suffix);
        lemma_plain_wildcard_is_exact(suffix, text.skip(k), sep);
        assert(tokens_accept(rest, text.skip(k), sep));
    }
}

} // verus!
