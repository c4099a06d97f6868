//! Glob-style patterns.
//!
//! A pattern is read left to right into tokens. `**` is one token, which
//! stands for any run of characters. A single `*` is one token, which stands
//! for any run of characters that holds no separator, so it never leaves the
//! segment it starts in. Either run may be empty. Every other character
//! stands for itself; there is no escape, so a pattern cannot ask for a
//! literal `*`. Matching is case-sensitive and covers the whole text.

use vstd::prelude::*;

verus! {

/// One unit of a wildcard pattern.
#[derive(Debug, PartialEq, Eq, Clone, Copy, Structural)]
pub enum Token {
    /// Exactly this character.
    Literal(char),
    /// `*`: any run of characters other than the separator.
    Segment,
    /// `**`: any run of characters.
    Span,
}

/// The tokens of a pattern, in order. Stars pair up from the left, so
/// `***` reads as `**` followed by `*`.
pub open spec fn tokenize(pattern: Seq<char>) -> Seq<Token>
    decreases pattern.len(),
{
    if pattern.len() == 0 {
        Seq::empty()
    } else if pattern[0] != '*' {
        seq![Token::Literal(pattern[0])] + tokenize(pattern.skip(1))
    } else if pattern.len() >= 2 && pattern[1] == '*' {
        seq![Token::Span] + tokenize(pattern.skip(2))
    } else {
        seq![Token::Segment] + tokenize(pattern.skip(1))
    }
}

/// No character of `text` is the separator.
pub open spec fn within_segment(text: Seq<char>, sep: char) -> bool {
    forall|i: int| 0 <= i < text.len() ==> text[i] != sep
}

/// Whether `tokens` describe the whole of `text`: the text splits into
/// consecutive pieces, one per token, and each token admits its piece.
pub open spec fn tokens_accept(tokens: Seq<Token>, text: Seq<char>, sep: char) -> bool
    decreases tokens.len(),
{
    if tokens.len() == 0 {
        text.len() == 0
    } else {
        match tokens[0] {
            Token::Literal(c) => {
                &&& text.len() > 0
                &&& text[0] == c
                &&& tokens_accept(tokens.skip(1), text.skip(1), sep)
            },
            Token::Segment => exists|k: int|
                0 <= k <= text.len() && within_segment(text.take(k), sep) && tokens_accept(
                    tokens.skip(1),
                    #[trigger] text.skip(k),
                    sep,
                ),
            Token::Span => exists|k: int|
                0 <= k <= text.len() && tokens_accept(tokens.skip(1), #[trigger] text.skip(k), sep),
        }
    }
}

/// Whether the wildcard pattern describes the whole of `text`.
pub open spec fn wildcard_accepts(pattern: Seq<char>, text: Seq<char>, sep: char) -> bool {
    tokens_accept(tokenize(pattern), text, sep)
}

/// The token that starts at `pattern[i]`.
pub(crate) open spec fn token_at(pattern: Seq<char>, i: int) -> Token {
    if pattern[i] != '*' {
        Token::Literal(pattern[i])
    } else if i + 1 < pattern.len() && pattern[i + 1] == '*' {
        Token::Span
    } else {
        Token::Segment
    }
}

/// How many characters of the pattern a token takes up.
pub(crate) open spec fn token_width(token: Token) -> int {
    match token {
        Token::Span => 2,
        _ => 1,
    }
}

pub(crate) proof fn lemma_tokenize_step(pattern: Seq<char>, i: int)
    requires
        0 <= i < pattern.len(),
    ensures
        i + token_width(token_at(pattern, i)) <= pattern.len(),
        tokenize(pattern.skip(i)) == seq![token_at(pattern, i)] + tokenize(
            pattern.skip(i + token_width(token_at(pattern, i))),
        ),
{
    let rest = pattern.skip(i);
    let width = token_width(token_at(pattern, i));
    assert(rest.skip(width) == pattern.skip(i + width));
}

fn read_token(pattern: &Vec<char>, i: usize) -> (token: Token)
    requires
        i < pattern.len(),
    ensures
        token == token_at(pattern@, i as int),
{
    let c = pattern[i];
    if c != '*' {
        Token::Literal(c)
    } else if pattern.len() - i >= 2 && pattern[i + 1] == '*' {
        Token::Span
    } else {
        Token::Segment
    }
}

/// Reads a pattern into its tokens.
pub fn parse_tokens(pattern: &Vec<char>) -> (tokens: Vec<Token>)
    ensures
        tokens@ == tokenize(pattern@),
{
    let n = pattern.len();
    let mut tokens: Vec<Token> = Vec::new();
    let mut i: usize = 0;
    assert(pattern@.skip(0) == pattern@);
    while i < n
        invariant
            n == pattern.len(),
            i <= n,
            tokenize(pattern@) == tokens@ + tokenize(pattern@.skip(i as int)),
        decreases n - i,
    {
        let token = read_token(pattern, i);
        proof {
            lemma_tokenize_step(pattern@, i as int);
        }
        tokens.push(token);
        match token {
            Token::Span => {
                i = i + 2;
            },
            _ => {
                i = i + 1;
            },
        }
    }
    tokens
}

/// Whether the tokens from index `i` on describe the whole of the text from
/// index `j` on.
spec fn accepts_from(tokens: Seq<Token>, i: int, text: Seq<char>, j: int, sep: char) -> bool {
    tokens_accept(tokens.skip(i), text.skip(j), sep)
}

proof fn lemma_accepts_from_end(tokens: Seq<Token>, text: Seq<char>, j: int, sep: char)
    requires
        0 <= j <= text.len(),
    ensures
        accepts_from(tokens, tokens.len() as int, text, j, sep) == (j == text.len()),
{
}

proof fn lemma_accepts_from_literal(tokens: Seq<Token>, i: int, text: Seq<char>, j: int, sep: char)
    requires
        0 <= i < tokens.len(),
        tokens[i] is Literal,
        0 <= j <= text.len(),
    ensures
        accepts_from(tokens, i, text, j, sep) == (j < text.len() && text[j] == tokens[i]->Literal_0
            && accepts_from(tokens, i + 1, text, j + 1, sep)),
{
    assert(tokens.skip(i).skip(1) == tokens.skip(i + 1));
    if j < text.len() {
        assert(text.skip(j).skip(1) == text.skip(j + 1));
    }
}

proof fn lemma_accepts_from_span(tokens: Seq<Token>, i: int, text: Seq<char>, j: int, sep: char)
    requires
        0 <= i < tokens.len(),
        tokens[i] is Span,
        0 <= j <= text.len(),
    ensures
        accepts_from(tokens, i, text, j, sep) == (accepts_from(tokens, i + 1, text, j, sep) || (j
            < text.len() && accepts_from(tokens, i, text, j + 1, sep))),
{
    let head = tokens.skip(i);
    let rest = head.skip(1);
    let here = text.skip(j);
    assert(rest == tokens.skip(i + 1));
    assert(here.skip(0) == here);
    if accepts_from(tokens, i, text, j, sep) {
        let k = choose|k: int|
            0 <= k <= here.len() && tokens_accept(rest, #[trigger] here.skip(k), sep);
        if k > 0 {
            let next = text.skip(j + 1);
            assert(next.skip(k - 1) == here.skip(k));
        }
    }
    if j < text.len() && accepts_from(tokens, i, text, j + 1, sep) {
        let next = text.skip(j + 1);
        let k = choose|k: int|
            0 <= k <= next.len() && tokens_accept(rest, #[trigger] next.skip(k), sep);
        assert(here.skip(k + 1) == next.skip(k));
    }
}

proof fn lemma_accepts_from_segment(tokens: Seq<Token>, i: int, text: Seq<char>, j: int, sep: char)
    requires
        0 <= i < tokens.len(),
        tokens[i] is Segment,
        0 <= j <= text.len(),
    ensures
        accepts_from(tokens, i, text, j, sep) == (accepts_from(tokens, i + 1, text, j, sep) || (j
            < text.len() && text[j] != sep && accepts_from(tokens, i, text, j + 1, sep))),
{
    let head = tokens.skip(i);
    let rest = head.skip(1);
    let here = text.skip(j);
    assert(rest == tokens.skip(i + 1));
    assert(here.skip(0) == here);
    if accepts_from(tokens, i, text, j, sep) {
        let k = choose|k: int|
            0 <= k <= here.len() && within_segment(here.take(k), sep) && tokens_accept(
                rest,
                #[trigger] here.skip(k),
                sep,
            );
        if k > 0 {
            let next = text.skip(j + 1);
            assert(next.skip(k - 1) == here.skip(k));
            let piece = next.take(k - 1);
            assert forall|t: int| 0 <= t < piece.len() implies #[trigger] piece[t] != sep by {
                assert(piece[t] == here.take(k)[t + 1]);
            }
        }
    }
    if j < text.len() && text[j] != sep && accepts_from(tokens, i, text, j + 1, sep) {
        let next = text.skip(j + 1);
        let k = choose|k: int|
            0 <= k <= next.len() && within_segment(next.take(k), sep) && tokens_accept(
                rest,
                #[trigger] next.skip(k),
                sep,
            );
        assert(here.skip(k + 1) == next.skip(k));
        let piece = here.take(k + 1);
        assert forall|t: int| 0 <= t < piece.len() implies #[trigger] piece[t] != sep by {
            if t > 0 {
                assert(piece[t] == next.take(k)[t - 1]);
            }
        }
    }
}

/// `row` and `tail` hold, for the tokens from index `i` on, the answer for
/// every suffix of the text: `row[j]` for the suffix that starts at `j`, and
/// `tail` for the empty suffix.
spec fn row_describes(
    row: Seq<bool>,
    tail: bool,
    tokens: Seq<Token>,
    i: int,
    text: Seq<char>,
    sep: char,
) -> bool {
    &&& row.len() == text.len()
    &&& forall|j: int| 0 <= j < text.len() ==> row[j] == accepts_from(tokens, i, text, j, sep)
    &&& tail == accepts_from(tokens, i, text, text.len() as int, sep)
}

/// Moves the row one token to the left over a literal.
fn step_literal(
    row: &mut Vec<bool>,
    tail: bool,
    c: char,
    text: &Vec<char>,
    Ghost(tokens): Ghost<Seq<Token>>,
    Ghost(i): Ghost<int>,
    Ghost(sep): Ghost<char>,
)
    requires
        0 <= i < tokens.len(),
        tokens[i] == Token::Literal(c),
        row_describes(old(row)@, tail, tokens, i + 1, text@, sep),
    ensures
        row_describes(final(row)@, false, tokens, i, text@, sep),
{
    let n = text.len();
    let mut j: usize = 0;
    while j < n
        invariant
            n == text.len(),
            row.len() == n,
            j <= n,
            0 <= i < tokens.len(),
            tokens[i] == Token::Literal(c),
            tail == accepts_from(tokens, i + 1, text@, n as int, sep),
            forall|k: int| 0 <= k < j ==> row[k] == accepts_from(tokens, i, text@, k, sep),
            forall|k: int| j <= k < n ==> row[k] == accepts_from(tokens, i + 1, text@, k, sep),
        decreases n - j,
    {
        let next = if j + 1 < n {
            row[j + 1]
        } else {
            tail
        };
        proof {
            lemma_accepts_from_literal(tokens, i, text@, j as int, sep);
        }
        row.set(j, text[j] == c && next);
        j = j + 1;
    }
    proof {
        lemma_accepts_from_literal(tokens, i, text@, n as int, sep);
    }
}

/// Moves the row one token to the left over a wildcard. `bounded` says
/// whether the wildcard stops at the separator.
fn step_wildcard(
    row: &mut Vec<bool>,
    tail: bool,
    bounded: bool,
    sep: char,
    text: &Vec<char>,
    Ghost(tokens): Ghost<Seq<Token>>,
    Ghost(i): Ghost<int>,
)
    requires
        0 <= i < tokens.len(),
        tokens[i] == (if bounded {
            Token::Segment
        } else {
            Token::Span
        }),
        row_describes(old(row)@, tail, tokens, i + 1, text@, sep),
    ensures
        row_describes(final(row)@, tail, tokens, i, text@, sep),
{
    let n = text.len();
    let mut j: usize = n;
    let mut after: bool = tail;
    proof {
        if bounded {
            lemma_accepts_from_segment(tokens, i, text@, n as int, sep);
        } else {
            lemma_accepts_from_span(tokens, i, text@, n as int, sep);
        }
    }
    while j > 0
        invariant
            n == text.len(),
            row.len() == n,
            j <= n,
            0 <= i < tokens.len(),
            tokens[i] == (if bounded {
                Token::Segment
            } else {
                Token::Span
            }),
            after == accepts_from(tokens, i, text@, j as int, sep),
            forall|k: int| 0 <= k < j ==> row[k] == accepts_from(tokens, i + 1, text@, k, sep),
            forall|k: int| j <= k < n ==> row[k] == accepts_from(tokens, i, text@, k, sep),
        decreases j,
    {
        j = j - 1;
        proof {
            if bounded {
                lemma_accepts_from_segment(tokens, i, text@, j as int, sep);
            } else {
                lemma_accepts_from_span(tokens, i, text@, j as int, sep);
            }
        }
        let open = !bounded || text[j] != sep;
        after = row[j] || (open && after);
        row.set(j, after);
    }
}

/// Decides whether the tokens describe the whole of `text`, in time
/// proportional to the number of tokens times the length of the text.
pub fn tokens_match(tokens: &Vec<Token>, text: &Vec<char>, sep: char) -> (accepted: bool)
    ensures
        accepted == tokens_accept(tokens@, text@, sep),
{
    let n = text.len();
    let mut row: Vec<bool> = Vec::new();
    let mut j: usize = 0;
    while j < n
        invariant
            n == text.len(),
            j <= n,
            row.len() == j,
            forall|k: int| 0 <= k < j ==> !row[k],
        decreases n - j,
    {
        row.push(false);
        j = j + 1;
    }
    let mut tail = true;
    let mut i: usize = tokens.len();
    proof {
        assert forall|k: int| 0 <= k <= n implies accepts_from(
            tokens@,
            tokens.len() as int,
            text@,
            k,
            sep,
        ) == (k == n) by {
            lemma_accepts_from_end(tokens@, text@, k, sep);
        }
    }
    while i > 0
        invariant
            i <= tokens.len(),
            row_describes(row@, tail, tokens@, i as int, text@, sep),
        decreases i,
    {
        i = i - 1;
        match tokens[i] {
            Token::Literal(c) => {
                step_literal(&mut row, tail, c, text, Ghost(tokens@), Ghost(i as int), Ghost(sep));
                tail = false;
            },
            Token::Segment => {
                step_wildcard(&mut row, tail, true, sep, text, Ghost(tokens@), Ghost(i as int));
            },
            Token::Span => {
                step_wildcard(&mut row, tail, false, sep, text, Ghost(tokens@), Ghost(i as int));
            },
        }
    }
    proof {
        assert(tokens@.skip(0) == tokens@);
        assert(text@.skip(0) == text@);
    }
    if n == 0 {
        tail
    } else {
        row[0]
    }
}

} // verus!
