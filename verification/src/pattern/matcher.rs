//! A rule, made ready once and then held against any number of candidates.

use super::engine::{regex_compiled, regex_is_match, regex_language, regex_new};
use super::wildcard::{parse_tokens, tokenize, tokens_match, wildcard_accepts, Token};
use crate::config::location::PatternType;
use crate::error::{DakiaError, ErrorSource, ErrorType, ErrorView};
use crate::text::{chars_equal, chars_of};
use vstd::prelude::*;
use vstd::string::StringExecFns;

verus! {

/// What a rule is held against. It decides where the segments of a
/// wildcard pattern end.
#[derive(Clone, Copy, Debug, PartialEq, Eq, Structural)]
pub enum Subject {
    /// A host name; its segments are divided by `.`.
    Host,
    /// A request path; its segments are divided by `/`.
    Path,
}

impl Subject {
    /// The character that divides the segments of this subject.
    pub open spec fn spec_separator(self) -> char {
        match self {
            Subject::Host => '.',
            Subject::Path => '/',
        }
    }

    /// The character that divides the segments of this subject.
    #[verifier::when_used_as_spec(spec_separator)]
    pub fn separator(self) -> (sep: char)
        ensures
            sep == self.spec_separator(),
    {
        match self {
            Subject::Host => '.',
            Subject::Path => '/',
        }
    }
}

/// A regular expression that matches only where `pattern` matches from the
/// first character of a text to its last.
pub open spec fn anchored_text(pattern: Seq<char>) -> Seq<char> {
    "\\A(?:"@ + pattern + ")\\z"@
}

/// As [`anchored_text`], with a line break before the closing bracket. A
/// pattern in verbose mode may end in a comment, which runs to the end of
/// its line and would take the closing bracket with it; the line break
/// ends the comment, and verbose mode makes nothing else of it.
pub open spec fn anchored_text_on_new_line(pattern: Seq<char>) -> Seq<char> {
    "\\A(?:"@ + pattern + "\n)\\z"@
}

/// The regular expression that a regex rule is matched with: the pattern
/// inside anchors, closed on the same line where the engine takes that, and
/// on a new line otherwise.
pub open spec fn whole_text_form(pattern: Seq<char>) -> Seq<char> {
    if regex_compiled(anchored_text(pattern)) is Some {
        anchored_text(pattern)
    } else {
        anchored_text_on_new_line(pattern)
    }
}

/// A rule as a mathematical value: a pattern, how to read it, and what it
/// is held against.
pub struct Rule {
    pub pattern: Seq<char>,
    pub kind: PatternType,
    pub subject: Subject,
}

impl Rule {
    /// Whether the rule can be used. Text and wildcard rules always can. A
    /// regex rule can where the engine takes its pattern, both as written
    /// and inside the anchors that make it cover the whole text. The engine
    /// bounds how deep a pattern may nest and how large it may compile, so
    /// a pattern that it takes at the very bound it may not take inside
    /// anchors; such a rule cannot be used.
    pub open spec fn valid(self) -> bool {
        self.kind is Regex ==> regex_compiled(self.pattern) is Some && regex_compiled(
            whole_text_form(self.pattern),
        ) is Some
    }

    /// Whether the rule matches the candidate. Every kind is held against
    /// the whole candidate, and every comparison is case-sensitive unless a
    /// regex pattern itself says otherwise.
    pub open spec fn accepts(self, candidate: Seq<char>) -> bool {
        match self.kind {
            PatternType::Text => candidate == self.pattern,
            PatternType::Wildcard => wildcard_accepts(
                self.pattern,
                candidate,
                self.subject.spec_separator(),
            ),
            PatternType::Regex => regex_compiled(whole_text_form(self.pattern)) matches Some(
                language,
            ) && language.contains(candidate),
        }
    }
}

/// The error that a regex rule with an unusable pattern is refused with.
pub open spec fn invalid_pattern(pattern: Seq<char>) -> ErrorView {
    ErrorView {
        etype: ErrorType::InternalError,
        source: ErrorSource::Internal,
        cause: None,
        context: Some("invalid regex pattern: "@ + pattern),
    }
}

enum Engine {
    Text(Vec<char>),
    Wildcard(Vec<Token>),
    Regex(regex::Regex),
}

/// A rule made ready for matching. A regex pattern is compiled when the
/// matcher is made, never when it is used.
pub struct Matcher {
    pattern: String,
    subject: Subject,
    engine: Engine,
}

impl View for Matcher {
    type V = Rule;

    closed spec fn view(&self) -> Rule {
        Rule {
            pattern: self.pattern@,
            kind: match self.engine {
                Engine::Text(_) => PatternType::Text,
                Engine::Wildcard(_) => PatternType::Wildcard,
                Engine::Regex(_) => PatternType::Regex,
            },
            subject: self.subject,
        }
    }
}

/// The pattern inside the anchors that make it cover the whole text.
fn anchor(pattern: &str, new_line: bool) -> (anchored: String)
    ensures
        anchored@ == if new_line {
            anchored_text_on_new_line(pattern@)
        } else {
            anchored_text(pattern@)
        },
{
    let mut anchored = "\\A(?:".to_owned();
    anchored.append(pattern);
    if new_line {
        anchored.append("\n)\\z");
    } else {
        anchored.append(")\\z");
    }
    anchored
}

fn refuse(pattern: &str) -> (e: Box<DakiaError>)
    ensures
        e@ == invalid_pattern(pattern@),
{
    let mut context = "invalid regex pattern: ".to_owned();
    context.append(pattern);
    DakiaError::explain(ErrorType::InternalError, context.as_str()).into_in()
}

impl Matcher {
    #[verifier::type_invariant]
    spec fn ready(&self) -> bool {
        match self.engine {
            Engine::Text(chars) => chars@ == self.pattern@,
            Engine::Wildcard(tokens) => tokens@ == tokenize(self.pattern@),
            Engine::Regex(re) => {
                &&& regex_compiled(self.pattern@) is Some
                &&& regex_compiled(whole_text_form(self.pattern@)) == Some(regex_language(re))
            },
        }
    }

    /// Makes a rule ready. Fails only for a regex rule whose pattern the
    /// engine does not take, as written or inside anchors. A pattern that
    /// ends in a comment is closed on a new line, so it is not refused for
    /// the comment.
    pub fn compile(pattern: &str, kind: PatternType, subject: Subject) -> (r: Result<
        Matcher,
        Box<DakiaError>,
    >)
        ensures
            match r {
                Ok(m) => m@ == (Rule { pattern: pattern@, kind, subject }) && m@.valid(),
                Err(e) => !(Rule { pattern: pattern@, kind, subject }).valid() && e@
                    == invalid_pattern(pattern@),
            },
    {
        match kind {
            PatternType::Text => {
                let chars = chars_of(pattern);
                Ok(Matcher { pattern: pattern.to_owned(), subject, engine: Engine::Text(chars) })
            },
            PatternType::Wildcard => {
                let chars = chars_of(pattern);
                let tokens = parse_tokens(&chars);
                Ok(
                    Matcher {
                        pattern: pattern.to_owned(),
                        subject,
                        engine: Engine::Wildcard(tokens),
                    },
                )
            },
            PatternType::Regex => {
                if regex_new(pattern).is_err() {
                    return Err(refuse(pattern));
                }
                let same_line = regex_new(anchor(pattern, false).as_str());
                let anchored = match same_line {
                    Ok(re) => Ok(re),
                    Err(_) => regex_new(anchor(pattern, true).as_str()),
                };
                match anchored {
                    Ok(re) => Ok(
                        Matcher { pattern: pattern.to_owned(), subject, engine: Engine::Regex(re) },
                    ),
                    Err(_) => Err(refuse(pattern)),
                }
            },
        }
    }

    /// The pattern as it was written.
    pub fn pattern(&self) -> (pattern: &str)
        ensures
            pattern@ == self@.pattern,
    {
        self.pattern.as_str()
    }

    /// How the pattern is read.
    pub fn kind(&self) -> (kind: PatternType)
        ensures
            kind == self@.kind,
    {
        match &self.engine {
            Engine::Text(_) => PatternType::Text,
            Engine::Wildcard(_) => PatternType::Wildcard,
            Engine::Regex(_) => PatternType::Regex,
        }
    }

    /// What the rule is held against.
    pub fn subject(&self) -> (subject: Subject)
        ensures
            subject == self@.subject,
    {
        self.subject
    }

    /// Whether the rule matches the candidate. `chars` holds the characters
    /// of `candidate`, so that one candidate is taken apart once for many
    /// rules.
    pub(crate) fn matches_chars(&self, candidate: &str, chars: &Vec<char>) -> (matched: bool)
        requires
            chars@ == candidate@,
        ensures
            matched == self@.accepts(candidate@),
    {
        proof {
            use_type_invariant(self);
        }
        match &self.engine {
            Engine::Text(pattern) => chars_equal(chars, pattern),
            Engine::Wildcard(tokens) => tokens_match(tokens, chars, self.subject.separator()),
            Engine::Regex(re) => regex_is_match(re, candidate),
        }
    }

    /// Whether the rule matches the candidate. No candidate is an error: one
    /// that does not match gives `false`.
    pub fn matches(&self, candidate: &str) -> (matched: bool)
        ensures
            matched == self@.accepts(candidate@),
    {
        let chars = chars_of(candidate);
        self.matches_chars(candidate, &chars)
    }
}

} // verus!
