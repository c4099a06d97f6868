use dakia::config::location::PatternType;
use dakia::error::{ErrorSource, ErrorType};
use dakia::pattern::matcher::{Matcher, Subject};
use dakia::pattern::wildcard::{parse_tokens, tokens_match, Token};
use dakia::text::{chars_equal, chars_of};

fn host(pattern: &str, kind: PatternType) -> Matcher {
    Matcher::compile(pattern, kind, Subject::Host).unwrap()
}

fn path(pattern: &str, kind: PatternType) -> Matcher {
    Matcher::compile(pattern, kind, Subject::Path).unwrap()
}

#[test]
fn chars_of_keeps_every_character() {
    assert_eq!(chars_of("a/b"), vec!['a', '/', 'b']);
    assert_eq!(chars_of(""), Vec::<char>::new());
    assert_eq!(chars_of("é*"), vec!['é', '*']);
}

#[test]
fn chars_equal_compares_whole_texts() {
    assert!(chars_equal(&chars_of("abc"), &chars_of("abc")));
    assert!(!chars_equal(&chars_of("abc"), &chars_of("abd")));
    assert!(!chars_equal(&chars_of("abc"), &chars_of("ab")));
    assert!(chars_equal(&chars_of(""), &chars_of("")));
}

#[test]
fn separators() {
    assert_eq!(Subject::Host.separator(), '.');
    assert_eq!(Subject::Path.separator(), '/');
}

#[test]
fn text_matches_the_identical_string_only() {
    let m = host("api.example.com", PatternType::Text);
    assert!(m.matches("api.example.com"));
    assert!(!m.matches("api.example.co"));
    assert!(!m.matches("api.example.com."));
    assert!(!m.matches("xapi.example.com"));
    assert!(!m.matches(""));
}

#[test]
fn text_is_case_sensitive() {
    let m = host("api.example.com", PatternType::Text);
    assert!(!m.matches("API.example.com"));
    assert!(!m.matches("api.Example.com"));
    let m = path("/Users", PatternType::Text);
    assert!(m.matches("/Users"));
    assert!(!m.matches("/users"));
}

#[test]
fn text_takes_stars_literally() {
    let m = host("*.example.com", PatternType::Text);
    assert!(m.matches("*.example.com"));
    assert!(!m.matches("a.example.com"));
}

#[test]
fn wildcard_host_single_segment() {
    let m = host("*.example.com", PatternType::Wildcard);
    assert!(m.matches("a.example.com"));
    assert!(m.matches("api.example.com"));
    assert!(!m.matches("example.com"));
    assert!(!m.matches("a.b.example.com"));
    assert!(!m.matches("a.example.org"));
}

#[test]
fn wildcard_run_may_be_empty() {
    let m = host("*.example.com", PatternType::Wildcard);
    assert!(m.matches(".example.com"));
    let m = path("/a*", PatternType::Wildcard);
    assert!(m.matches("/a"));
    assert!(m.matches("/ab"));
}

#[test]
fn wildcard_host_across_segments() {
    let m = host("**.example.com", PatternType::Wildcard);
    assert!(m.matches("a.example.com"));
    assert!(m.matches("a.b.example.com"));
    assert!(!m.matches("example.com"));
    assert!(!m.matches("a.b.example.org"));
}

#[test]
fn wildcard_path_segments_end_at_slash() {
    let m = path("/static/*", PatternType::Wildcard);
    assert!(m.matches("/static/app.min.js"));
    assert!(m.matches("/static/"));
    assert!(!m.matches("/static/js/app.js"));
    assert!(!m.matches("/static"));
    let m = path("/static/**", PatternType::Wildcard);
    assert!(m.matches("/static/js/app.js"));
    assert!(m.matches("/static/app.js"));
    assert!(!m.matches("/stat/app.js"));
}

#[test]
fn wildcard_separator_goes_by_subject() {
    let as_host = host("a*z", PatternType::Wildcard);
    let as_path = path("a*z", PatternType::Wildcard);
    assert!(as_host.matches("a/z"));
    assert!(!as_host.matches("a.z"));
    assert!(as_path.matches("a.z"));
    assert!(!as_path.matches("a/z"));
}

#[test]
fn wildcard_in_the_middle() {
    let m = path("/api/*/users/**", PatternType::Wildcard);
    assert!(m.matches("/api/v1/users/7/posts"));
    assert!(m.matches("/api//users/"));
    assert!(!m.matches("/api/v1/v2/users/7"));
    assert!(!m.matches("/api/v1/users"));
}

#[test]
fn wildcard_backtracks() {
    let m = path("*a*ab", PatternType::Wildcard);
    assert!(m.matches("aaab"));
    assert!(m.matches("xaab"));
    assert!(!m.matches("aaba"));
    let m = path("**/x/**/y", PatternType::Wildcard);
    assert!(m.matches("/x/x/y/y"));
    assert!(!m.matches("/x/y/"));
}

#[test]
fn wildcard_without_stars_is_exact() {
    let m = host("example.com", PatternType::Wildcard);
    assert!(m.matches("example.com"));
    assert!(!m.matches("Example.com"));
    assert!(!m.matches("example.comm"));
    let m = host("", PatternType::Wildcard);
    assert!(m.matches(""));
    assert!(!m.matches("a"));
}

#[test]
fn wildcard_alone() {
    let m = host("*", PatternType::Wildcard);
    assert!(m.matches("localhost"));
    assert!(m.matches(""));
    assert!(!m.matches("a.com"));
    let m = host("**", PatternType::Wildcard);
    assert!(m.matches("a.b.c"));
    assert!(m.matches(""));
}

#[test]
fn tokens_of_a_pattern() {
    assert_eq!(
        parse_tokens(&chars_of("a**b*")),
        vec![Token::Literal('a'), Token::Span, Token::Literal('b'), Token::Segment]
    );
    assert_eq!(parse_tokens(&chars_of("***")), vec![Token::Span, Token::Segment]);
    assert_eq!(parse_tokens(&chars_of("****")), vec![Token::Span, Token::Span]);
    assert_eq!(parse_tokens(&chars_of("*")), vec![Token::Segment]);
    assert_eq!(parse_tokens(&chars_of("")), Vec::<Token>::new());
    assert_eq!(parse_tokens(&chars_of("*a")), vec![Token::Segment, Token::Literal('a')]);
}

#[test]
fn tokens_match_directly() {
    let tokens = vec![Token::Literal('/'), Token::Segment, Token::Literal('/'), Token::Span];
    assert!(tokens_match(&tokens, &chars_of("/a/b/c"), '/'));
    assert!(tokens_match(&tokens, &chars_of("//"), '/'));
    assert!(!tokens_match(&tokens, &chars_of("/a"), '/'));
    assert!(tokens_match(&Vec::new(), &chars_of(""), '/'));
    assert!(!tokens_match(&Vec::new(), &chars_of("x"), '/'));
    assert!(tokens_match(&vec![Token::Segment], &chars_of("a/b"), '.'));
    assert!(!tokens_match(&vec![Token::Segment], &chars_of("a/b"), '/'));
}

#[test]
fn regex_matches_whole_paths() {
    let m = path("^/api/.*$", PatternType::Regex);
    assert!(m.matches("/api/users"));
    assert!(m.matches("/api/"));
    assert!(!m.matches("/apiv2/users"));
    assert!(!m.matches("/v1/api/users"));
}

#[test]
fn regex_is_not_a_partial_search() {
    let m = path("/api", PatternType::Regex);
    assert!(m.matches("/api"));
    assert!(!m.matches("/api/users"));
    assert!(!m.matches("/v1/api"));
    let m = path("a|ab", PatternType::Regex);
    assert!(m.matches("a"));
    assert!(m.matches("ab"));
    assert!(!m.matches("abc"));
    let m = host("[a-z]+\\.example\\.com", PatternType::Regex);
    assert!(m.matches("api.example.com"));
    assert!(!m.matches("api.example.com.evil.org"));
    assert!(!m.matches("API.example.com"));
}

#[test]
fn regex_may_ask_for_case_insensitivity() {
    let m = host("(?i)example\\.com", PatternType::Regex);
    assert!(m.matches("EXAMPLE.com"));
    assert!(m.matches("example.com"));
}

#[test]
fn regex_does_not_end_before_a_last_newline() {
    let m = path("/a", PatternType::Regex);
    assert!(!m.matches("/a\n"));
}

#[test]
fn regex_may_end_in_a_comment() {
    let m = path("(?x) /a [0-9]+ # the numbered pages", PatternType::Regex);
    assert!(m.matches("/a7"));
    assert!(m.matches("/a42"));
    assert!(!m.matches("/a"));
    assert!(!m.matches("/a7/"));
    assert!(!m.matches("x/a7"));
    assert!(!m.matches("/a7\n"));
    assert_eq!(m.pattern(), "(?x) /a [0-9]+ # the numbered pages");
    let m = host("(?x)a # note", PatternType::Regex);
    assert!(m.matches("a"));
    assert!(!m.matches("ab"));
    assert!(!m.matches("a # note"));
}

#[test]
fn regex_hash_outside_verbose_mode_is_literal() {
    let m = path("/a#b", PatternType::Regex);
    assert!(m.matches("/a#b"));
    assert!(!m.matches("/a"));
    assert!(!m.matches("/a#b\n"));
}

#[test]
fn invalid_regex_is_refused_when_compiled() {
    let e = Matcher::compile("/api/(", PatternType::Regex, Subject::Path).err().unwrap();
    assert_eq!(e.etype, ErrorType::InternalError);
    assert_eq!(e.source, ErrorSource::Internal);
    assert_eq!(e.context.as_deref(), Some("invalid regex pattern: /api/("));
    assert!(e.cause.is_none());
    assert_eq!(e.render(), "Internal InternalError context: invalid regex pattern: /api/(");
}

#[test]
fn regex_must_be_valid_as_written() {
    assert!(Matcher::compile("a)(?:b", PatternType::Regex, Subject::Path).is_err());
    assert!(Matcher::compile("a)|(b", PatternType::Regex, Subject::Host).is_err());
}

#[test]
fn text_and_wildcard_always_compile() {
    assert!(Matcher::compile("/api/(", PatternType::Text, Subject::Path).is_ok());
    assert!(Matcher::compile("/api/(", PatternType::Wildcard, Subject::Path).is_ok());
    assert!(Matcher::compile("", PatternType::Text, Subject::Host).is_ok());
}

#[test]
fn matcher_remembers_its_rule() {
    let m = host("*.example.com", PatternType::Wildcard);
    assert_eq!(m.pattern(), "*.example.com");
    assert_eq!(m.kind(), PatternType::Wildcard);
    assert_eq!(m.subject(), Subject::Host);
    let m = path("^/x$", PatternType::Regex);
    assert_eq!(m.pattern(), "^/x$");
    assert_eq!(m.kind(), PatternType::Regex);
    assert_eq!(m.subject(), Subject::Path);
    assert_eq!(path("/x", PatternType::Text).kind(), PatternType::Text);
}
