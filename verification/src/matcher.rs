//! The matcher of a flag: a regular expression with two named groups, one
//! for the short form and one for the long form. Compiling a pattern and
//! searching with it are left to the `regex` crate; what this module claims
//! of them is not proved.

use regex::Regex;
use vstd::prelude::*;
use vstd::string::StringExecFns;

verus! {

/// `regex::Regex`, a compiled regular expression. Nothing inside it is
/// visible to the verifier.
#[verifier::external_type_specification]
#[verifier::external_body]
pub struct ExRegex(regex::Regex);

/// `regex::Error`, the reason for which a pattern was refused. Nothing inside
/// it is visible to the verifier.
#[verifier::external_type_specification]
#[verifier::external_body]
pub struct ExRegexError(regex::Error);

/// What one match of a matcher captured: the text matched by the group for
/// the short form and by the group for the long form, where each took part.
#[derive(Debug, Clone, PartialEq, Eq)]
pub struct Hit {
    pub short: Option<String>,
    pub long: Option<String>,
}

/// A `Hit` as specifications see it.
pub struct HitView {
    pub short: Option<Seq<char>>,
    pub long: Option<Seq<char>>,
}

/// The view of an optional piece of text.
pub open spec fn text_view(text: Option<String>) -> Option<Seq<char>> {
    match text {
        Some(t) => Some(t@),
        None => None,
    }
}

impl View for Hit {
    type V = HitView;

    open spec fn view(&self) -> HitView {
        HitView { short: text_view(self.short), long: text_view(self.long) }
    }
}

/// The views of a run of hits.
pub open spec fn hit_views(hits: Seq<Hit>) -> Seq<HitView> {
    hits.map_values(|hit: Hit| hit@)
}

/// The successive non-overlapping matches of `pattern` in `haystack`, from
/// left to right, each with what its groups named `first` and `second`
/// captured. This is the result of the regular expression search, which is
/// not spelled out here.
pub uninterp spec fn captures_named(
    pattern: Seq<char>,
    haystack: Seq<char>,
    first: Seq<char>,
    second: Seq<char>,
) -> Seq<HitView>;

/// A pattern that did not compile.
#[derive(Debug)]
pub struct PatternError {
    /// The text of the pattern that was refused.
    pub pattern: String,
    /// Why the pattern was refused.
    pub cause: regex::Error,
}

/// A compiled pattern; its view is the pattern's text. A matcher is only ever
/// made by compiling its pattern, so that text is what its automaton was built from.
#[derive(Debug)]
pub struct Matcher {
    regex: Regex,
    pattern: String,
}

impl View for Matcher {
    type V = Seq<char>;

    closed spec fn view(&self) -> Seq<char> {
        self.pattern@
    }
}

/// The pattern of a flag: the literal `-` and the short name, a space and a
/// run of word characters, in a group named `short`; or the literal `--` and
/// the long name, a space and a run of word characters, in a group named
/// `long`.
pub open spec fn pattern_text(short: char, long: Seq<char>) -> Seq<char> {
    "(?P<short>-"@.push(short) + " \\w*)|(?P<long>--"@ + long + " \\w*)"@
}

/// The name of the group that holds a match of the short form.
pub open spec fn short_group() -> Seq<char> {
    "short"@
}

/// The name of the group that holds a match of the long form.
pub open spec fn long_group() -> Seq<char> {
    "long"@
}

/// Calls `String::push`: appends one character to the text.
#[verifier::external_body]
fn push_char(text: &mut String, c: char)
    ensures
        final(text)@ == old(text)@.push(c),
{
    text.push(c);
}

/// Writes the pattern of a flag.
pub fn pattern_for(short: char, long: &str) -> (pattern: String)
    ensures
        pattern@ == pattern_text(short, long@),
{
    let mut pattern = String::from_str("(?P<short>-");
    push_char(&mut pattern, short);
    pattern.append(" \\w*)|(?P<long>--");
    pattern.append(long);
    pattern.append(" \\w*)");
    pattern
}

/// Calls `Regex::new` on `pattern` and keeps the pattern's text beside the
/// compiled expression. Whether a pattern compiles is for the `regex` crate
/// to say; nothing is claimed of it.
#[verifier::external_body]
fn compile(pattern: &str) -> (compiled: Result<Matcher, regex::Error>)
    ensures
        compiled matches Ok(matcher) ==> matcher@ == pattern@,
{
    match Regex::new(pattern) {
        Ok(regex) => Ok(Matcher { regex, pattern: pattern.to_string() }),
        Err(cause) => Err(cause),
    }
}

/// Calls `Regex::captures_iter` on `haystack`, and on each match
/// `Captures::name` for the two group names and `Match::as_str` on what they
/// give. The claim is that the hits are the search result named by
/// `captures_named` for the matcher's pattern: the same pattern, haystack and
/// names always give the same hits.
#[verifier::external_body]
pub(crate) fn captures(matcher: &Matcher, haystack: &str, first: &str, second: &str) -> (hits: Vec<
    Hit,
>)
    ensures
        hit_views(hits@) == captures_named(matcher@, haystack@, first@, second@),
{
    matcher.regex.captures_iter(haystack).map(
        |found| Hit {
            short: found.name(first).map(|m| m.as_str().to_string()),
            long: found.name(second).map(|m| m.as_str().to_string()),
        },
    ).collect()
}

impl Matcher {
    /// Compiles a pattern.
    pub fn new(pattern: &str) -> (made: Result<Matcher, PatternError>)
        ensures
            made matches Ok(matcher) ==> matcher@ == pattern@,
            made matches Err(refusal) ==> refusal.pattern@ == pattern@,
    {
        Matcher::from_compiled(pattern, compile(pattern))
    }

    /// Settles what compiling `pattern` gave: the matcher where it compiled,
    /// and otherwise the refusal of the pattern, with its text and the cause.
    pub fn from_compiled(pattern: &str, compiled: Result<Matcher, regex::Error>) -> (made: Result<
        Matcher,
        PatternError,
    >)
        ensures
            match compiled {
                Ok(matcher) => made matches Ok(same) && same == matcher,
                Err(cause) => made matches Err(refusal) && refusal.cause == cause
                    && refusal.pattern@ == pattern@,
            },
    {
        match compiled {
            Ok(matcher) => Ok(matcher),
            Err(cause) => Err(PatternError { pattern: String::from_str(pattern), cause }),
        }
    }
}

} // verus!
