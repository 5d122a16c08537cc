//! What scanning does for one flag: the tokens that its matches carry, and
//! the value that its variable ends with once they have been coerced in turn.

use crate::matcher::{
    captures, captures_named, hit_views, long_group, short_group, text_view, Hit, HitView, Matcher,
};
use crate::text::{normalize, normalized, presence_token, read_token, value_token};
use crate::value::{coerce, true_word, Kind, Scalar};
use vstd::prelude::*;

verus! {

/// The tokens that one captured group carries: the value token of its text,
/// if the group took part in the match and its text holds a space.
pub open spec fn group_tokens(group: Option<Seq<char>>) -> Seq<Seq<char>> {
    match group {
        Some(matched) => match value_token(matched) {
            Some(token) => seq![token],
            None => seq![],
        },
        None => seq![],
    }
}

/// The tokens that one hit carries: the short form's, then the long form's.
pub open spec fn hit_tokens(hit: HitView) -> Seq<Seq<char>> {
    group_tokens(hit.short) + group_tokens(hit.long)
}

/// The tokens that a run of hits carries, in the order of the hits.
pub open spec fn tokens_of(hits: Seq<HitView>) -> Seq<Seq<char>>
    decreases hits.len(),
{
    if hits.len() == 0 {
        seq![]
    } else {
        tokens_of(hits.drop_last()) + hit_tokens(hits.last())
    }
}

/// The value that a variable of the given kind ends with when the tokens are
/// coerced into it one after the other: what the last well-formed token
/// denotes, or the value it started with where none is well formed.
pub open spec fn settle(kind: Kind, start: Scalar, tokens: Seq<Seq<char>>) -> Scalar
    decreases tokens.len(),
{
    if tokens.len() == 0 {
        start
    } else {
        match coerce(kind, tokens.last()) {
            Some(v) => v,
            None => settle(kind, start, tokens.drop_last()),
        }
    }
}

/// The tokens that scanning `input` finds for a flag with the given pattern.
pub open spec fn found_tokens(pattern: Seq<char>, input: Seq<char>) -> Seq<Seq<char>> {
    tokens_of(captures_named(pattern, normalized(input), short_group(), long_group()))
}

/// The value that a variable ends with when `input` is scanned for a flag
/// with the given pattern.
pub open spec fn scanned(
    kind: Kind,
    start: Scalar,
    pattern: Seq<char>,
    input: Seq<char>,
) -> Scalar {
    settle(kind, start, found_tokens(pattern, input))
}

/// The views of a run of tokens.
pub open spec fn token_views(tokens: Seq<String>) -> Seq<Seq<char>> {
    tokens.map_values(|token: String| token@)
}

/// Reads the token that a captured group carries, if it carries one.
pub fn group_token(group: &Option<String>) -> (token: Option<String>)
    ensures
        group_tokens(text_view(*group)) == match token {
            Some(t) => seq![t@],
            None => seq![],
        },
{
    match group {
        Some(matched) => read_token(matched.as_str()),
        None => None,
    }
}

/// Reads the tokens that the hits of a search carry, hit by hit from first to
/// last: for each hit the short form's token, then the long form's.
pub fn collect_tokens(hits: &Vec<Hit>) -> (tokens: Vec<String>)
    ensures
        token_views(tokens@) == tokens_of(hit_views(hits@)),
{
    let mut tokens: Vec<String> = Vec::new();
    let n: usize = hits.len();
    let mut k: usize = 0;
    let ghost views = hit_views(hits@);
    proof {
        assert(token_views(tokens@) =~= tokens_of(views.take(0)));
    }
    while k < n
        invariant
            k <= n,
            n == hits@.len(),
            views == hit_views(hits@),
            token_views(tokens@) == tokens_of(views.take(k as int)),
        decreases n - k,
    {
        let hit = &hits[k];
        let ghost done = token_views(tokens@);
        proof {
            let grown = views.take(k + 1);
            assert(grown.drop_last() =~= views.take(k as int));
            assert(grown.last() == hit@);
        }
        match group_token(&hit.short) {
            Some(token) => {
                tokens.push(token);
            },
            None => {},
        }
        assert(token_views(tokens@) =~= done + group_tokens(hit@.short));
        match group_token(&hit.long) {
            Some(token) => {
                tokens.push(token);
            },
            None => {},
        }
        assert(token_views(tokens@) =~= done + hit_tokens(hit@));
        k = k + 1;
    }
    proof {
        assert(views.take(n as int) =~= views);
    }
    tokens
}

/// Searches a text that is already trimmed and delimited for a flag's
/// matcher and reads the tokens of its matches, first to last.
pub fn scan_normalized(matcher: &Matcher, text: &str) -> (tokens: Vec<String>)
    ensures
        token_views(tokens@) == tokens_of(
            captures_named(matcher@, text@, short_group(), long_group()),
        ),
{
    let hits = captures(matcher, text, "short", "long");
    collect_tokens(&hits)
}

/// Scans `input` for a flag's matcher and reads the tokens found, first to
/// last.
pub fn scan(matcher: &Matcher, input: &str) -> (tokens: Vec<String>)
    ensures
        token_views(tokens@) == found_tokens(matcher@, input@),
{
    let text = normalize(input);
    scan_normalized(matcher, text.as_str())
}

/// A well-formed token decides the value, whatever came before it: of
/// several occurrences of a flag the last one wins.
pub proof fn lemma_well_formed_token_wins(
    kind: Kind,
    start: Scalar,
    earlier: Seq<Seq<char>>,
    token: Seq<char>,
)
    requires
        coerce(kind, token) is Some,
    ensures
        settle(kind, start, earlier.push(token)) == coerce(kind, token)->0,
{
    assert(earlier.push(token).last() == token);
}

/// A malformed token changes nothing: the value is what the tokens before it
/// left.
pub proof fn lemma_malformed_token_passed_over(
    kind: Kind,
    start: Scalar,
    earlier: Seq<Seq<char>>,
    token: Seq<char>,
)
    requires
        coerce(kind, token) is None,
    ensures
        settle(kind, start, earlier.push(token)) == settle(kind, start, earlier),
{
    assert(earlier.push(token).last() == token);
    assert(earlier.push(token).drop_last() =~= earlier);
}

/// Coercing the same tokens a second time changes nothing.
pub proof fn lemma_settle_idempotent(kind: Kind, start: Scalar, tokens: Seq<Seq<char>>)
    ensures
        settle(kind, settle(kind, start, tokens), tokens) == settle(kind, start, tokens),
    decreases tokens.len(),
{
    if tokens.len() > 0 && coerce(kind, tokens.last()) is None {
        lemma_settle_idempotent(kind, start, tokens.drop_last());
    }
}

/// A flag of which the input holds no occurrence leaves its variable with
/// the value it had.
pub proof fn lemma_unmatched_flag_keeps_value(
    kind: Kind,
    start: Scalar,
    pattern: Seq<char>,
    input: Seq<char>,
)
    requires
        captures_named(pattern, normalized(input), short_group(), long_group()).len() == 0,
    ensures
        scanned(kind, start, pattern, input) == start,
{
}

/// Scanning the same input twice in succession leaves a variable with the
/// value that scanning it once leaves.
pub proof fn lemma_scan_idempotent(
    kind: Kind,
    start: Scalar,
    pattern: Seq<char>,
    input: Seq<char>,
)
    ensures
        scanned(kind, scanned(kind, start, pattern, input), pattern, input) == scanned(
            kind,
            start,
            pattern,
            input,
        ),
{
    lemma_settle_idempotent(kind, start, found_tokens(pattern, input));
}

/// A flag with nothing after it reads as the presence token: where the
/// matched text is the flag itself and the space that ends it, the token is
/// `true`, which sets a boolean variable.
pub proof fn lemma_bare_flag_reads_true(flag: Seq<char>, start: Scalar)
    requires
        !flag.contains(' '),
    ensures
        value_token(flag.push(' ')) == Some(presence_token()),
        coerce(Kind::Bool, presence_token()) == Some(Scalar::Bool(true)),
        settle(Kind::Bool, start, group_tokens(Some(flag.push(' ')))) == Scalar::Bool(true),
{
    let matched = flag.push(' ');
    matched.index_of_first_ensures(' ');
    assert(matched[flag.len() as int] == ' ');
    let at = matched.index_of_first(' ')->0;
    if at < flag.len() {
        assert(flag[at] == ' ');
    }
    assert(matched.skip(at + 1).len() == 0);
    assert(presence_token() =~= true_word());
    assert(seq![presence_token()].last() == presence_token());
}

} // verus!
