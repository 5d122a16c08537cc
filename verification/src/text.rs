//! Text handling for the scanner: trimming the input, delimiting it, and
//! reading the value that follows a flag inside a matched piece of text.

use vstd::prelude::*;
use vstd::std_specs::iter::IteratorSpec;
use vstd::string::StrSliceExecFns;
use vstd::string::StringExecFns;

verus! {

/// Whether `c` has the Unicode `White_Space` property.
pub open spec fn is_white_space(c: char) -> bool {
    let n = c as u32;
    ||| 0x09 <= n <= 0x0D
    ||| n == 0x20
    ||| n == 0x85
    ||| n == 0xA0
    ||| n == 0x1680
    ||| 0x2000 <= n <= 0x200A
    ||| n == 0x2028
    ||| n == 0x2029
    ||| n == 0x202F
    ||| n == 0x205F
    ||| n == 0x3000
}

/// `s` without its leading white space.
pub open spec fn skip_blank(s: Seq<char>) -> Seq<char>
    decreases s.len(),
{
    if s.len() > 0 && is_white_space(s.first()) {
        skip_blank(s.drop_first())
    } else {
        s
    }
}

/// `s` without its trailing white space.
pub open spec fn drop_blank(s: Seq<char>) -> Seq<char>
    decreases s.len(),
{
    if s.len() > 0 && is_white_space(s.last()) {
        drop_blank(s.drop_last())
    } else {
        s
    }
}

/// `s` with neither leading nor trailing white space.
pub open spec fn trimmed(s: Seq<char>) -> Seq<char> {
    skip_blank(drop_blank(s))
}

/// The text that is scanned for flags: the trimmed input followed by exactly
/// one space, so that a flag at the very end is still followed by a delimiter.
pub open spec fn normalized(input: Seq<char>) -> Seq<char> {
    trimmed(input).push(' ')
}

/// The token that stands for a flag given without a value.
pub open spec fn presence_token() -> Seq<char> {
    seq!['t', 'r', 'u', 'e']
}

/// The value token carried by a piece of matched text: what follows the first
/// space, or the presence token where nothing follows it. Text without a
/// space carries no token at all.
pub open spec fn value_token(matched: Seq<char>) -> Option<Seq<char>> {
    match matched.index_of_first(' ') {
        Some(at) => {
            let tail = matched.skip(at + 1);
            Some(
                if tail.len() == 0 {
                    presence_token()
                } else {
                    tail
                },
            )
        },
        None => None,
    }
}

/// Tests a character for the Unicode `White_Space` property.
pub fn white_space(c: char) -> (blank: bool)
    ensures
        blank == is_white_space(c),
{
    let n: u32 = c as u32;
    (0x09 <= n && n <= 0x0D) || n == 0x20 || n == 0x85 || n == 0xA0 || n == 0x1680 || (0x2000 <= n
        && n <= 0x200A) || n == 0x2028 || n == 0x2029 || n == 0x202F || n == 0x205F || n == 0x3000
}

/// Removes trailing white space.
pub fn trim_end(s: &str) -> (kept: &str)
    ensures
        kept@ == drop_blank(s@),
{
    let n: usize = s.unicode_len();
    let mut rest = s.chars();
    let mut seen: usize = 0;
    let mut end: usize = 0;
    loop
        invariant
            n == s@.len(),
            rest.obeys_prophetic_iter_laws(),
            rest.remaining() == s@.skip(seen as int),
            end <= seen <= n,
            drop_blank(s@.take(seen as int)) == s@.take(end as int),
        decreases n - seen,
    {
        match rest.next() {
            None => {
                proof {
                    assert(s@.take(seen as int) =~= s@);
                }
                let kept = s.substring_char(0, end);
                proof {
                    assert(s@.subrange(0, end as int) =~= s@.take(end as int));
                }
                return kept;
            },
            Some(c) => {
                proof {
                    let grown = s@.take(seen + 1);
                    assert(grown.drop_last() =~= s@.take(seen as int));
                    assert(grown.last() == c);
                }
                seen = seen + 1;
                if !white_space(c) {
                    end = seen;
                }
            },
        }
    }
}

/// Removes leading white space.
pub fn trim_start(s: &str) -> (kept: &str)
    ensures
        kept@ == skip_blank(s@),
{
    let n: usize = s.unicode_len();
    let mut rest = s.chars();
    let mut seen: usize = 0;
    loop
        invariant
            n == s@.len(),
            rest.obeys_prophetic_iter_laws(),
            rest.remaining() == s@.skip(seen as int),
            seen <= n,
            skip_blank(s@) == skip_blank(s@.skip(seen as int)),
        decreases n - seen,
    {
        match rest.next() {
            None => {
                let kept = s.substring_char(n, n);
                proof {
                    assert(s@.subrange(n as int, n as int) =~= s@.skip(seen as int));
                }
                return kept;
            },
            Some(c) => {
                if !white_space(c) {
                    let kept = s.substring_char(seen, n);
                    proof {
                        assert(s@.subrange(seen as int, n as int) =~= s@.skip(seen as int));
                    }
                    return kept;
                }
                proof {
                    assert(s@.skip(seen as int).drop_first() =~= s@.skip(seen + 1));
                }
                seen = seen + 1;
            },
        }
    }
}

/// Removes leading and trailing white space.
pub fn trim(s: &str) -> (kept: &str)
    ensures
        kept@ == trimmed(s@),
{
    trim_start(trim_end(s))
}

/// Prepares an input line for scanning.
pub fn normalize(input: &str) -> (text: String)
    ensures
        text@ == normalized(input@),
{
    let mut text = String::from_str(trim(input));
    proof {
        reveal_strlit(" ");
    }
    text.append(" ");
    proof {
        assert(text@ =~= normalized(input@));
    }
    text
}

/// Finds the first space of `s`, counted in characters.
pub fn find_space(s: &str) -> (found: Option<usize>)
    ensures
        match found {
            Some(at) => s@.index_of_first(' ') == Some(at as int),
            None => s@.index_of_first(' ') is None,
        },
{
    let n: usize = s.unicode_len();
    let mut rest = s.chars();
    let mut seen: usize = 0;
    loop
        invariant
            n == s@.len(),
            rest.obeys_prophetic_iter_laws(),
            rest.remaining() == s@.skip(seen as int),
            seen <= n,
            forall|j: int| 0 <= j < seen ==> s@[j] != ' ',
        decreases n - seen,
    {
        match rest.next() {
            None => {
                proof {
                    s@.index_of_first_ensures(' ');
                }
                return None;
            },
            Some(c) => {
                if c == ' ' {
                    proof {
                        assert(s@[seen as int] == ' ');
                        s@.index_of_first_ensures(' ');
                    }
                    return Some(seen);
                }
                seen = seen + 1;
            },
        }
    }
}

/// Reads the value token out of a piece of matched text.
pub fn read_token(matched: &str) -> (token: Option<String>)
    ensures
        match token {
            Some(t) => value_token(matched@) == Some(t@),
            None => value_token(matched@) is None,
        },
{
    match find_space(matched) {
        None => None,
        Some(at) => {
            let n: usize = matched.unicode_len();
            proof {
                matched@.index_of_first_ensures(' ');
            }
            let tail = matched.substring_char(at + 1, n);
            proof {
                assert(matched@.subrange(at + 1, n as int) =~= matched@.skip(at + 1));
            }
            if tail.is_empty() {
                proof {
                    reveal_strlit("true");
                    assert("true"@ =~= presence_token());
                }
                Some(String::from_str("true"))
            } else {
                Some(String::from_str(tail))
            }
        },
    }
}

} // verus!
