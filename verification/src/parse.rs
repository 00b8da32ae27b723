//! Parsing free-text lists of neighbor counts into an explicit-set rule.
//! Tokens are separated by single spaces; a token must be a non-empty run
//! of digits naming a count of at most `MAX_NEIGHBORS`. A malformed token
//! is a recoverable error naming that token; nothing is silently clamped
//! or skipped.

use vstd::prelude::*;

use crate::rules::MAX_NEIGHBORS;
use crate::rules::Rules;
use crate::rules::rule_wf;

verus! {

/// Whether `c` is a decimal digit.
pub open spec fn is_count_digit(c: char) -> bool {
    '0' as u32 <= c as u32 <= '9' as u32
}

/// The numeric value of the digit `c`.
pub open spec fn digit_value(c: char) -> int {
    c as u32 - '0' as u32
}

/// The number a run of digits names, most significant digit first.
pub open spec fn token_value(t: Seq<char>) -> int
    decreases t.len(),
{
    if t.len() == 0 {
        0
    } else {
        token_value(t.drop_last()) * 10 + digit_value(t.last())
    }
}

/// A parsable token: non-empty, all digits, naming a count of at most
/// `MAX_NEIGHBORS`.
pub open spec fn token_ok(t: Seq<char>) -> bool {
    &&& t.len() > 0
    &&& forall|i: int| 0 <= i < t.len() ==> is_count_digit(#[trigger] t[i])
    &&& token_value(t) <= MAX_NEIGHBORS
}

/// Split `s` into space-separated tokens, one character at a time: `cur` is
/// the token being read and `done` the tokens already complete.
pub open spec fn split_rec(s: Seq<char>, cur: Seq<char>, done: Seq<Seq<char>>) -> Seq<Seq<char>>
    decreases s.len(),
{
    if s.len() == 0 {
        done.push(cur)
    } else if s[0] == ' ' {
        split_rec(s.skip(1), Seq::empty(), done.push(cur))
    } else {
        split_rec(s.skip(1), cur.push(s[0]), done)
    }
}

/// The space-separated tokens of `s`. A run of two spaces, or a leading or
/// trailing space, yields an empty token, which no parse accepts.
pub open spec fn tokens_of(s: Seq<char>) -> Seq<Seq<char>> {
    split_rec(s, Seq::empty(), Seq::empty())
}

/// Splitting appends its completed tokens to whatever was done already.
proof fn lemma_split_acc(s: Seq<char>, cur: Seq<char>, done: Seq<Seq<char>>)
    ensures
        split_rec(s, cur, done) == done + split_rec(s, cur, Seq::empty()),
    decreases s.len(),
{
    if s.len() == 0 {
        assert(split_rec(s, cur, done) =~= done + split_rec(s, cur, Seq::empty()));
    } else if s[0] == ' ' {
        lemma_split_acc(s.skip(1), Seq::empty(), done.push(cur));
        lemma_split_acc(s.skip(1), Seq::empty(), Seq::empty().push(cur));
        assert(split_rec(s, cur, done) =~= done + split_rec(s, cur, Seq::empty()));
    } else {
        lemma_split_acc(s.skip(1), cur.push(s[0]), done);
        lemma_split_acc(s.skip(1), cur.push(s[0]), Seq::empty());
        assert(split_rec(s, cur, done) =~= done + split_rec(s, cur, Seq::empty()));
    }
}

/// Splitting always yields at least one token.
proof fn lemma_split_nonempty(s: Seq<char>, cur: Seq<char>, done: Seq<Seq<char>>)
    ensures
        split_rec(s, cur, done).len() >= done.len() + 1,
    decreases s.len(),
{
    if s.len() == 0 {
    } else if s[0] == ' ' {
        lemma_split_nonempty(s.skip(1), Seq::empty(), done.push(cur));
    } else {
        lemma_split_nonempty(s.skip(1), cur.push(s[0]), done);
    }
}

/// A malformed count list: the first token that could not be parsed.
#[derive(Debug)]
pub struct ParseError {
    /// The unparsable token, exactly as it stood in the input.
    pub token: String,
}

/// Parse a space-separated list of neighbor counts. Every token must be a
/// non-empty digit run naming a count of at most `MAX_NEIGHBORS`; the first
/// token that is not is returned as the error, and nothing is parsed
/// around it.
pub fn parse_counts(s: &str) -> (r: Result<Vec<u8>, ParseError>)
    ensures
        r matches Ok(v) ==> {
            &&& forall|i: int|
                0 <= i < tokens_of(s@).len() ==> token_ok(#[trigger] tokens_of(s@)[i])
            &&& v@.len() == tokens_of(s@).len()
            &&& forall|i: int|
                0 <= i < v@.len() ==> #[trigger] v@[i] == token_value(tokens_of(s@)[i])
            &&& v@.len() >= 1
        },
        r matches Err(e) ==> exists|i: int|
            {
                &&& 0 <= i < tokens_of(s@).len()
                &&& !token_ok(#[trigger] tokens_of(s@)[i])
                &&& forall|j: int| 0 <= j < i ==> token_ok(#[trigger] tokens_of(s@)[j])
                &&& e.token@ == tokens_of(s@)[i]
            },
{
    let n = s.unicode_len();
    let mut values: Vec<u8> = Vec::new();
    let mut start: usize = 0;
    let mut pos: usize = 0;
    let mut acc: u8 = 0;
    let mut bad = false;
    let ghost mut done: Seq<Seq<char>> = Seq::empty();
    proof {
        lemma_split_nonempty(s@, Seq::empty(), Seq::empty());
        assert(s@.skip(0) =~= s@);
        assert(s@.subrange(0, 0) =~= Seq::<char>::empty());
    }
    while pos < n
        invariant
            n == s@.len(),
            start <= pos <= n,
            tokens_of(s@) == split_rec(s@.skip(pos as int), s@.subrange(start as int, pos as int), done),
            done.len() == values@.len(),
            forall|j: int| 0 <= j < done.len() ==> token_ok(#[trigger] done[j]),
            forall|j: int| 0 <= j < values@.len() ==> #[trigger] values@[j] == token_value(done[j]),
            !bad ==> forall|k: int|
                start <= k < pos ==> is_count_digit(#[trigger] s@[k]),
            !bad ==> (acc <= MAX_NEIGHBORS && acc == token_value(
                s@.subrange(start as int, pos as int),
            )) || (acc == MAX_NEIGHBORS + 1 && token_value(s@.subrange(start as int, pos as int))
                > MAX_NEIGHBORS),
            bad ==> !token_ok(s@.subrange(start as int, pos as int)),
            bad ==> exists|k: int| start <= k < pos && !is_count_digit(#[trigger] s@[k]),
        decreases n - pos,
    {
        let ghost cur = s@.subrange(start as int, pos as int);
        let c = s.get_char(pos);
        if c == ' ' {
            // the current token is complete
            proof {
                assert(s@.skip(pos as int)[0] == ' ');
                assert(s@.skip(pos as int).skip(1) =~= s@.skip(pos as int + 1));
                lemma_split_acc(s@.skip(pos as int + 1), Seq::empty(), done.push(cur));
                lemma_split_acc(s@.skip(pos as int + 1), Seq::empty(), Seq::empty().push(cur));
                lemma_split_nonempty(s@.skip(pos as int + 1), Seq::empty(), Seq::empty().push(cur));
                assert(s@.subrange(pos as int + 1, pos as int + 1) =~= Seq::<char>::empty());
            }
            if bad || start == pos || acc > MAX_NEIGHBORS {
                proof {
                    assert(tokens_of(s@)[done.len() as int] == cur);
                }
                let token = s.substring_char(start, pos).to_owned();
                return Err(ParseError { token });
            }
            values.push(acc);
            proof {
                done = done.push(cur);
            }
            acc = 0;
            bad = false;
            pos = pos + 1;
            start = pos;
        } else {
            proof {
                assert(s@.skip(pos as int)[0] == s@[pos as int]);
                assert(s@.skip(pos as int).skip(1) =~= s@.skip(pos as int + 1));
                assert(s@.subrange(start as int, pos as int + 1) =~= cur.push(s@[pos as int]));
                assert(cur.push(s@[pos as int]).drop_last() =~= cur);
            }
            if c >= '0' && c <= '9' {
                if !bad {
                    let d = c as u8 - 48;
                    if acc > MAX_NEIGHBORS {
                        // already beyond any valid count; stay saturated
                        acc = MAX_NEIGHBORS + 1;
                    } else {
                        let next = acc * 10 + d;
                        if next > MAX_NEIGHBORS {
                            acc = MAX_NEIGHBORS + 1;
                        } else {
                            acc = next;
                        }
                    }
                }
            } else {
                bad = true;
            }
            pos = pos + 1;
        }
    }
    // the last token is complete
    let ghost cur = s@.subrange(start as int, pos as int);
    proof {
        assert(s@.skip(pos as int).len() == 0);
        assert(tokens_of(s@) == done.push(cur));
    }
    if bad || start == pos || acc > MAX_NEIGHBORS {
        proof {
            assert(tokens_of(s@)[done.len() as int] == cur);
        }
        let token = s.substring_char(start, pos).to_owned();
        return Err(ParseError { token });
    }
    values.push(acc);
    proof {
        done = done.push(cur);
    }
    Ok(values)
}

/// Parse a space-separated list of neighbor counts into an explicit-set
/// rule. The error names the first unparsable token; on success the rule
/// holds the counts in input order and is well formed.
pub fn parse_singles(s: &str) -> (r: Result<Rules, ParseError>)
    ensures
        r matches Ok(rule) ==> {
            &&& rule matches Rules::Singles(v) && v@.len() == tokens_of(s@).len() && forall|i: int|
                0 <= i < v@.len() ==> #[trigger] v@[i] == token_value(tokens_of(s@)[i])
            &&& forall|i: int|
                0 <= i < tokens_of(s@).len() ==> token_ok(#[trigger] tokens_of(s@)[i])
            &&& rule_wf(rule)
        },
        r matches Err(e) ==> exists|i: int|
            {
                &&& 0 <= i < tokens_of(s@).len()
                &&& !token_ok(#[trigger] tokens_of(s@)[i])
                &&& forall|j: int| 0 <= j < i ==> token_ok(#[trigger] tokens_of(s@)[j])
                &&& e.token@ == tokens_of(s@)[i]
            },
{
    match parse_counts(s) {
        Ok(values) => Ok(Rules::Singles(values)),
        Err(e) => Err(e),
    }
}

} // verus!
