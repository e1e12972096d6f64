//! The grammar of a request: the request line, its tokens, and the two
//! parts of a target.
//!
//! The grammar is stated over sequences of characters. The functions that
//! run it work on slices of characters and give positions back, so that a
//! caller can cut what it needs out of its own text.

use crate::text::{is_whitespace, lemma_run_len, lemma_run_len_is, run_len, scan, CharClass};
use vstd::prelude::*;

verus! {

/// The request line of `raw`: its first line, without the line terminator.
/// A line ends at a line feed, and a carriage return just before that line
/// feed belongs to the terminator. An input without characters has no line.
pub open spec fn request_line(raw: Seq<char>) -> Option<Seq<char>> {
    if raw.len() == 0 {
        None
    } else {
        let feed = run_len(raw, CharClass::Except('\n')) as int;
        if 0 < feed < raw.len() && raw[feed - 1] == '\r' {
            Some(raw.take(feed - 1))
        } else {
            Some(raw.take(feed))
        }
    }
}

/// Whether no character of `s` is white space.
pub open spec fn is_spaceless(s: Seq<char>) -> bool {
    forall|i: int| 0 <= i < s.len() ==> !is_whitespace(#[trigger] s[i])
}

/// Whether every character of `s` is white space.
pub open spec fn is_blank(s: Seq<char>) -> bool {
    forall|i: int| 0 <= i < s.len() ==> is_whitespace(#[trigger] s[i])
}

/// `s` without the white space at its head.
pub open spec fn trim_start(s: Seq<char>) -> Seq<char> {
    s.skip(run_len(s, CharClass::Whitespace) as int)
}

/// The first token of `s`: the longest run of characters other than white
/// space that follows the white space at the head of `s`. It is empty
/// exactly when `s` holds nothing but white space.
pub open spec fn first_token(s: Seq<char>) -> Seq<char> {
    let rest = trim_start(s);
    rest.take(run_len(rest, CharClass::NonWhitespace) as int)
}

/// What follows the first token of `s`.
pub open spec fn after_first_token(s: Seq<char>) -> Seq<char> {
    let rest = trim_start(s);
    rest.skip(run_len(rest, CharClass::NonWhitespace) as int)
}

/// The path and the query string of `target`. The target is split at its
/// first question mark, which belongs to neither part; without a question
/// mark there is no query string. An empty target stands for the path `/`.
pub open spec fn target_parts(target: Seq<char>) -> (Seq<char>, Option<Seq<char>>) {
    let mark = run_len(target, CharClass::Except('?')) as int;
    if target.len() == 0 {
        ("/"@, None)
    } else if mark < target.len() {
        (target.take(mark), Some(target.skip(mark + 1)))
    } else {
        (target, None)
    }
}

/// The target that is written for `path` and `query`: the path, and after
/// it a question mark and the query string where there is one.
pub open spec fn join_target(path: Seq<char>, query: Option<Seq<char>>) -> Seq<char> {
    match query {
        Some(text) => path + seq!['?'] + text,
        None => path,
    }
}

/// Whether a target can carry `path` and `query` through a request line:
/// neither holds white space, the path holds no question mark, and the
/// two together are not empty.
pub open spec fn fits_target(path: Seq<char>, query: Option<Seq<char>>) -> bool {
    &&& is_spaceless(path)
    &&& !path.contains('?')
    &&& query matches Some(text) ==> is_spaceless(text)
    &&& path.len() > 0 || query is Some
}

/// Finds where the request line of `s` ends: that line is `s[..end]`.
/// There is no end to find exactly when `s` is empty.
pub fn line_end(s: &[char]) -> (found: Option<usize>)
    ensures
        match (request_line(s@), found) {
            (Some(line), Some(end)) => end <= s.len() && line == s@.take(end as int),
            (None, None) => true,
            _ => false,
        },
{
    let len = s.len();
    if len == 0 {
        return None;
    }
    let feed = scan(s, 0, len, CharClass::Except('\n'));
    assert(s@.subrange(0, len as int) =~= s@);
    if 0 < feed && feed < len && s[feed - 1] == '\r' {
        Some(feed - 1)
    } else {
        Some(feed)
    }
}

/// Finds the first token of `s[from..to]`: it is `s[start..end]`, and what
/// follows it is `s[end..to]`.
pub fn next_token(s: &[char], from: usize, to: usize) -> (bounds: (usize, usize))
    requires
        from <= to <= s.len(),
    ensures
        from <= bounds.0 <= bounds.1 <= to,
        s@.subrange(bounds.0 as int, bounds.1 as int) == first_token(
            s@.subrange(from as int, to as int),
        ),
        s@.subrange(bounds.1 as int, to as int) == after_first_token(
            s@.subrange(from as int, to as int),
        ),
{
    let start = scan(s, from, to, CharClass::Whitespace);
    let end = scan(s, start, to, CharClass::NonWhitespace);
    proof {
        let window = s@.subrange(from as int, to as int);
        assert(trim_start(window) =~= s@.subrange(start as int, to as int));
    }
    (start, end)
}

/// A line without a line feed is the request line of every input that
/// starts with it and a line terminator, and of the input that is that
/// line alone, unless the line is empty: the empty input has no line. A
/// line feed alone ends the line only where no carriage return stands
/// before it.
pub proof fn lemma_request_line_framed(line: Seq<char>, rest: Seq<char>)
    requires
        !line.contains('\n'),
    ensures
        request_line(line + seq!['\r', '\n'] + rest) == Some(line),
        line.len() == 0 || line.last() != '\r' ==> request_line(line + seq!['\n'] + rest)
            == Some(line),
        line.len() > 0 ==> request_line(line) == Some(line),
{
    let crlf = line + seq!['\r', '\n'] + rest;
    lemma_run_len_is(crlf, CharClass::Except('\n'), line.len() as int + 1);
    assert(crlf.take(line.len() as int) =~= line);
    if line.len() == 0 || line.last() != '\r' {
        let lf = line + seq!['\n'] + rest;
        lemma_run_len_is(lf, CharClass::Except('\n'), line.len() as int);
        assert(lf.take(line.len() as int) =~= line);
    }
    if line.len() > 0 {
        lemma_run_len_is(line, CharClass::Except('\n'), line.len() as int);
        assert(line.take(line.len() as int) =~= line);
    }
}

/// A sequence is the white space at its head, its first token, and what
/// follows that token. The token holds no white space, and what follows
/// it is empty or starts with white space. There is no token exactly
/// where there is nothing but white space.
pub proof fn lemma_first_token_bounded(s: Seq<char>)
    ensures
        is_blank(s.take(run_len(s, CharClass::Whitespace) as int)),
        s == s.take(run_len(s, CharClass::Whitespace) as int) + first_token(s)
            + after_first_token(s),
        is_spaceless(first_token(s)),
        after_first_token(s).len() > 0 ==> is_whitespace(after_first_token(s)[0]),
        first_token(s).len() == 0 <==> is_blank(s),
{
    lemma_run_len(s, CharClass::Whitespace);
    lemma_run_len(trim_start(s), CharClass::NonWhitespace);
    assert(s =~= s.take(run_len(s, CharClass::Whitespace) as int) + first_token(s)
        + after_first_token(s));
}

/// White space, then a token, then a remainder that is empty or starts
/// with white space: the token is the first token of the whole, and the
/// remainder is what follows it.
pub proof fn lemma_token_framed(space: Seq<char>, token: Seq<char>, rest: Seq<char>)
    requires
        is_blank(space),
        is_spaceless(token),
        token.len() > 0,
        rest.len() > 0 ==> is_whitespace(rest[0]),
    ensures
        first_token(space + token + rest) == token,
        after_first_token(space + token + rest) == rest,
{
    let whole = space + token + rest;
    lemma_run_len_is(whole, CharClass::Whitespace, space.len() as int);
    lemma_run_len_is(trim_start(whole), CharClass::NonWhitespace, token.len() as int);
}

/// The parts of a target without white space are parts that a target can
/// carry. Whatever the target holds, its path holds no question mark, and
/// it never stands for an empty path without a query string.
pub proof fn lemma_target_parts_fit(target: Seq<char>)
    ensures
        is_spaceless(target) ==> fits_target(target_parts(target).0, target_parts(target).1),
        !target_parts(target).0.contains('?'),
        target_parts(target).0.len() > 0 || target_parts(target).1 is Some,
{
    reveal_strlit("/");
    lemma_run_len(target, CharClass::Except('?'));
}

/// A path without a question mark and a query string, joined into a
/// target, are the parts of that target, unless the path is empty and
/// there is no query string.
pub proof fn lemma_target_parts_joined(path: Seq<char>, query: Option<Seq<char>>)
    requires
        !path.contains('?'),
        path.len() > 0 || query is Some,
    ensures
        target_parts(join_target(path, query)) == (path, query),
{
    lemma_run_len_is(join_target(path, query), CharClass::Except('?'), path.len() as int);
}

/// A target joined from a path and a query string without white space
/// holds no white space, and it is empty only where the path is empty and
/// there is no query string.
pub proof fn lemma_join_target_spaceless(path: Seq<char>, query: Option<Seq<char>>)
    requires
        is_spaceless(path),
        query matches Some(text) ==> is_spaceless(text),
    ensures
        is_spaceless(join_target(path, query)),
        join_target(path, query).len() > 0 <==> path.len() > 0 || query is Some,
{
}

} // verus!
