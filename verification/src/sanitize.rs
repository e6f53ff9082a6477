//! Escaping of the texts that go into a statement.

use crate::text::{chars_of, count_leading_whitespace, leading_whitespace, string_of};
use vstd::prelude::*;

verus! {

/// What stands for one character in a sanitized text: a backslash, a quote
/// of either kind, a line feed, a carriage return and a tab are written as
/// a backslash and a second character; any other character stays.
pub open spec fn escaped_char(c: char) -> Seq<char> {
    if c == '\\' {
        seq!['\\', '\\']
    } else if c == '\'' {
        seq!['\\', '\'']
    } else if c == '"' {
        seq!['\\', '"']
    } else if c == '\n' {
        seq!['\\', 'n']
    } else if c == '\r' {
        seq!['\\', 'r']
    } else if c == '\t' {
        seq!['\\', 't']
    } else {
        seq![c]
    }
}

/// The escapes of the characters of a text, up to the first occurrence of
/// the stop character where there is one.
pub open spec fn escaped_until(text: Seq<char>, stop: Option<char>) -> Seq<char>
    decreases text.len(),
{
    if text.len() == 0 || stop == Some(text.first()) {
        Seq::empty()
    } else {
        escaped_char(text.first()) + escaped_until(text.drop_first(), stop)
    }
}

/// Whether a text begins with the two given characters.
pub open spec fn opens_with(text: Seq<char>, first: char, second: char) -> bool {
    text.len() >= 2 && text[0] == first && text[1] == second
}

/// The character at which sanitizing stops: a text that, from `start` on,
/// opens a line comment (`--`) is cut at its first dash, and one that opens
/// a block comment (`/*`) at its first slash.
pub open spec fn stop_char(text: Seq<char>, start: int) -> Option<char> {
    if opens_with(text.skip(start), '-', '-') {
        Some('-')
    } else if opens_with(text.skip(start), '/', '*') {
        Some('/')
    } else {
        None
    }
}

/// A text sanitized, where its first character that is no white space
/// stands at `start`.
pub open spec fn sanitized_from(text: Seq<char>, start: int) -> Seq<char> {
    escaped_until(text, stop_char(text, start))
}

/// A text sanitized: escaped character by character, and cut where the
/// comment begins if, after its leading white space, it opens a comment.
pub open spec fn sanitized(text: Seq<char>) -> Seq<char> {
    sanitized_from(text, leading_whitespace(text) as int)
}

/// Appends what stands for `c` in a sanitized text.
fn push_escaped(out: &mut Vec<char>, c: char)
    ensures
        final(out)@ == old(out)@ + escaped_char(c),
{
    if c == '\\' {
        out.push('\\');
        out.push('\\');
    } else if c == '\'' {
        out.push('\\');
        out.push('\'');
    } else if c == '"' {
        out.push('\\');
        out.push('"');
    } else if c == '\n' {
        out.push('\\');
        out.push('n');
    } else if c == '\r' {
        out.push('\\');
        out.push('r');
    } else if c == '\t' {
        out.push('\\');
        out.push('t');
    } else {
        out.push(c);
    }
    assert(out@ =~= old(out)@ + escaped_char(c));
}

/// Whether `chars` holds the two given characters at `start`.
fn opens_with_at(chars: &Vec<char>, start: usize, first: char, second: char) -> (found: bool)
    requires
        start <= chars.len(),
    ensures
        found == opens_with(chars@.skip(start as int), first, second),
{
    chars.len() - start >= 2 && chars[start] == first && chars[start + 1] == second
}

/// Sanitizes `chars`, given the position `start` of its first character
/// that is no white space.
pub fn sanitize_from(chars: &Vec<char>, start: usize) -> (out: Vec<char>)
    requires
        start <= chars.len(),
    ensures
        out@ == sanitized_from(chars@, start as int),
{
    let stop: Option<char> = if opens_with_at(chars, start, '-', '-') {
        Some('-')
    } else if opens_with_at(chars, start, '/', '*') {
        Some('/')
    } else {
        None
    };
    let mut out: Vec<char> = Vec::new();
    let mut i: usize = 0;
    assert(chars@.skip(0) =~= chars@);
    while i < chars.len() && !is_stop(stop, chars[i])
        invariant
            i <= chars.len(),
            escaped_until(chars@, stop) == out@ + escaped_until(chars@.skip(i as int), stop),
        decreases chars.len() - i,
    {
        proof {
            let rest = chars@.skip(i as int);
            assert(rest.first() == chars@[i as int]);
            assert(rest.drop_first() =~= chars@.skip(i + 1));
            assert(out@ + (escaped_char(rest.first()) + escaped_until(rest.drop_first(), stop))
                =~= (out@ + escaped_char(rest.first())) + escaped_until(rest.drop_first(), stop));
        }
        push_escaped(&mut out, chars[i]);
        i = i + 1;
    }
    proof {
        let rest = chars@.skip(i as int);
        if i < chars.len() {
            assert(rest.first() == chars@[i as int]);
        }
        assert(out@ + Seq::<char>::empty() =~= out@);
    }
    out
}

/// Whether `c` is the stop character.
fn is_stop(stop: Option<char>, c: char) -> (stops: bool)
    ensures
        stops == (stop == Some(c)),
{
    match stop {
        Some(s) => s == c,
        None => false,
    }
}

/// Escapes what would let a text break out of the statement it is put
/// into: backslashes, quotes, line feeds, carriage returns and tabs. A text
/// that opens a comment after its leading white space is cut where the
/// comment begins.
pub fn sql_injection_prevention(query: &str) -> (sanitized_query: String)
    ensures
        sanitized_query@ == sanitized(query@),
{
    let chars = chars_of(query);
    let start = count_leading_whitespace(&chars);
    string_of(&sanitize_from(&chars, start))
}

} // verus!
