//! Characters of strings, white space, and joining.

use vstd::prelude::*;
use vstd::string::StringExecFns;

verus! {

/// Whether a character is white space, as `char::is_whitespace` of the
/// standard library decides it. Nothing more is said of it here: which
/// characters are white space is left to the standard library.
pub uninterp spec fn is_whitespace(c: char) -> bool;

/// Asks `char::is_whitespace` whether `c` is white space.
///
/// Taken on trust: the answer depends on the character alone, so that it
/// can go by the name `is_whitespace(c)`.
#[verifier::external_body]
pub(crate) fn char_is_whitespace(c: char) -> (b: bool)
    ensures
        b == is_whitespace(c),
{
    c.is_whitespace()
}

/// Appends one character to a string, by `String::push`.
///
/// Taken on trust: the string then holds the characters it held, followed
/// by `c`.
#[verifier::external_body]
pub(crate) fn push_char(text: &mut String, c: char)
    ensures
        final(text)@ == old(text)@.push(c),
{
    text.push(c)
}

/// The characters of a string, in order.
pub fn chars_of(text: &str) -> (chars: Vec<char>)
    ensures
        chars@ == text@,
{
    let mut chars: Vec<char> = Vec::new();
    for c in it: text.chars()
        invariant
            it.seq() == text@,
            chars@ == text@.take(it.index()),
    {
        chars.push(c);
    }
    chars
}

/// The string made of the given characters, in order.
pub fn string_of(chars: &Vec<char>) -> (text: String)
    ensures
        text@ == chars@,
{
    let mut text = String::new();
    let mut i: usize = 0;
    while i < chars.len()
        invariant
            i <= chars.len(),
            text@ == chars@.take(i as int),
        decreases chars.len() - i,
    {
        push_char(&mut text, chars[i]);
        i = i + 1;
    }
    text
}

/// The number of white-space characters that a text begins with.
pub open spec fn leading_whitespace(text: Seq<char>) -> nat
    decreases text.len(),
{
    if text.len() > 0 && is_whitespace(text.first()) {
        1 + leading_whitespace(text.drop_first())
    } else {
        0
    }
}

/// The number of white-space characters that a text ends with.
pub open spec fn trailing_whitespace(text: Seq<char>) -> nat
    decreases text.len(),
{
    if text.len() > 0 && is_whitespace(text.last()) {
        1 + trailing_whitespace(text.drop_last())
    } else {
        0
    }
}

/// A text without the white space that it begins and ends with.
pub open spec fn trimmed(text: Seq<char>) -> Seq<char> {
    let rest = text.skip(leading_whitespace(text) as int);
    rest.take(rest.len() - trailing_whitespace(rest))
}

/// Counts the white-space characters that `chars` begins with.
pub fn count_leading_whitespace(chars: &Vec<char>) -> (n: usize)
    ensures
        n == leading_whitespace(chars@),
        n <= chars.len(),
{
    let mut n: usize = 0;
    assert(chars@.skip(0) =~= chars@);
    while n < chars.len() && char_is_whitespace(chars[n])
        invariant
            n <= chars.len(),
            leading_whitespace(chars@) == n + leading_whitespace(chars@.skip(n as int)),
        decreases chars.len() - n,
    {
        proof {
            let rest = chars@.skip(n as int);
            assert(rest.first() == chars@[n as int]);
            assert(rest.drop_first() =~= chars@.skip(n + 1));
        }
        n = n + 1;
    }
    proof {
        let rest = chars@.skip(n as int);
        if n < chars.len() {
            assert(rest.first() == chars@[n as int]);
        }
    }
    n
}

/// Counts the white-space characters that `chars` ends with, looking no
/// further back than the position `from`.
pub fn count_trailing_whitespace(chars: &Vec<char>, from: usize) -> (n: usize)
    requires
        from <= chars.len(),
    ensures
        n == trailing_whitespace(chars@.skip(from as int)),
        from + n <= chars.len(),
{
    let ghost rest = chars@.skip(from as int);
    let mut end: usize = chars.len();
    assert(rest.take(chars.len() - from) =~= rest);
    while end > from && char_is_whitespace(chars[end - 1])
        invariant
            from <= end <= chars.len(),
            rest == chars@.skip(from as int),
            trailing_whitespace(rest) == (chars.len() - end) + trailing_whitespace(
                rest.take(end - from),
            ),
        decreases end,
    {
        proof {
            let head = rest.take(end - from);
            assert(head.last() == chars@[end - 1]);
            assert(head.drop_last() =~= rest.take(end - 1 - from));
        }
        end = end - 1;
    }
    proof {
        let head = rest.take(end - from);
        if end > from {
            assert(head.last() == chars@[end - 1]);
        }
    }
    chars.len() - end
}

/// The texts of a list of strings.
pub open spec fn texts(items: Seq<String>) -> Seq<Seq<char>> {
    items.map_values(|item: String| item@)
}

/// The items written one after the other, with the separator between each
/// two neighbours.
pub open spec fn joined(items: Seq<Seq<char>>, separator: Seq<char>) -> Seq<char>
    decreases items.len(),
{
    if items.len() == 0 {
        Seq::empty()
    } else if items.len() == 1 {
        items.first()
    } else {
        items.first() + separator + joined(items.drop_first(), separator)
    }
}

/// Joining one more item: it follows the others after a separator, or
/// stands alone where there were none.
pub proof fn lemma_joined_push(items: Seq<Seq<char>>, separator: Seq<char>, item: Seq<char>)
    ensures
        joined(items.push(item), separator) == if items.len() == 0 {
            item
        } else {
            joined(items, separator) + separator + item
        },
    decreases items.len(),
{
    let all = items.push(item);
    if items.len() == 0 {
    } else if items.len() == 1 {
        assert(all.drop_first() =~= seq![item]);
        assert(joined(all.drop_first(), separator) == item);
    } else {
        assert(all.drop_first() =~= items.drop_first().push(item));
        lemma_joined_push(items.drop_first(), separator, item);
        assert(joined(all, separator) =~= joined(items, separator) + separator + item);
    }
}

/// Appends the items to `out`, with the separator between each two
/// neighbours.
pub fn append_joined(out: &mut String, items: &Vec<String>, separator: &str)
    ensures
        final(out)@ == old(out)@ + joined(texts(items@), separator@),
{
    let ghost all = texts(items@);
    let mut i: usize = 0;
    assert(all.take(0) =~= Seq::<Seq<char>>::empty());
    assert(out@ + Seq::<char>::empty() =~= out@);
    while i < items.len()
        invariant
            i <= items.len(),
            all == texts(items@),
            out@ == old(out)@ + joined(all.take(i as int), separator@),
        decreases items.len() - i,
    {
        proof {
            lemma_joined_push(all.take(i as int), separator@, all[i as int]);
            assert(all.take(i as int).push(all[i as int]) =~= all.take(i + 1));
        }
        if i > 0 {
            out.append(separator);
        }
        out.append(items[i].as_str());
        assert(out@ =~= old(out)@ + joined(all.take(i + 1), separator@));
        i = i + 1;
    }
    assert(all.take(i as int) =~= all);
}

} // verus!
