//! Escaping of text for the MarkdownV2 dialect of the notification channel.

use vstd::prelude::*;

verus! {

/// The character that escapes a reserved character.
pub open spec fn escape_mark() -> char {
    '\\'
}

/// The characters that MarkdownV2 reserves for markup.
pub open spec fn is_reserved(c: char) -> bool {
    c == '_' || c == '*' || c == '[' || c == ']' || c == '(' || c == ')' || c == '~' || c == '`'
        || c == '>' || c == '#' || c == '+' || c == '-' || c == '=' || c == '|' || c == '{' || c
        == '}' || c == '.' || c == '!'
}

/// What one character becomes: itself, after the escape mark if it is reserved.
pub open spec fn escaped_char(c: char) -> Seq<char> {
    if is_reserved(c) {
        seq![escape_mark(), c]
    } else {
        seq![c]
    }
}

/// The escaped form of a text: each character's escaped form, in order.
pub open spec fn escaped(text: Seq<char>) -> Seq<char>
    decreases text.len(),
{
    if text.len() == 0 {
        Seq::empty()
    } else {
        escaped(text.drop_last()) + escaped_char(text.last())
    }
}

fn reserved(c: char) -> (r: bool)
    ensures
        r == is_reserved(c),
{
    c == '_' || c == '*' || c == '[' || c == ']' || c == '(' || c == ')' || c == '~' || c == '`'
        || c == '>' || c == '#' || c == '+' || c == '-' || c == '=' || c == '|' || c == '{' || c
        == '}' || c == '.' || c == '!'
}

/// Escapes every reserved character of `text` with one preceding backslash.
pub fn escape_for_telegram_markdown_v2(text: &str) -> (out: String)
    ensures
        out@ == escaped(text@),
{
    let mut out = String::new();
    for c in it: text.chars()
        invariant
            it.seq() == text@,
            out@ == escaped(text@.take(it.index() as int)),
    {
        assert(text@.take(it.index() + 1).drop_last() =~= text@.take(it.index() as int));
        if reserved(c) {
            out.push('\\');
        }
        out.push(c);
        assert(out@ =~= escaped(text@.take(it.index() + 1)));
    }
    assert(text@.take(text@.len() as int) =~= text@);
    out
}

/// How many characters of a text are reserved.
pub open spec fn reserved_count(text: Seq<char>) -> nat
    decreases text.len(),
{
    if text.len() == 0 {
        0
    } else {
        reserved_count(text.drop_last()) + if is_reserved(text.last()) {
            1nat
        } else {
            0nat
        }
    }
}

/// The text that an escaped text stands for: each escape mark that stands
/// before a reserved character is dropped.
pub open spec fn unescaped(text: Seq<char>) -> Seq<char>
    decreases text.len(),
{
    if text.len() == 0 {
        Seq::empty()
    } else if text[0] == escape_mark() && text.len() >= 2 && is_reserved(text[1]) {
        seq![text[1]] + unescaped(text.skip(2))
    } else {
        seq![text[0]] + unescaped(text.skip(1))
    }
}

/// Escaping two texts one after the other escapes their concatenation.
pub proof fn escaped_concat(a: Seq<char>, b: Seq<char>)
    ensures
        escaped(a + b) == escaped(a) + escaped(b),
    decreases b.len(),
{
    if b.len() == 0 {
        assert(a + b =~= a);
        assert(escaped(a) + escaped(b) =~= escaped(a));
    } else {
        assert((a + b).drop_last() =~= a + b.drop_last());
        assert((a + b).last() == b.last());
        escaped_concat(a, b.drop_last());
        assert(escaped(a + b) =~= escaped(a) + escaped(b));
    }
}

/// Escaping adds exactly one character for each reserved character.
pub proof fn escaped_length(text: Seq<char>)
    ensures
        escaped(text).len() == text.len() + reserved_count(text),
    decreases text.len(),
{
    if text.len() > 0 {
        escaped_length(text.drop_last());
    }
}

/// In an escaped text every reserved character stands directly behind an
/// escape mark.
pub proof fn reserved_follows_escape_mark(text: Seq<char>, j: int)
    requires
        0 <= j < escaped(text).len(),
        is_reserved(escaped(text)[j]),
    ensures
        j > 0,
        escaped(text)[j - 1] == escape_mark(),
    decreases text.len(),
{
    if text.len() > 0 {
        let head = escaped(text.drop_last());
        if j < head.len() {
            reserved_follows_escape_mark(text.drop_last(), j);
        }
    }
}

/// Escaping loses nothing: dropping the escape marks gives the text back.
pub proof fn unescaped_escaped(text: Seq<char>)
    ensures
        unescaped(escaped(text)) == text,
    decreases text.len(),
{
    if text.len() > 0 {
        let c = text[0];
        let rest = text.skip(1);
        assert(text =~= seq![c] + rest);
        escaped_concat(seq![c], rest);
        assert(escaped(seq![c]) =~= escaped_char(c)) by {
            assert(seq![c].drop_last() =~= Seq::<char>::empty());
            assert(escaped(Seq::<char>::empty()) =~= Seq::<char>::empty());
        }
        let out = escaped(text);
        assert(out == escaped_char(c) + escaped(rest));
        unescaped_escaped(rest);
        if is_reserved(c) {
            assert(out.skip(2) =~= escaped(rest));
        } else {
            if escaped(rest).len() > 0 && is_reserved(escaped(rest)[0]) {
                reserved_follows_escape_mark(rest, 0);
            }
            assert(out.skip(1) =~= escaped(rest));
        }
        assert(unescaped(out) =~= text);
    }
}

} // verus!
