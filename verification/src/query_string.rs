//! The text of a query string: how a list of entries is rendered, how such a
//! text is read back, and that reading gives back what was rendered.

use vstd::prelude::*;
use crate::escape::{escaped, is_escape_char, lemma_unescaped_inverts_escaped, unescaped};
use crate::query::{as_map, Pair};

verus! {

/// The sign between the entries of a query string.
pub open spec fn entry_separator() -> char {
    '&'
}

/// The sign between the key and the value of an entry.
pub open spec fn value_separator() -> char {
    '='
}

/// One entry as text: the key, `=`, the value, both percent-encoded.
pub open spec fn render_pair(pair: Pair) -> Seq<char> {
    escaped(pair.0) + seq![value_separator()] + escaped(pair.1)
}

/// The query string of a list of entries: each entry once, in order, joined
/// by `&`, with no separator before the first or after the last. The empty
/// list gives the empty text.
pub open spec fn render(pairs: Seq<Pair>) -> Seq<char>
    decreases pairs.len(),
{
    if pairs.len() == 0 {
        Seq::empty()
    } else if pairs.len() == 1 {
        render_pair(pairs[0])
    } else {
        render(pairs.drop_last()) + seq![entry_separator()] + render_pair(pairs.last())
    }
}

/// The first place of `c` in `s`, or -1 where `c` does not occur.
pub open spec fn first_index_of(s: Seq<char>, c: char) -> int
    decreases s.len(),
{
    if s.len() == 0 {
        -1
    } else if s[0] == c {
        0
    } else {
        let rest = first_index_of(s.drop_first(), c);
        if rest < 0 {
            -1
        } else {
            rest + 1
        }
    }
}

/// The last place of `c` in `s`, or -1 where `c` does not occur.
pub open spec fn last_index_of(s: Seq<char>, c: char) -> int
    decreases s.len(),
{
    if s.len() == 0 {
        -1
    } else if s.last() == c {
        s.len() - 1
    } else {
        last_index_of(s.drop_last(), c)
    }
}

/// Reads one entry: the key is what stands before the first `=`, the value
/// what stands after it, both read as percent-encoded text. A text without
/// `=` is a key with an empty value.
pub open spec fn parse_pair(text: Seq<char>) -> Pair {
    let at = first_index_of(text, value_separator());
    if 0 <= at < text.len() {
        (unescaped(text.take(at)), unescaped(text.skip(at + 1)))
    } else {
        (unescaped(text), Seq::empty())
    }
}

/// Reads a query string: splits it at every `&`, then each part at its first
/// `=`.
pub open spec fn parse(text: Seq<char>) -> Seq<Pair>
    decreases text.len(),
{
    let at = last_index_of(text, entry_separator());
    if 0 <= at < text.len() {
        parse(text.take(at)).push(parse_pair(text.skip(at + 1)))
    } else {
        seq![parse_pair(text)]
    }
}

/// Whether `c` occurs nowhere in `s`.
pub open spec fn free_of(s: Seq<char>, c: char) -> bool {
    forall|i: int| 0 <= i < s.len() ==> s[i] != c
}

/// Whether `s` begins with `head`.
pub open spec fn starts_with(s: Seq<char>, head: Seq<char>) -> bool {
    s.len() >= head.len() && s.take(head.len() as int) == head
}

/// Whether `s` ends with `tail`.
pub open spec fn ends_with(s: Seq<char>, tail: Seq<char>) -> bool {
    s.len() >= tail.len() && s.skip(s.len() - tail.len()) == tail
}

/// The query string of a list with one more entry at its end.
pub proof fn lemma_render_push(pairs: Seq<Pair>, pair: Pair)
    ensures
        render(pairs.push(pair)) == if pairs.len() == 0 {
            render_pair(pair)
        } else {
            render(pairs) + seq![entry_separator()] + render_pair(pair)
        },
{
    assert(pairs.push(pair).drop_last() =~= pairs);
}

proof fn lemma_first_index_after_prefix(head: Seq<char>, c: char, tail: Seq<char>)
    requires
        free_of(head, c),
    ensures
        first_index_of(head + seq![c] + tail, c) == head.len(),
    decreases head.len(),
{
    let s = head + seq![c] + tail;
    if head.len() == 0 {
        assert(s[0] == c);
    } else {
        assert(s[0] == head[0]);
        assert(s.drop_first() =~= head.drop_first() + seq![c] + tail);
        assert forall|i: int| 0 <= i < head.drop_first().len() implies head.drop_first()[i]
            != c by {
            assert(head.drop_first()[i] == head[i + 1]);
        }
        lemma_first_index_after_prefix(head.drop_first(), c, tail);
    }
}

proof fn lemma_last_index_absent(s: Seq<char>, c: char)
    requires
        free_of(s, c),
    ensures
        last_index_of(s, c) == -1,
    decreases s.len(),
{
    if s.len() > 0 {
        assert(s.last() == s[s.len() - 1]);
        lemma_last_index_absent(s.drop_last(), c);
    }
}

proof fn lemma_last_index_before_suffix(head: Seq<char>, c: char, tail: Seq<char>)
    requires
        free_of(tail, c),
    ensures
        last_index_of(head + seq![c] + tail, c) == head.len(),
    decreases tail.len(),
{
    let s = head + seq![c] + tail;
    if tail.len() == 0 {
        assert(s.last() == c);
    } else {
        assert(s.last() == tail.last());
        assert(tail.last() == tail[tail.len() - 1]);
        assert(s.drop_last() =~= head + seq![c] + tail.drop_last());
        lemma_last_index_before_suffix(head, c, tail.drop_last());
    }
}

/// A percent-encoded text holds neither separator.
pub proof fn lemma_escaped_is_free(text: Seq<char>)
    ensures
        free_of(escaped(text), entry_separator()),
        free_of(escaped(text), value_separator()),
{
    lemma_unescaped_inverts_escaped(text);
    assert forall|i: int| 0 <= i < escaped(text).len() implies escaped(text)[i]
        != entry_separator() && escaped(text)[i] != value_separator() by {
        assert(is_escape_char(escaped(text)[i]));
    }
}

/// Reading a rendered entry gives the entry back.
pub proof fn lemma_parse_pair_inverts(pair: Pair)
    ensures
        parse_pair(render_pair(pair)) == pair,
        free_of(render_pair(pair), entry_separator()),
{
    let key = escaped(pair.0);
    let value = escaped(pair.1);
    lemma_escaped_is_free(pair.0);
    lemma_escaped_is_free(pair.1);
    lemma_unescaped_inverts_escaped(pair.0);
    lemma_unescaped_inverts_escaped(pair.1);
    lemma_first_index_after_prefix(key, value_separator(), value);
    let text = render_pair(pair);
    assert(text.take(key.len() as int) =~= key);
    assert(text.skip(key.len() as int + 1) =~= value);
    assert forall|i: int| 0 <= i < text.len() implies text[i] != entry_separator() by {
        if i < key.len() {
            assert(text[i] == key[i]);
        } else if i > key.len() {
            assert(text[i] == value[i - key.len() - 1]);
        }
    }
}

/// Rendering a non-empty list of entries and reading the text back gives
/// the same entries, hence the same mapping, whatever the entries hold and
/// whatever their order is.
pub proof fn lemma_parse_inverts_render(pairs: Seq<Pair>)
    requires
        pairs.len() > 0,
    ensures
        parse(render(pairs)) == pairs,
        as_map(parse(render(pairs))) == as_map(pairs),
    decreases pairs.len(),
{
    let last = pairs.last();
    let tail = render_pair(last);
    lemma_parse_pair_inverts(last);
    if pairs.len() == 1 {
        lemma_last_index_absent(tail, entry_separator());
        assert(pairs =~= seq![last]);
    } else {
        let init = pairs.drop_last();
        let head = render(init);
        let text = render(pairs);
        assert(text == head + seq![entry_separator()] + tail);
        lemma_last_index_before_suffix(head, entry_separator(), tail);
        assert(text.take(head.len() as int) =~= head);
        assert(text.skip(head.len() as int + 1) =~= tail);
        lemma_parse_inverts_render(init);
        assert(init.push(last) =~= pairs);
    }
}

} // verus!
