//! Fields of a package identifier.
//!
//! The package daemon names a package by one string of fields that are
//! separated by `;`, as in `name;version;architecture`. Any text is an
//! identifier: a field that is not there reads as the empty text.

use vstd::prelude::*;
use vstd::std_specs::iter::IteratorSpec;
use vstd::string::StrSliceExecFns;

verus! {

/// The character between two fields of an identifier.
pub const SEPARATOR: char = ';';

/// Whether `text` holds no separator.
pub open spec fn is_plain(text: Seq<char>) -> bool {
    forall|i: int| 0 <= i < text.len() ==> text[i] != SEPARATOR
}

/// How many characters stand before the first separator of `text`: all of
/// them where it holds none.
pub open spec fn first_len(text: Seq<char>) -> nat
    decreases text.len(),
{
    if text.len() == 0 || text[0] == SEPARATOR {
        0
    } else {
        1 + first_len(text.drop_first())
    }
}

/// Whether a separator ends the first field of `text`, so that more fields
/// follow it.
pub open spec fn has_rest(text: Seq<char>) -> bool {
    first_len(text) < text.len()
}

/// What follows the separator that ends the first field of `text`.
pub open spec fn rest(text: Seq<char>) -> Seq<char>
    recommends
        has_rest(text),
{
    text.skip(first_len(text) + 1 as int)
}

/// The field of `text` at position `k`, counted from zero; the empty text
/// where `text` has no such field.
pub open spec fn field(text: Seq<char>, k: nat) -> Seq<char>
    decreases k,
{
    if k == 0 {
        text.take(first_len(text) as int)
    } else if has_rest(text) {
        field(rest(text), (k - 1) as nat)
    } else {
        Seq::empty()
    }
}

/// How many separators `text` holds.
pub open spec fn separators(text: Seq<char>) -> nat {
    text.filter(|c: char| c == SEPARATOR).len()
}

/// The number of fields of `text`: one more than it holds separators, as
/// `lemma_field_count` shows.
pub open spec fn field_count(text: Seq<char>) -> nat
    decreases text.len(),
{
    if has_rest(text) {
        1 + field_count(rest(text))
    } else {
        1
    }
}

/// `first_len` is the position of the first separator: it lies within the
/// text, nothing before it is a separator, and a separator stands there
/// unless the text ends.
pub proof fn lemma_first_len(text: Seq<char>)
    ensures
        first_len(text) <= text.len(),
        is_plain(text.take(first_len(text) as int)),
        has_rest(text) ==> text[first_len(text) as int] == SEPARATOR,
    decreases text.len(),
{
    if text.len() == 0 || text[0] == SEPARATOR {
    } else {
        let tail = text.drop_first();
        lemma_first_len(tail);
        let head = text.take(first_len(text) as int);
        assert forall|i: int| 0 <= i < head.len() implies head[i] != SEPARATOR by {
            if i > 0 {
                assert(head[i] == tail.take(first_len(tail) as int)[i - 1]);
            }
        }
    }
}

/// The position that `lemma_first_len` describes is the only one of its kind.
pub proof fn lemma_first_len_is(text: Seq<char>, n: int)
    requires
        0 <= n <= text.len(),
        is_plain(text.take(n)),
        n < text.len() ==> text[n] == SEPARATOR,
    ensures
        first_len(text) == n,
    decreases n,
{
    if n == 0 {
    } else {
        assert(text[0] == text.take(n)[0]);
        let tail = text.drop_first();
        let front = tail.take(n - 1);
        assert forall|i: int| 0 <= i < front.len() implies front[i] != SEPARATOR by {
            assert(front[i] == text.take(n)[i + 1]);
        }
        lemma_first_len_is(tail, n - 1);
    }
}

/// A text in which no character is a separator holds none.
pub proof fn lemma_plain_holds_no_separator(text: Seq<char>)
    requires
        is_plain(text),
    ensures
        separators(text) == 0,
{
    let found = text.filter(|c: char| c == SEPARATOR);
    if found.len() > 0 {
        text.lemma_filter_pred(|c: char| c == SEPARATOR, 0);
        assert(found.contains(found[0]));
        text.lemma_filter_contains_rev(|c: char| c == SEPARATOR, found[0]);
    }
}

/// A text has one field more than it holds separators.
pub proof fn lemma_field_count(text: Seq<char>)
    ensures
        field_count(text) == 1 + separators(text),
    decreases text.len(),
{
    let n = first_len(text) as int;
    let first = text.take(n);
    lemma_first_len(text);
    lemma_plain_holds_no_separator(first);
    if has_rest(text) {
        let more = rest(text);
        let one = seq![SEPARATOR];
        let is_separator = |c: char| c == SEPARATOR;
        lemma_field_count(more);
        assert(text == first + one + more);
        Seq::filter_distributes_over_add(first + one, more, is_separator);
        Seq::filter_distributes_over_add(first, one, is_separator);
        assert(one.filter(is_separator) == one) by {
            reveal(Seq::filter);
            assert(one.drop_last() == Seq::<char>::empty());
            assert(one.drop_last().filter(is_separator) == Seq::<char>::empty());
        }
    } else {
        assert(first == text);
    }
}

/// A text without a separator is its own first and only field.
pub proof fn lemma_plain_text(text: Seq<char>)
    requires
        is_plain(text),
    ensures
        !has_rest(text),
        field_count(text) == 1,
        field(text, 0) == text,
        forall|k: nat| k > 0 ==> #[trigger] field(text, k) == Seq::<char>::empty(),
{
    assert(text.take(text.len() as int) == text);
    lemma_first_len_is(text, text.len() as int);
}

/// Where `first` holds no separator, the text made of `first`, a separator
/// and `more` has `first` as its first field, and its later fields are
/// those of `more`.
pub proof fn lemma_joined_text(first: Seq<char>, more: Seq<char>)
    requires
        is_plain(first),
    ensures
        has_rest(first.push(SEPARATOR) + more),
        rest(first.push(SEPARATOR) + more) == more,
        field(first.push(SEPARATOR) + more, 0) == first,
        field_count(first.push(SEPARATOR) + more) == 1 + field_count(more),
        forall|k: nat|
            k > 0 ==> #[trigger] field(first.push(SEPARATOR) + more, k) == field(
                more,
                (k - 1) as nat,
            ),
{
    let text = first.push(SEPARATOR) + more;
    let n = first.len() as int;
    assert(text.take(n) == first);
    assert(text[n] == SEPARATOR);
    lemma_first_len_is(text, n);
    assert(text.skip(n + 1) == more);
}

/// No field holds a separator.
pub proof fn lemma_field_is_plain(text: Seq<char>, k: nat)
    ensures
        is_plain(field(text, k)),
    decreases k,
{
    if k == 0 {
        lemma_first_len(text);
    } else if has_rest(text) {
        lemma_field_is_plain(rest(text), (k - 1) as nat);
    }
}

/// A field that the text does not have is empty: with `n` fields in the
/// text, every position from `n` on reads as the empty text.
pub proof fn lemma_missing_field_is_empty(text: Seq<char>, k: nat)
    requires
        k >= field_count(text),
    ensures
        field(text, k) == Seq::<char>::empty(),
    decreases k,
{
    if has_rest(text) {
        lemma_missing_field_is_empty(rest(text), (k - 1) as nat);
    }
}

/// A text that holds no separator is the first field of whatever begins
/// with it and then ends or goes on with a separator.
pub proof fn lemma_first_field(first: Seq<char>, tail: Seq<char>)
    requires
        is_plain(first),
        tail.len() == 0 || tail[0] == SEPARATOR,
    ensures
        field(first + tail, 0) == first,
        has_rest(first + tail) == (tail.len() > 0),
{
    let text = first + tail;
    let n = first.len() as int;
    assert(text.take(n) == first);
    if tail.len() > 0 {
        assert(text[n] == tail[0]);
    }
    lemma_first_len_is(text, n);
}

/// The first three fields do not depend on what follows them: where `a`,
/// `b` and `c` hold no separator, a text that begins with `a;b;c` and then
/// ends or goes on with a separator has the fields `a`, `b` and `c` at
/// positions 0, 1 and 2, whatever comes after.
pub proof fn lemma_first_three_fields(a: Seq<char>, b: Seq<char>, c: Seq<char>, tail: Seq<char>)
    requires
        is_plain(a),
        is_plain(b),
        is_plain(c),
        tail.len() == 0 || tail[0] == SEPARATOR,
    ensures
        ({
            let text = a.push(SEPARATOR) + (b.push(SEPARATOR) + (c + tail));
            &&& field(text, 0) == a
            &&& field(text, 1) == b
            &&& field(text, 2) == c
            &&& field_count(text) >= 3
        }),
{
    let from_c = c + tail;
    let from_b = b.push(SEPARATOR) + from_c;
    let text = a.push(SEPARATOR) + from_b;
    lemma_first_field(c, tail);
    lemma_joined_text(b, from_c);
    lemma_joined_text(a, from_b);
    assert(field(text, 1) == field(from_b, 0));
    assert(field(from_b, 1) == field(from_c, 0));
    assert(field(text, 2) == field(from_b, 1));
}

/// Splits `text` at its first separator: the first field, and what follows
/// the separator where there is one.
pub fn split_first<'a>(text: &'a str) -> (parts: (&'a str, Option<&'a str>))
    ensures
        parts.0@ == field(text@, 0),
        parts.1 is Some == has_rest(text@),
        parts.1 matches Some(more) ==> more@ == rest(text@),
{
    let len = text.unicode_len();
    let mut chars = text.chars();
    let mut n: usize = 0;
    let mut found = false;
    loop
        invariant_except_break
            chars.remaining() == text@.skip(n as int),
        invariant
            len == text@.len(),
            n <= len,
            is_plain(text@.take(n as int)),
            found ==> n < len && text@[n as int] == SEPARATOR,
        ensures
            found || n == len,
        decreases len - n,
    {
        match chars.next() {
            Some(c) => {
                if c == SEPARATOR {
                    found = true;
                    break ;
                }
                n = n + 1;
            },
            None => {
                break ;
            },
        }
    }
    proof {
        lemma_first_len_is(text@, n as int);
    }
    if found {
        (text.substring_char(0, n), Some(text.substring_char(n + 1, len)))
    } else {
        (text, None)
    }
}

/// Splits what remains of an identifier after a field was read from it.
/// Where nothing remains, the field is the empty text and nothing remains
/// after it either.
pub fn split_next<'a>(remaining: Option<&'a str>) -> (parts: (&'a str, Option<&'a str>))
    ensures
        match remaining {
            Some(text) => {
                &&& parts.0@ == field(text@, 0)
                &&& parts.1 is Some == has_rest(text@)
                &&& parts.1 matches Some(more) ==> more@ == rest(text@)
            },
            None => parts.0@ == Seq::<char>::empty() && parts.1 is None,
        },
{
    match remaining {
        Some(text) => split_first(text),
        None => {
            proof {
                reveal_strlit("");
            }
            ("", None)
        },
    }
}

} // verus!
