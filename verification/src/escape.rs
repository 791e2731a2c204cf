//! Quote doubling for text that is spliced between SQL delimiters.

use vstd::prelude::*;

verus! {

/// `text` with every occurrence of `quote` written twice and every other
/// character kept as it is, in order.
pub open spec fn doubled(text: Seq<char>, quote: char) -> Seq<char>
    decreases text.len(),
{
    if text.len() == 0 {
        Seq::empty()
    } else if text.last() == quote {
        doubled(text.drop_last(), quote).push(quote).push(quote)
    } else {
        doubled(text.drop_last(), quote).push(text.last())
    }
}

/// The test that a character is `c`.
pub open spec fn is_char(c: char) -> spec_fn(char) -> bool {
    |x: char| x == c
}

/// The test that a character is not `c`.
pub open spec fn is_other_than(c: char) -> spec_fn(char) -> bool {
    |x: char| x != c
}

/// How often `c` occurs in `text`.
pub open spec fn occurrences(text: Seq<char>, c: char) -> nat {
    text.filter(is_char(c)).len()
}

/// `text` with every occurrence of `c` left out.
pub open spec fn without(text: Seq<char>, c: char) -> Seq<char> {
    text.filter(is_other_than(c))
}

/// `String::push` of the standard library: appends one character to the end
/// of the string and changes nothing else.
pub assume_specification[ String::push ](s: &mut String, ch: char)
    ensures
        final(s)@ == old(s)@.push(ch),
;

/// Copies `text`, writing `quote` twice wherever it occurs.
fn double_each(text: &str, quote: char) -> (out: String)
    ensures
        out@ == doubled(text@, quote),
{
    let mut out = String::new();
    for c in it: text.chars()
        invariant
            it.seq() == text@,
            out@ == doubled(text@.take(it.index()), quote),
    {
        proof {
            let seen = text@.take(it.index() + 1);
            assert(seen.drop_last() == text@.take(it.index()));
            assert(seen.last() == c);
        }
        if c == quote {
            out.push(quote);
        }
        out.push(c);
    }
    proof {
        assert(text@.take(text@.len() as int) == text@);
    }
    out
}

/// Escapes `ident` for use between double quotes: each `"` becomes `""`.
pub fn escape_ident(ident: &str) -> (escaped: String)
    ensures
        escaped@ == doubled(ident@, '"'),
{
    double_each(ident, '"')
}

/// Escapes `ident` for use between single quotes: each `'` becomes `''`.
pub fn escape_ident_as_value(ident: &str) -> (escaped: String)
    ensures
        escaped@ == doubled(ident@, '\''),
{
    double_each(ident, '\'')
}

/// Filtering a sequence that ends in `last` filters what is before it and
/// then decides on `last`.
proof fn lemma_filter_push(s: Seq<char>, last: char, pred: spec_fn(char) -> bool)
    ensures
        s.push(last).filter(pred) == if pred(last) {
            s.filter(pred).push(last)
        } else {
            s.filter(pred)
        },
{
    reveal(Seq::filter);
    assert(s.push(last).drop_last() == s);
}

/// Doubling works character by character: the doubling of two texts put
/// together is their doublings put together.
pub proof fn law_doubling_distributes(a: Seq<char>, b: Seq<char>, quote: char)
    ensures
        doubled(a + b, quote) == doubled(a, quote) + doubled(b, quote),
    decreases b.len(),
{
    if b.len() == 0 {
        assert(a + b == a);
    } else {
        assert((a + b).drop_last() == a + b.drop_last());
        law_doubling_distributes(a, b.drop_last(), quote);
    }
}

/// Every quote of the text becomes exactly two quotes.
pub proof fn law_quotes_are_doubled(text: Seq<char>, quote: char)
    ensures
        occurrences(doubled(text, quote), quote) == 2 * occurrences(text, quote),
    decreases text.len(),
{
    let is_quote = is_char(quote);
    if text.len() == 0 {
    } else {
        let init = text.drop_last();
        law_quotes_are_doubled(init, quote);
        assert(init.push(text.last()) == text);
        lemma_filter_push(init, text.last(), is_quote);
        if text.last() == quote {
            lemma_filter_push(doubled(init, quote), quote, is_quote);
            lemma_filter_push(doubled(init, quote).push(quote), quote, is_quote);
        } else {
            lemma_filter_push(doubled(init, quote), text.last(), is_quote);
        }
    }
}

/// No other character changes: with the quotes left out, the escaped text
/// and the text are the same.
pub proof fn law_other_characters_are_kept(text: Seq<char>, quote: char)
    ensures
        without(doubled(text, quote), quote) == without(text, quote),
    decreases text.len(),
{
    let not_quote = is_other_than(quote);
    if text.len() == 0 {
    } else {
        let init = text.drop_last();
        law_other_characters_are_kept(init, quote);
        assert(init.push(text.last()) == text);
        lemma_filter_push(init, text.last(), not_quote);
        if text.last() == quote {
            lemma_filter_push(doubled(init, quote), quote, not_quote);
            lemma_filter_push(doubled(init, quote).push(quote), quote, not_quote);
        } else {
            lemma_filter_push(doubled(init, quote), text.last(), not_quote);
        }
    }
}

/// The escaped text is longer than the text by one character for each quote.
pub proof fn law_escaped_length(text: Seq<char>, quote: char)
    ensures
        doubled(text, quote).len() == text.len() + occurrences(text, quote),
    decreases text.len(),
{
    if text.len() == 0 {
    } else {
        let init = text.drop_last();
        law_escaped_length(init, quote);
        assert(init.push(text.last()) == text);
        lemma_filter_push(init, text.last(), is_char(quote));
    }
}

/// Escaping loses nothing: two texts with the same escaped form are the
/// same text.
pub proof fn law_escaping_is_injective(a: Seq<char>, b: Seq<char>, quote: char)
    requires
        doubled(a, quote) == doubled(b, quote),
    ensures
        a == b,
    decreases a.len(),
{
    if a.len() == 0 || b.len() == 0 {
        assert(doubled(a, quote).len() == 0 <==> a.len() == 0);
        assert(doubled(b, quote).len() == 0 <==> b.len() == 0);
        assert(a == b);
    } else {
        let da = doubled(a.drop_last(), quote);
        let db = doubled(b.drop_last(), quote);
        assert(doubled(a, quote).last() == a.last());
        assert(doubled(b, quote).last() == b.last());
        if a.last() == quote {
            assert(da == da.push(quote).push(quote).drop_last().drop_last());
            assert(db == db.push(quote).push(quote).drop_last().drop_last());
        } else {
            assert(da == da.push(a.last()).drop_last());
            assert(db == db.push(b.last()).drop_last());
        }
        law_escaping_is_injective(a.drop_last(), b.drop_last(), quote);
        assert(a == a.drop_last().push(a.last()));
        assert(b == b.drop_last().push(b.last()));
    }
}

/// Escaping is not idempotent. Escaping an escaped text doubles its quotes
/// once more, so the result is the escaped text again only where the text
/// holds no quote at all; and then escaping changed nothing in the first
/// place.
pub proof fn law_escaping_twice_escapes_again(text: Seq<char>, quote: char)
    ensures
        occurrences(doubled(doubled(text, quote), quote), quote) == 4 * occurrences(text, quote),
        doubled(doubled(text, quote), quote) == doubled(text, quote) <==> occurrences(
            text,
            quote,
        ) == 0,
        occurrences(text, quote) == 0 <==> doubled(text, quote) == text,
{
    let once = doubled(text, quote);
    law_quotes_are_doubled(text, quote);
    law_quotes_are_doubled(once, quote);
    law_escaped_length(text, quote);
    law_escaped_length(once, quote);
    if occurrences(text, quote) == 0 {
        lemma_unquoted_is_unchanged(text, quote);
    }
}

/// A text without quotes is its own escaped form.
proof fn lemma_unquoted_is_unchanged(text: Seq<char>, quote: char)
    requires
        occurrences(text, quote) == 0,
    ensures
        doubled(text, quote) == text,
    decreases text.len(),
{
    if text.len() == 0 {
    } else {
        let init = text.drop_last();
        assert(init.push(text.last()) == text);
        lemma_filter_push(init, text.last(), is_char(quote));
        lemma_unquoted_is_unchanged(init, quote);
    }
}

} // verus!
