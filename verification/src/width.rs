//! Display width of text, in terminal columns.
//!
//! The width of a single character comes from the `unicode-width` tables and
//! the cut at a column comes from `unicode-truncate`; everything else here is
//! verified against the two contracts that stand for them.

use unicode_truncate::UnicodeTruncateStr;
use unicode_width::UnicodeWidthChar;
use vstd::prelude::*;
use vstd::std_specs::iter::IteratorSpec;

verus! {

/// What `UnicodeWidthChar::width` of `unicode-width` returns for `c`: the
/// number of columns of the character, `None` for a control character.
pub uninterp spec fn unicode_char_width(c: char) -> Option<usize>;

/// The characters from the space to the tilde.
pub open spec fn is_printable_ascii(c: char) -> bool {
    ' ' <= c <= '~'
}

/// Columns that one character takes on screen. A printable ASCII character
/// takes one, a control character none, any other what the width tables say.
pub open spec fn columns(c: char) -> nat {
    if is_printable_ascii(c) {
        1
    } else {
        match unicode_char_width(c) {
            Some(w) => w as nat,
            None => 0,
        }
    }
}

/// Columns that a text takes on screen: the sum over its characters.
pub open spec fn text_width(text: Seq<char>) -> nat
    decreases text.len(),
{
    if text.len() == 0 {
        0
    } else {
        text_width(text.drop_last()) + columns(text.last())
    }
}

/// Number of leading characters of `text` that fit into `max_width` columns:
/// the length of the longest prefix whose width is at most `max_width`.
pub open spec fn fitting_len(text: Seq<char>, max_width: nat) -> nat
    decreases text.len(),
{
    if text.len() == 0 || text_width(text) <= max_width {
        text.len()
    } else {
        fitting_len(text.drop_last(), max_width)
    }
}

/// The longest prefix of `text` that is at most `max_width` columns wide.
pub open spec fn width_prefix(text: Seq<char>, max_width: nat) -> Seq<char> {
    text.take(fitting_len(text, max_width) as int)
}

/// Trusted: calls `UnicodeWidthChar::width` of `unicode-width`. The contract
/// names the result, and states the one case that the crate's source fixes
/// outright: a character from U+0020 to U+007E is one column wide.
#[verifier::external_body]
fn unicode_width_of(c: char) -> (r: Option<usize>)
    ensures
        r == unicode_char_width(c),
        is_printable_ascii(c) ==> r == Some(1usize),
{
    UnicodeWidthChar::width(c)
}

/// Trusted: calls `UnicodeTruncateStr::unicode_truncate` of
/// `unicode-truncate`. The crate walks the characters, adds up their widths
/// (none for a control character) and keeps the longest prefix whose sum does
/// not exceed `max_width`; it returns that prefix with its width.
#[verifier::external_body]
fn unicode_truncate<'a>(text: &'a str, max_width: usize) -> (r: (&'a str, usize))
    ensures
        r.0@ == width_prefix(text@, max_width as nat),
        r.1 == text_width(r.0@),
{
    text.unicode_truncate(max_width)
}

/// Columns that `c` takes on screen.
pub fn char_columns(c: char) -> (r: usize)
    ensures
        r == columns(c),
{
    match unicode_width_of(c) {
        Some(w) => w,
        None => 0,
    }
}

/// The width of a concatenation is the sum of the widths.
pub proof fn lemma_text_width_concat(a: Seq<char>, b: Seq<char>)
    ensures
        text_width(a + b) == text_width(a) + text_width(b),
    decreases b.len(),
{
    if b.len() == 0 {
        assert(a + b =~= a);
    } else {
        lemma_text_width_concat(a, b.drop_last());
        assert((a + b).drop_last() =~= a + b.drop_last());
    }
}

/// A prefix is never wider than the whole text.
pub proof fn lemma_text_width_prefix(text: Seq<char>, n: int)
    requires
        0 <= n <= text.len(),
    ensures
        text_width(text.take(n)) <= text_width(text),
{
    lemma_text_width_concat(text.take(n), text.skip(n));
    assert(text.take(n) + text.skip(n) =~= text);
}

/// What `fitting_len` picks: a prefix that fits, and the longest such.
pub proof fn lemma_fitting_len(text: Seq<char>, max_width: nat)
    ensures
        fitting_len(text, max_width) <= text.len(),
        text_width(width_prefix(text, max_width)) <= max_width,
        forall|n: int|
            fitting_len(text, max_width) < n <= text.len() ==> text_width(
                #[trigger] text.take(n),
            ) > max_width,
        text_width(text) <= max_width <==> fitting_len(text, max_width) == text.len(),
    decreases text.len(),
{
    if text.len() == 0 {
        assert(text.take(0) =~= text);
    } else if text_width(text) <= max_width {
        assert(text.take(text.len() as int) =~= text);
    } else {
        let shorter = text.drop_last();
        lemma_fitting_len(shorter, max_width);
        let k = fitting_len(shorter, max_width);
        assert(text.take(k as int) =~= shorter.take(k as int));
        assert forall|n: int| k < n <= text.len() implies text_width(#[trigger] text.take(n))
            > max_width by {
            if n == text.len() {
                assert(text.take(n) =~= text);
            } else {
                assert(text.take(n) =~= shorter.take(n));
            }
        }
    }
}

/// Where no character is wider than one column, the cut lands exactly on
/// `max_width` as soon as the text is wider than that.
pub proof fn lemma_narrow_cut_is_exact(text: Seq<char>, max_width: nat)
    requires
        forall|i: int| 0 <= i < text.len() ==> columns(#[trigger] text[i]) <= 1,
        text_width(text) > max_width,
    ensures
        text_width(width_prefix(text, max_width)) == max_width,
{
    lemma_fitting_len(text, max_width);
    let k = fitting_len(text, max_width) as int;
    assert(k < text.len());
    let next = text.take(k + 1);
    assert(next.drop_last() =~= text.take(k));
    assert(next.last() == text[k]);
    assert(text_width(next) > max_width);
}

/// A text of printable ASCII characters is as wide as it is long.
pub proof fn lemma_ascii_text_width(text: Seq<char>)
    requires
        forall|i: int| 0 <= i < text.len() ==> is_printable_ascii(#[trigger] text[i]),
    ensures
        text_width(text) == text.len(),
    decreases text.len(),
{
    if text.len() > 0 {
        lemma_ascii_text_width(text.drop_last());
    }
}

/// Of a text of printable ASCII characters, the prefix that fits into
/// `max_width` columns is its first `max_width` characters, or all of it.
pub proof fn lemma_ascii_width_prefix(text: Seq<char>, max_width: nat)
    requires
        forall|i: int| 0 <= i < text.len() ==> is_printable_ascii(#[trigger] text[i]),
    ensures
        width_prefix(text, max_width) == if text.len() <= max_width {
            text
        } else {
            text.take(max_width as int)
        },
{
    lemma_fitting_len(text, max_width);
    lemma_ascii_text_width(text);
    let k = fitting_len(text, max_width) as int;
    lemma_ascii_text_width(text.take(k));
    if k < text.len() {
        lemma_ascii_text_width(text.take(k + 1));
    } else {
        assert(text.take(k) =~= text);
    }
}

/// Whether `text` is wider than `limit` columns.
pub fn exceeds_width(text: &str, limit: usize) -> (r: bool)
    ensures
        r == (text_width(text@) > limit),
{
    let mut width: usize = 0;
    for c in it: text.chars()
        invariant
            it.seq() == text@,
            width == text_width(text@.take(it.index())),
            width <= limit,
    {
        let w = char_columns(c);
        proof {
            assert(text@.take(it.index() + 1).drop_last() =~= text@.take(it.index()));
            lemma_text_width_prefix(text@, it.index() + 1);
        }
        match width.checked_add(w) {
            Some(sum) => {
                if sum > limit {
                    return true;
                }
                width = sum;
            },
            None => {
                return true;
            },
        }
    }
    proof {
        assert(text@.take(text@.len() as int) =~= text@);
    }
    false
}

/// The longest prefix of `text` that is at most `max_width` columns wide,
/// with its width.
pub fn truncate_to_width<'a>(text: &'a str, max_width: usize) -> (r: (&'a str, usize))
    ensures
        r.0@ == width_prefix(text@, max_width as nat),
        r.1 == text_width(r.0@),
        r.1 <= max_width,
{
    proof {
        lemma_fitting_len(text@, max_width as nat);
    }
    unicode_truncate(text, max_width)
}

} // verus!

