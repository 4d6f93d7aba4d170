//! Text helpers on which the key decoder and the tab store build.
//!
//! Texts are described by their sequence of characters. Two standard-library
//! operations are taken on trust here: `String::push` and `str::to_uppercase`.

use vstd::prelude::*;

verus! {

/// `String::push` appends one character to the end of the string.
pub assume_specification[ String::push ](s: &mut String, ch: char)
    ensures
        final(s)@ == old(s)@.push(ch),
;

/// The text that `str::to_uppercase` gives for `text`: its upper-case form
/// by the Unicode case mapping, which may be longer than `text`.
pub uninterp spec fn uppercase_of(text: Seq<char>) -> Seq<char>;

/// Calls `str::to_uppercase`. The result is a function of the characters of
/// `text` alone and is named, not described: the Unicode tables decide it.
#[verifier::external_body]
pub(crate) fn to_uppercase(text: &str) -> (upper: String)
    ensures
        upper@ == uppercase_of(text@),
{
    text.to_uppercase()
}

/// The text without its space characters.
pub open spec fn without_spaces(text: Seq<char>) -> Seq<char> {
    text.filter(|c: char| c != ' ')
}

/// Whether `c` belongs to the base-32 alphabet: `A` to `Z` and `2` to `7`.
pub open spec fn is_base32_char(c: char) -> bool {
    ('A' <= c && c <= 'Z') || ('2' <= c && c <= '7')
}

/// The characters of `text` that belong to the base-32 alphabet, in order.
pub open spec fn only_base32_chars(text: Seq<char>) -> Seq<char> {
    text.filter(|c: char| is_base32_char(c))
}

/// How many `=` signs bring a text of `len` characters to a multiple of 8.
pub open spec fn padding_needed(len: nat) -> nat {
    ((8 - len % 8) % 8) as nat
}

/// The text followed by as many `=` signs as bring it to a multiple of 8
/// characters.
pub open spec fn padded_to_block(text: Seq<char>) -> Seq<char> {
    text + Seq::new(padding_needed(text.len()), |i: int| '=')
}

/// The character that a look-alike stands for: `1` and `L` for `I`, `0` for
/// `O`, `8` for `B`. Every other character stands for itself.
pub open spec fn lookalike_resolved(c: char) -> char {
    if c == '1' || c == 'L' {
        'I'
    } else if c == '0' {
        'O'
    } else if c == '8' {
        'B'
    } else {
        c
    }
}

/// The text with every look-alike character replaced by what it stands for.
pub open spec fn without_lookalikes(text: Seq<char>) -> Seq<char> {
    text.map_values(|c: char| lookalike_resolved(c))
}

/// Filtering one more element of a sequence either appends that element to
/// what was kept so far or leaves it as it was.
proof fn lemma_filter_take_next<A>(s: Seq<A>, pred: spec_fn(A) -> bool, i: int)
    requires
        0 <= i < s.len(),
    ensures
        s.take(i + 1).filter(pred) == if pred(s[i]) {
            s.take(i).filter(pred).push(s[i])
        } else {
            s.take(i).filter(pred)
        },
{
    reveal(Seq::filter);
    assert(s.take(i + 1).drop_last() == s.take(i));
    assert(s.take(i + 1).last() == s[i]);
}

/// A filter that every element passes keeps the whole sequence.
pub proof fn lemma_filter_keeps_all<A>(s: Seq<A>, pred: spec_fn(A) -> bool)
    requires
        forall|i: int| 0 <= i < s.len() ==> pred(#[trigger] s[i]),
    ensures
        s.filter(pred) == s,
    decreases s.len(),
{
    reveal(Seq::filter);
    if s.len() > 0 {
        lemma_filter_keeps_all(s.drop_last(), pred);
        assert(s.drop_last().push(s.last()) == s);
    }
}

/// Removes every space character and keeps the rest in order.
pub fn strip_spaces(text: &str) -> (stripped: String)
    ensures
        stripped@ == without_spaces(text@),
{
    let mut stripped = String::new();
    for c in it: text.chars()
        invariant
            it.seq() == text@,
            stripped@ == without_spaces(text@.take(it.index())),
    {
        proof {
            lemma_filter_take_next(text@, |c: char| c != ' ', it.index());
        }
        if c != ' ' {
            stripped.push(c);
        }
    }
    proof {
        assert(text@.take(text@.len() as int) == text@);
    }
    stripped
}

/// Whether `c` belongs to the base-32 alphabet.
pub fn in_base32_alphabet(c: char) -> (yes: bool)
    ensures
        yes == is_base32_char(c),
{
    ('A' <= c && c <= 'Z') || ('2' <= c && c <= '7')
}

/// Keeps the characters of the base-32 alphabet, in order, and drops the
/// rest.
pub fn keep_base32_chars(text: &str) -> (kept: String)
    ensures
        kept@ == only_base32_chars(text@),
{
    let mut kept = String::new();
    for c in it: text.chars()
        invariant
            it.seq() == text@,
            kept@ == only_base32_chars(text@.take(it.index())),
    {
        proof {
            lemma_filter_take_next(text@, |c: char| is_base32_char(c), it.index());
        }
        if in_base32_alphabet(c) {
            kept.push(c);
        }
    }
    proof {
        assert(text@.take(text@.len() as int) == text@);
    }
    kept
}

/// Appends `=` signs until the number of characters is a multiple of 8.
pub fn pad_to_block(text: &str) -> (padded: String)
    ensures
        padded@ == padded_to_block(text@),
{
    let len: usize = text.unicode_len();
    let rest: usize = len % 8;
    let need: usize = if rest == 0 {
        0
    } else {
        8 - rest
    };
    let mut padded = text.to_owned();
    let mut added: usize = 0;
    while added < need
        invariant
            added <= need,
            need == padding_needed(text@.len()),
            padded@ == text@ + Seq::new(added as nat, |i: int| '='),
        decreases need - added,
    {
        padded.push('=');
        added = added + 1;
    }
    padded
}

/// The character that a look-alike stands for.
pub fn resolve_lookalike(c: char) -> (resolved: char)
    ensures
        resolved == lookalike_resolved(c),
{
    if c == '1' || c == 'L' {
        'I'
    } else if c == '0' {
        'O'
    } else if c == '8' {
        'B'
    } else {
        c
    }
}

/// Replaces every look-alike character by what it stands for.
pub fn replace_lookalikes(text: &str) -> (replaced: String)
    ensures
        replaced@ == without_lookalikes(text@),
{
    let mut replaced = String::new();
    for c in it: text.chars()
        invariant
            it.seq() == text@,
            replaced@ == without_lookalikes(text@.take(it.index())),
    {
        replaced.push(resolve_lookalike(c));
    }
    proof {
        assert(text@.take(text@.len() as int) == text@);
    }
    replaced
}

/// The character of a decimal digit; `'0'` for a number that is none.
pub open spec fn digit_char(d: nat) -> char {
    if d == 1 {
        '1'
    } else if d == 2 {
        '2'
    } else if d == 3 {
        '3'
    } else if d == 4 {
        '4'
    } else if d == 5 {
        '5'
    } else if d == 6 {
        '6'
    } else if d == 7 {
        '7'
    } else if d == 8 {
        '8'
    } else if d == 9 {
        '9'
    } else {
        '0'
    }
}

/// The number in decimal digits, without leading zeros.
pub open spec fn decimal_digits(n: nat) -> Seq<char>
    decreases n,
{
    if n < 10 {
        seq![digit_char(n)]
    } else {
        decimal_digits(n / 10).push(digit_char(n % 10))
    }
}

/// The character of the decimal digit `d`.
pub fn digit_to_char(d: usize) -> (c: char)
    requires
        d < 10,
    ensures
        c == digit_char(d as nat),
{
    if d == 1 {
        '1'
    } else if d == 2 {
        '2'
    } else if d == 3 {
        '3'
    } else if d == 4 {
        '4'
    } else if d == 5 {
        '5'
    } else if d == 6 {
        '6'
    } else if d == 7 {
        '7'
    } else if d == 8 {
        '8'
    } else if d == 9 {
        '9'
    } else {
        '0'
    }
}

/// Appends the decimal digits of `n` to `out`.
pub fn push_decimal(out: &mut String, n: usize)
    ensures
        final(out)@ == old(out)@ + decimal_digits(n as nat),
    decreases n,
{
    if n >= 10 {
        push_decimal(out, n / 10);
    }
    out.push(digit_to_char(n % 10));
}

} // verus!
