//! Character-level string helpers shared by the parsers.

use vstd::prelude::*;
use vstd::utf8::is_ascii_chars;

verus! {

/// ASCII lower-casing of one character; other characters are unchanged.
pub open spec fn ascii_lower_char(c: char) -> char {
    match c {
        'A' => 'a',
        'B' => 'b',
        'C' => 'c',
        'D' => 'd',
        'E' => 'e',
        'F' => 'f',
        'G' => 'g',
        'H' => 'h',
        'I' => 'i',
        'J' => 'j',
        'K' => 'k',
        'L' => 'l',
        'M' => 'm',
        'N' => 'n',
        'O' => 'o',
        'P' => 'p',
        'Q' => 'q',
        'R' => 'r',
        'S' => 's',
        'T' => 't',
        'U' => 'u',
        'V' => 'v',
        'W' => 'w',
        'X' => 'x',
        'Y' => 'y',
        'Z' => 'z',
        _ => c,
    }
}

/// ASCII lower-casing of every character of `s`.
pub open spec fn ascii_lowercase(s: Seq<char>) -> Seq<char> {
    Seq::new(s.len(), |i: int| ascii_lower_char(s[i]))
}

/// What `str::to_lowercase` returns for a string with the given characters
/// (the Unicode lower-case mapping of every character).
pub uninterp spec fn unicode_lowercase(s: Seq<char>) -> Seq<char>;

/// Calls `str::to_lowercase`.
///
/// Claims that the result is a function of the characters of `s` alone, and
/// that on ASCII input it maps exactly `A`..`Z` to `a`..`z` and keeps every
/// other character, as std's documentation of Unicode lower-casing implies.
/// What it does to non-ASCII characters is left unsaid.
#[verifier::external_body]
pub(crate) fn to_lowercase(s: &str) -> (r: String)
    ensures
        r@ == unicode_lowercase(s@),
        is_ascii_chars(s@) ==> r@ == ascii_lowercase(s@),
{
    s.to_lowercase()
}

/// Calls `String::push`, which appends one character.
#[verifier::external_body]
pub(crate) fn push_char(s: &mut String, c: char)
    ensures
        final(s)@ == old(s)@.push(c),
{
    s.push(c)
}

/// The pieces of `s` between occurrences of `sep`, in order, as `str::split`
/// yields them: `n` separators give `n + 1` pieces.
pub open spec fn split_on(s: Seq<char>, sep: char) -> Seq<Seq<char>>
    decreases s.len(),
{
    if s.len() == 0 {
        seq![Seq::<char>::empty()]
    } else {
        let rest = split_on(s.drop_last(), sep);
        if s.last() == sep {
            rest.push(Seq::<char>::empty())
        } else {
            rest.update(rest.len() - 1, rest.last().push(s.last()))
        }
    }
}

/// `split_on` never yields an empty list of pieces.
pub proof fn lemma_split_on_nonempty(s: Seq<char>, sep: char)
    ensures
        split_on(s, sep).len() >= 1,
    decreases s.len(),
{
    if s.len() > 0 {
        lemma_split_on_nonempty(s.drop_last(), sep);
    }
}

/// Appending characters that are not the separator extends the last piece.
pub proof fn lemma_split_on_append_plain(s: Seq<char>, t: Seq<char>, sep: char)
    requires
        !t.contains(sep),
    ensures
        split_on(s + t, sep) == split_on(s, sep).update(
            split_on(s, sep).len() - 1,
            split_on(s, sep).last() + t,
        ),
    decreases t.len(),
{
    lemma_split_on_nonempty(s, sep);
    if t.len() == 0 {
        assert(s + t =~= s);
        assert(split_on(s, sep).last() + t =~= split_on(s, sep).last());
        assert(split_on(s, sep).update(split_on(s, sep).len() - 1, split_on(s, sep).last())
            =~= split_on(s, sep));
    } else {
        let t0 = t.drop_last();
        assert(!t0.contains(sep)) by {
            if t0.contains(sep) {
                let i = choose|i: int| 0 <= i < t0.len() && t0[i] == sep;
                assert(t[i] == sep);
            }
        }
        lemma_split_on_append_plain(s, t0, sep);
        assert((s + t).drop_last() =~= s + t0);
        assert((s + t).last() == t.last());
        assert(t.last() != sep) by {
            assert(t[t.len() - 1] == t.last());
        }
        lemma_split_on_nonempty(s + t0, sep);
        assert(split_on(s, sep).last() + t0 + seq![t.last()] =~= split_on(s, sep).last() + t);
        assert((split_on(s, sep).last() + t0).push(t.last()) =~= split_on(s, sep).last() + t);
        let a = split_on(s, sep);
        let b = split_on(s + t0, sep);
        assert(b.update(b.len() - 1, b.last().push(t.last())) =~= a.update(
            a.len() - 1,
            a.last() + t,
        ));
    }
}

/// Appending the separator starts a new, empty piece.
pub proof fn lemma_split_on_append_sep(s: Seq<char>, sep: char)
    ensures
        split_on(s.push(sep), sep) == split_on(s, sep).push(Seq::<char>::empty()),
{
    assert(s.push(sep).drop_last() =~= s);
}

/// The pieces of an ASCII text are ASCII.
pub proof fn lemma_split_on_ascii(s: Seq<char>, sep: char)
    ensures
        is_ascii_chars(s) ==> forall|i: int|
            0 <= i < split_on(s, sep).len() ==> is_ascii_chars(#[trigger] split_on(s, sep)[i]),
    decreases s.len(),
{
    if s.len() > 0 && is_ascii_chars(s) {
        let init = s.drop_last();
        assert(is_ascii_chars(init)) by {
            assert forall|k: int| 0 <= k < init.len() implies '\0' <= #[trigger] init[k] <= '\u{7f}' by {
                assert(init[k] == s[k]);
            }
        }
        lemma_split_on_ascii(init, sep);
        lemma_split_on_nonempty(init, sep);
        let rest = split_on(init, sep);
        if s.last() != sep {
            let lastp = rest.last().push(s.last());
            assert(is_ascii_chars(rest.last()));
            assert(is_ascii_chars(lastp)) by {
                assert forall|k: int| 0 <= k < lastp.len() implies '\0' <= #[trigger] lastp[k] <= '\u{7f}' by {
                    if k < lastp.len() - 1 {
                        assert(lastp[k] == rest.last()[k]);
                    } else {
                        assert(lastp[k] == s[s.len() - 1]);
                    }
                }
            }
            assert forall|i: int| 0 <= i < split_on(s, sep).len() implies is_ascii_chars(
                #[trigger] split_on(s, sep)[i],
            ) by {
                if i < rest.len() - 1 {
                    assert(split_on(s, sep)[i] == rest[i]);
                }
            }
        } else {
            assert forall|i: int| 0 <= i < split_on(s, sep).len() implies is_ascii_chars(
                #[trigger] split_on(s, sep)[i],
            ) by {
                if i < rest.len() {
                    assert(split_on(s, sep)[i] == rest[i]);
                } else {
                    assert(split_on(s, sep)[i] =~= Seq::<char>::empty());
                }
            }
        }
    }
}

/// Splits `s` at every `sep`, as `str::split` with a character pattern does.
pub fn split_str<'a>(s: &'a str, sep: char) -> (pieces: Vec<&'a str>)
    ensures
        pieces@.len() == split_on(s@, sep).len(),
        forall|i: int| 0 <= i < pieces@.len() ==> #[trigger] pieces@[i]@ == split_on(s@, sep)[i],
{
    let n = s.unicode_len();
    let mut pieces: Vec<&'a str> = Vec::new();
    let mut start: usize = 0;
    let mut i: usize = 0;
    while i < n
        invariant
            n == s@.len(),
            start <= i <= n,
            split_on(s@.subrange(0, i as int), sep).len() == pieces@.len() + 1,
            forall|j: int|
                0 <= j < pieces@.len() ==> #[trigger] pieces@[j]@ == split_on(
                    s@.subrange(0, i as int),
                    sep,
                )[j],
            split_on(s@.subrange(0, i as int), sep).last() == s@.subrange(start as int, i as int),
        decreases n - i,
    {
        let c = s.get_char(i);
        let ghost prefix = s@.subrange(0, i as int);
        assert(s@.subrange(0, i + 1) =~= prefix.push(c));
        proof {
            lemma_split_on_nonempty(prefix, sep);
        }
        if c == sep {
            let piece = s.substring_char(start, i);
            pieces.push(piece);
            proof {
                lemma_split_on_append_sep(prefix, sep);
            }
            start = i + 1;
            i = i + 1;
            assert(s@.subrange(start as int, i as int) =~= Seq::<char>::empty());
        } else {
            assert(prefix.push(c).drop_last() =~= prefix);
            assert(s@.subrange(start as int, i + 1) =~= s@.subrange(start as int, i as int).push(
                c,
            ));
            i = i + 1;
        }
    }
    assert(s@.subrange(0, n as int) =~= s@);
    let last = s.substring_char(start, n);
    pieces.push(last);
    pieces
}

/// Whether the characters of `a` and `b` are the same.
pub fn str_eq(a: &str, b: &str) -> (r: bool)
    ensures
        r == (a@ == b@),
{
    let n = a.unicode_len();
    if n != b.unicode_len() {
        return false;
    }
    let mut i: usize = 0;
    while i < n
        invariant
            n == a@.len(),
            n == b@.len(),
            i <= n,
            forall|j: int| 0 <= j < i ==> a@[j] == b@[j],
        decreases n - i,
    {
        if a.get_char(i) != b.get_char(i) {
            return false;
        }
        i = i + 1;
    }
    assert(a@ =~= b@);
    true
}

/// What the `Debug` format of a string with the given characters writes: the
/// string in double quotes, with special characters escaped.
pub uninterp spec fn debug_quoted(s: Seq<char>) -> Seq<char>;

/// Calls `format!("{:?}", s)`, the `Debug` format of a string.
#[verifier::external_body]
pub(crate) fn debug_str(s: &str) -> (r: String)
    ensures
        r@ == debug_quoted(s@),
{
    format!("{:?}", s)
}

} // verus!
