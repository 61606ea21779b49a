//! Names that the code generated from a manifest gives to its items: type
//! names from setting IDs, field names, and the methods that attach a
//! command to a list item.

use vstd::prelude::*;

use crate::text::{push_char, split_on, split_str};

verus! {

/// What `char::to_uppercase` yields for `c`: its Unicode upper-case mapping,
/// which may be several characters.
pub uninterp spec fn unicode_uppercase(c: char) -> Seq<char>;

/// Upper-case of an ASCII letter; every other character is unchanged.
pub open spec fn ascii_upper_char(c: char) -> char {
    if 'a' <= c && c <= 'z' {
        (c as u32 - 32) as char
    } else {
        c
    }
}

/// Calls `char::to_uppercase` and collects what it yields.
///
/// Claims that the result depends on `c` alone and that an ASCII character
/// gives exactly one character: the upper-case letter for `a`..`z`, and the
/// character itself otherwise. What it gives for other characters is left
/// unsaid.
#[verifier::external_body]
fn char_to_uppercase(c: char) -> (r: String)
    ensures
        r@ == unicode_uppercase(c),
        (c as u32) < 128 ==> r@ == seq![ascii_upper_char(c)],
{
    c.to_uppercase().to_string()
}

/// `s` without a leading `r#`, the mark of a raw identifier.
pub open spec fn unraw(s: Seq<char>) -> Seq<char> {
    if s.len() >= 2 && s[0] == 'r' && s[1] == '#' {
        s.skip(2)
    } else {
        s
    }
}

/// `s` without a leading `r#`.
pub fn strip_raw(s: &str) -> (r: &str)
    ensures
        r@ == unraw(s@),
{
    let n = s.unicode_len();
    if n >= 2 && s.get_char(0) == 'r' && s.get_char(1) == '#' {
        s.substring_char(2, n)
    } else {
        s
    }
}

/// `piece` with its first character upper-cased; empty stays empty.
pub open spec fn capitalised(piece: Seq<char>) -> Seq<char> {
    if piece.len() == 0 {
        Seq::empty()
    } else {
        unicode_uppercase(piece[0]) + piece.skip(1)
    }
}

/// The pieces, each capitalised, joined with nothing between them.
pub open spec fn join_capitalised(pieces: Seq<Seq<char>>) -> Seq<char>
    decreases pieces.len(),
{
    if pieces.len() == 0 {
        Seq::empty()
    } else {
        join_capitalised(pieces.drop_last()) + capitalised(pieces.last())
    }
}

/// The UpperCamelCase form of a snake_case identifier: the `_`-separated
/// words of the identifier (without `r#`), each capitalised, joined.
pub open spec fn upper_camel(snake: Seq<char>) -> Seq<char> {
    join_capitalised(split_on(unraw(snake), '_'))
}

/// Converts a snake_case identifier into UpperCamelCase, as the name of the
/// type generated for a setting: `thing_with_dash` gives `ThingWithDash`.
///
/// Empty words (from doubled or outer underscores) vanish. The result is
/// used as a raw identifier, so it needs no further escaping.
pub fn snake_to_upper_camel(snake: &str) -> (r: String)
    ensures
        r@ == upper_camel(snake@),
{
    let bare = strip_raw(snake);
    let pieces = split_str(bare, '_');
    let ghost all = split_on(bare@, '_');
    let mut r = String::new();
    let mut i: usize = 0;
    while i < pieces.len()
        invariant
            pieces@.len() == all.len(),
            forall|j: int| 0 <= j < pieces@.len() ==> #[trigger] pieces@[j]@ == all[j],
            i <= pieces@.len(),
            r@ == join_capitalised(all.take(i as int)),
        decreases pieces@.len() - i,
    {
        let piece = pieces[i];
        assert(all.take(i + 1).drop_last() =~= all.take(i as int));
        assert(all.take(i + 1).last() == piece@);
        let len = piece.unicode_len();
        if len > 0 {
            let first = char_to_uppercase(piece.get_char(0));
            r.append(first.as_str());
            let rest = piece.substring_char(1, len);
            r.append(rest);
            assert(piece@.skip(1) =~= rest@);
        }
        assert(r@ =~= join_capitalised(all.take(i + 1)));
        i = i + 1;
    }
    assert(all.take(pieces@.len() as int) =~= all);
    r
}

/// `s` with every `-` replaced by `_`.
pub open spec fn hyphens_to_underscores(s: Seq<char>) -> Seq<char> {
    s.map_values(|c: char| if c == '-' { '_' } else { c })
}

/// The field name of a setting ID (a kebab-case key of the manifest):
/// every `-` becomes `_`, so `extra-field` gives `extra_field`.
pub fn field_name(key: &str) -> (r: String)
    ensures
        r@ == hyphens_to_underscores(key@),
{
    let n = key.unicode_len();
    let mut r = String::new();
    let mut i: usize = 0;
    while i < n
        invariant
            n == key@.len(),
            i <= n,
            r@ == hyphens_to_underscores(key@.take(i as int)),
        decreases n - i,
    {
        let c = key.get_char(i);
        let d = if c == '-' {
            '_'
        } else {
            c
        };
        push_char(&mut r, d);
        assert(key@.take(i + 1) =~= key@.take(i as int).push(c));
        assert(hyphens_to_underscores(key@.take(i + 1)) =~= hyphens_to_underscores(
            key@.take(i as int),
        ).push(d));
        i = i + 1;
    }
    assert(key@.take(n as int) =~= key@);
    r
}

/// The name of the generated method that sets the callback of a command:
/// `on_` then the command ID with `-` replaced by `_`, so `alt-activate`
/// gives `on_alt_activate`.
pub fn command_method_name(command_id: &str) -> (r: String)
    ensures
        r@ == "on_"@ + hyphens_to_underscores(command_id@),
{
    let mut r = "on_".to_owned();
    let field = field_name(command_id);
    r.append(field.as_str());
    r
}

} // verus!
