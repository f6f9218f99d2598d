//! Laws of texts.

use vstd::prelude::*;

use crate::text;

verus! {

/// A path is local exactly where it starts with a slash and no second slash
/// follows.
pub proof fn local_paths_start_with_one_slash(first: char, rest: Seq<char>)
    ensures
        !text::is_local_path(Seq::empty()),
        text::is_local_path(seq![first] + rest) <==> first == '/' && !(rest.len() > 0 && rest[0]
            == '/'),
{
    let path = seq![first] + rest;
    assert(path[0] == first);
    if rest.len() > 0 {
        assert(path[1] == rest[0]);
    }
}

/// Joining is a matter of the parts and their order: two lists, neither of them
/// empty, are joined by joining each and putting the separator between, one text
/// is joined to itself, and no text at all to nothing.
pub proof fn joining_puts_the_separator_between(
    first: Seq<Seq<char>>,
    second: Seq<Seq<char>>,
    part: Seq<char>,
    separator: Seq<char>,
)
    requires
        first.len() > 0,
        second.len() > 0,
    ensures
        text::joined(Seq::empty(), separator) == Seq::<char>::empty(),
        text::joined(seq![part], separator) == part,
        text::joined(first + second, separator) == text::joined(first, separator) + separator
            + text::joined(second, separator),
    decreases second.len(),
{
    let all = first + second;
    assert(all.last() == second.last());
    if second.len() == 1 {
        assert(all.drop_last() =~= first);
        assert(text::joined(second, separator) == second[0]);
    } else {
        assert(all.drop_last() =~= first + second.drop_last());
        joining_puts_the_separator_between(first, second.drop_last(), part, separator);
        assert(text::joined(all, separator) =~= text::joined(first, separator) + separator
            + text::joined(second, separator));
    }
}

/// The characters are the same, or the same letter of the ASCII alphabet in two
/// cases.
pub open spec fn is_same_letter(a: char, b: char) -> bool {
    ||| a == b
    ||| 'A' <= a && a <= 'Z' && b as int == a as int + 32
    ||| 'A' <= b && b <= 'Z' && a as int == b as int + 32
}

/// Two texts are the same but for case exactly where they are of one length and
/// hold the same letters in the same places.
pub proof fn same_but_for_case_letter_by_letter(a: Seq<char>, b: Seq<char>)
    ensures
        text::same_ignoring_ascii_case(a, b) <==> a.len() == b.len() && forall|i: int|
            0 <= i < a.len() ==> is_same_letter(#[trigger] a[i], b[i]),
{
    let lower_a = a.map_values(|c: char| text::ascii_lower(c));
    let lower_b = b.map_values(|c: char| text::ascii_lower(c));
    if text::same_ignoring_ascii_case(a, b) {
        assert(lower_a.len() == lower_b.len());
        assert forall|i: int| 0 <= i < a.len() implies is_same_letter(#[trigger] a[i], b[i]) by {
            assert(lower_a[i] == lower_b[i]);
        }
    }
    if a.len() == b.len() && (forall|i: int|
        0 <= i < a.len() ==> is_same_letter(#[trigger] a[i], b[i])) {
        assert forall|i: int| 0 <= i < a.len() implies #[trigger] lower_a[i] == lower_b[i] by {
            assert(is_same_letter(a[i], b[i]));
        }
        assert(lower_a =~= lower_b);
    }
}

/// The models of strings and lists hold their characters, each in its place.
pub proof fn models_of_texts_hold_the_characters(list: Seq<String>, string: String)
    ensures
        text::texts(list).len() == list.len(),
        forall|i: int| 0 <= i < list.len() ==> #[trigger] text::texts(list)[i] == list[i]@,
        text::optional_text(Some(string)) == Some(string@),
        text::optional_text(None) is None,
{
}

} // verus!
