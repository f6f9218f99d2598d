//! Text that the authentication flow reads and writes.
//!
//! The specifications speak of a string as the sequence of its characters.

use vstd::prelude::*;

verus! {

/// A path on this host: it starts with one slash, and not with two.
pub open spec fn is_local_path(path: Seq<char>) -> bool {
    &&& path.len() > 0
    &&& path[0] == '/'
    &&& !(path.len() > 1 && path[1] == '/')
}

/// `text` without the slashes at its end.
pub open spec fn without_trailing_slashes(text: Seq<char>) -> Seq<char>
    decreases text.len(),
{
    if text.len() > 0 && text.last() == '/' {
        without_trailing_slashes(text.drop_last())
    } else {
        text
    }
}

/// What stands before the first bar, and what stands behind it if there is a bar.
pub open spec fn split_at_bar(text: Seq<char>) -> (Seq<char>, Option<Seq<char>>) {
    match text.index_of_first('|') {
        Some(at) => (text.take(at), Some(text.skip(at + 1))),
        None => (text, None),
    }
}

/// The parts in order, with `separator` between neighbours.
pub open spec fn joined(parts: Seq<Seq<char>>, separator: Seq<char>) -> Seq<char>
    decreases parts.len(),
{
    if parts.len() == 0 {
        Seq::empty()
    } else if parts.len() == 1 {
        parts[0]
    } else {
        joined(parts.drop_last(), separator) + separator + parts.last()
    }
}

/// The lower-case form of an ASCII letter; any other character itself.
pub open spec fn ascii_lower(c: char) -> char {
    if 'A' <= c && c <= 'Z' {
        (c as u32 + 32) as char
    } else {
        c
    }
}

/// The same text but for the case of ASCII letters.
pub open spec fn same_ignoring_ascii_case(a: Seq<char>, b: Seq<char>) -> bool {
    a.map_values(|c: char| ascii_lower(c)) == b.map_values(|c: char| ascii_lower(c))
}

/// The characters of each string.
pub open spec fn texts(strings: Seq<String>) -> Seq<Seq<char>> {
    strings.map_values(|s: String| s@)
}

/// The characters of a string that may be absent.
pub open spec fn optional_text(text: Option<String>) -> Option<Seq<char>> {
    match text {
        Some(s) => Some(s@),
        None => None,
    }
}

/// Whether two strings hold the same characters.
pub fn same_text(a: &str, b: &str) -> (same: bool)
    ensures
        same == (a@ == b@),
{
    a.to_owned() == b.to_owned()
}

/// A second copy of a string that may be absent.
pub fn copy_optional(text: &Option<String>) -> (copy: Option<String>)
    ensures
        optional_text(copy) == optional_text(*text),
{
    match text {
        Some(s) => Some(s.clone()),
        None => None,
    }
}

/// A second copy of a list of strings.
pub fn copy_list(list: &Vec<String>) -> (copy: Vec<String>)
    ensures
        texts(copy@) == texts(list@),
{
    let mut copy: Vec<String> = Vec::new();
    for i in 0..list.len()
        invariant
            copy@.len() == i,
            forall|j: int| 0 <= j < i ==> (#[trigger] copy@[j])@ == list@[j]@,
    {
        copy.push(list[i].clone());
    }
    assert(texts(copy@) =~= texts(list@));
    copy
}

/// Tests whether a list of strings holds a text.
pub fn list_contains(list: &Vec<String>, wanted: &str) -> (found: bool)
    ensures
        found == texts(list@).contains(wanted@),
{
    for i in 0..list.len()
        invariant
            forall|j: int| 0 <= j < i ==> (#[trigger] list@[j])@ != wanted@,
    {
        if same_text(list[i].as_str(), wanted) {
            assert(texts(list@)[i as int] == wanted@);
            return true;
        }
    }
    assert forall|j: int| 0 <= j < texts(list@).len() implies texts(list@)[j] != wanted@ by {
        assert(texts(list@)[j] == list@[j]@);
    }
    false
}

/// The lower-case form of an ASCII letter; any other character itself.
fn to_ascii_lower(c: char) -> (lower: char)
    ensures
        lower == ascii_lower(c),
{
    if 'A' <= c && c <= 'Z' {
        (c as u8 + 32) as char
    } else {
        c
    }
}

/// Tests whether two texts are the same but for the case of ASCII letters.
pub fn same_text_ignoring_ascii_case(a: &str, b: &str) -> (same: bool)
    ensures
        same == same_ignoring_ascii_case(a@, b@),
{
    let ghost lower_a = a@.map_values(|c: char| ascii_lower(c));
    let ghost lower_b = b@.map_values(|c: char| ascii_lower(c));
    let length: usize = a.unicode_len();
    if length != b.unicode_len() {
        assert(lower_a.len() != lower_b.len());
        return false;
    }
    for i in 0..length
        invariant
            length == a@.len() == b@.len(),
            lower_a == a@.map_values(|c: char| ascii_lower(c)),
            lower_b == b@.map_values(|c: char| ascii_lower(c)),
            forall|j: int| 0 <= j < i ==> lower_a[j] == lower_b[j],
    {
        if to_ascii_lower(a.get_char(i)) != to_ascii_lower(b.get_char(i)) {
            assert(lower_a[i as int] != lower_b[i as int]);
            return false;
        }
    }
    assert(lower_a =~= lower_b);
    true
}

/// Tests for a path on this host.
pub fn names_local_path(path: &str) -> (local: bool)
    ensures
        local == is_local_path(path@),
{
    let length: usize = path.unicode_len();
    length > 0 && path.get_char(0) == '/' && !(length > 1 && path.get_char(1) == '/')
}

/// Takes the slashes off the end.
pub fn trim_trailing_slashes(text: &str) -> (trimmed: String)
    ensures
        trimmed@ == without_trailing_slashes(text@),
{
    let mut end: usize = text.unicode_len();
    assert(text@.take(end as int) =~= text@);
    while end > 0 && text.get_char(end - 1) == '/'
        invariant
            end <= text@.len(),
            without_trailing_slashes(text@) == without_trailing_slashes(text@.take(end as int)),
        decreases end,
    {
        assert(text@.take(end as int).drop_last() =~= text@.take(end - 1));
        end = end - 1;
    }
    text.substring_char(0, end).to_owned()
}

/// Parts a text at its first bar.
pub fn split_once_at_bar(text: &str) -> (parts: (String, Option<String>))
    ensures
        parts.0@ == split_at_bar(text@).0,
        optional_text(parts.1) == split_at_bar(text@).1,
{
    let length: usize = text.unicode_len();
    let mut at: usize = 0;
    while at < length
        invariant
            length == text@.len(),
            at <= length,
            forall|i: int| 0 <= i < at ==> text@[i] != '|',
        decreases length - at,
    {
        if text.get_char(at) == '|' {
            proof {
                text@.index_of_first_ensures('|');
            }
            let before = text.substring_char(0, at).to_owned();
            let behind = text.substring_char(at + 1, length).to_owned();
            assert(text@.subrange(0, at as int) =~= text@.take(at as int));
            assert(text@.subrange(at + 1, length as int) =~= text@.skip(at + 1));
            return (before, Some(behind));
        }
        at = at + 1;
    }
    proof {
        text@.index_of_first_ensures('|');
    }
    (text.to_owned(), None)
}

/// Joins strings with one space between neighbours.
pub fn join_with_spaces(parts: &Vec<String>) -> (text: String)
    ensures
        text@ == joined(texts(parts@), " "@),
{
    let mut text = String::new();
    let ghost all = texts(parts@);
    for i in 0..parts.len()
        invariant
            all == texts(parts@),
            text@ == joined(all.take(i as int), " "@),
    {
        assert(all.take(i + 1).drop_last() =~= all.take(i as int));
        if i > 0 {
            text.append(" ");
        } else {
            assert(all.take(i as int) =~= Seq::empty());
        }
        text.append(parts[i].as_str());
        assert(text@ =~= joined(all.take(i + 1), " "@));
    }
    assert(all.take(parts@.len() as int) =~= all);
    text
}

/// A path is trimmed once and for all: what is left neither ends in a slash nor
/// changes when it is trimmed again, and a slash more at the end makes no
/// difference.
pub proof fn trimming_is_final(text: Seq<char>)
    ensures
        without_trailing_slashes(text).len() == 0 || without_trailing_slashes(text).last() != '/',
        without_trailing_slashes(without_trailing_slashes(text)) == without_trailing_slashes(text),
        without_trailing_slashes(text.push('/')) == without_trailing_slashes(text),
    decreases text.len(),
{
    assert(text.push('/').drop_last() =~= text);
    if text.len() > 0 && text.last() == '/' {
        trimming_is_final(text.drop_last());
    }
}

/// Trimming takes slashes off the end and nothing else.
pub proof fn trimming_takes_slashes_only(text: Seq<char>)
    ensures
        without_trailing_slashes(text).len() <= text.len(),
        without_trailing_slashes(text) == text.take(without_trailing_slashes(text).len() as int),
        forall|i: int|
            without_trailing_slashes(text).len() <= i < text.len() ==> #[trigger] text[i] == '/',
    decreases text.len(),
{
    if text.len() > 0 && text.last() == '/' {
        let shorter = text.drop_last();
        trimming_takes_slashes_only(shorter);
        assert forall|i: int|
            without_trailing_slashes(text).len() <= i < text.len() implies #[trigger] text[i]
            == '/' by {
            if i < shorter.len() {
                assert(shorter[i] == '/');
            }
        }
        assert(shorter.take(without_trailing_slashes(text).len() as int) =~= text.take(
            without_trailing_slashes(text).len() as int,
        ));
    } else {
        assert(text.take(text.len() as int) =~= text);
    }
}

/// A key without a bar and a path are found again in the state that joins them by
/// a bar, whatever the path holds.
pub proof fn joined_state_is_split(key: Seq<char>, path: Seq<char>)
    requires
        !key.contains('|'),
    ensures
        split_at_bar(key.push('|') + path) == (key, Some(path)),
        split_at_bar(key) == (key, None::<Seq<char>>),
{
    let state = key.push('|') + path;
    state.index_of_first_ensures('|');
    key.index_of_first_ensures('|');
    assert(state[key.len() as int] == '|');
    let at = state.index_of_first('|')->0;
    if at < key.len() {
        assert(key[at] == '|');
    }
    assert(at == key.len());
    assert(state.take(at) =~= key);
    assert(state.skip(at + 1) =~= path);
}

} // verus!
