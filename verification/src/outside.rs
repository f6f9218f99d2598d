//! Calls into other crates and std that compute on plain values.

use axum_extra::extract::cookie::Key;
use vstd::prelude::*;

use crate::text;
use crate::text::same_text;

verus! {

/// The key that `Key::from` makes of sixty-four bytes.
pub uninterp spec fn cookie_key(bytes: Seq<u8>) -> Key;

/// What `reqwest::Url::parse` makes of a text: the URL in its normal form, or
/// `None` where the text is no absolute URL.
pub uninterp spec fn parsed_url(text: Seq<char>) -> Option<Seq<char>>;

/// What `serde_html_form::from_str` reads in a query: the value of each name, or
/// `None` where the query cannot be read so.
pub uninterp spec fn decoded_form(query: Seq<char>) -> Option<Map<Seq<char>, Seq<char>>>;

/// How `http::StatusCode` is displayed: the code and its reason phrase.
pub uninterp spec fn status_line(code: u16) -> Seq<char>;

/// How std debugs a text: in quotes, with escapes.
pub uninterp spec fn debug_quoted(text: Seq<char>) -> Seq<char>;

/// A cookie key of sixty-four bytes: `Key::from`, which takes the bytes as they
/// are and panics where there are fewer.
#[verifier::external_body]
pub(crate) fn key_from_bytes(bytes: &[u8; 64]) -> (key: Key)
    ensures
        key == cookie_key(bytes@),
{
    Key::from(bytes)
}

/// Parses a URL: `reqwest::Url::parse`. Its result is named by [`parsed_url`]; the
/// error, where there is one, is dropped.
#[verifier::external_body]
pub(crate) fn parse_url(text: &str) -> (url: Option<String>)
    ensures
        text::optional_text(url) == parsed_url(text@),
{
    reqwest::Url::parse(text).ok().map(String::from)
}

/// The pairs list the map: every name once, with its value, in any order.
pub open spec fn lists(pairs: Seq<(String, String)>, form: Map<Seq<char>, Seq<char>>) -> bool {
    &&& forall|i: int, j: int| 0 <= i < j < pairs.len() ==> pairs[i].0@ != pairs[j].0@
    &&& forall|i: int|
        0 <= i < pairs.len() ==> form.dom().contains((#[trigger] pairs[i]).0@)
            && form[pairs[i].0@] == pairs[i].1@
    &&& forall|name: Seq<char>| #[trigger]
        form.dom().contains(name) ==> exists|i: int|
            0 <= i < pairs.len() && (#[trigger] pairs[i]).0@ == name
}

/// Reads a query: `serde_html_form::from_str` into a map from names to values,
/// which [`decoded_form`] names. The pairs come in the order in which the map is
/// walked, which is left open; the error, where there is one, is dropped.
#[verifier::external_body]
pub(crate) fn decode_form(query: &str) -> (form: Option<Vec<(String, String)>>)
    ensures
        form is Some <==> decoded_form(query@) is Some,
        form matches Some(pairs) ==> lists(pairs@, decoded_form(query@)->0),
{
    serde_html_form::from_str::<std::collections::HashMap<String, String>>(query).ok().map(
        |form| form.into_iter().collect(),
    )
}

/// Displays a status code: `http::StatusCode::from_u16`, which takes the codes of
/// three digits, and its `to_string`. [`status_line`] names the result.
#[verifier::external_body]
pub(crate) fn display_status(code: u16) -> (line: String)
    requires
        100 <= code <= 999,
    ensures
        line@ == status_line(code),
{
    http::StatusCode::from_u16(code).expect("a status of three digits").to_string()
}

/// Debugs a text: the `Debug` of std's `str`. [`debug_quoted`] names the result.
#[verifier::external_body]
pub(crate) fn debug_quote(text: &str) -> (quoted: String)
    ensures
        quoted@ == debug_quoted(text@),
{
    format!("{:?}", text)
}

/// A character that stands for itself in a URL component.
pub open spec fn is_unreserved(byte: u8) -> bool {
    ||| 0x30 <= byte <= 0x39
    ||| 0x41 <= byte <= 0x5a
    ||| 0x61 <= byte <= 0x7a
    ||| byte == 0x2d
    ||| byte == 0x2e
    ||| byte == 0x5f
    ||| byte == 0x7e
}

/// A hexadecimal digit, in upper case.
pub open spec fn hex_digit(value: u8) -> char {
    if value < 10 {
        (0x30 + value) as char
    } else {
        (0x41 + value - 10) as char
    }
}

/// A byte in a URL component: itself where it is unreserved, else a percent sign
/// and two hexadecimal digits.
pub open spec fn percent_encoded_byte(byte: u8) -> Seq<char> {
    if is_unreserved(byte) {
        seq![byte as char]
    } else {
        seq!['%', hex_digit(byte / 16), hex_digit(byte % 16)]
    }
}

/// Bytes in a URL component.
pub open spec fn percent_encoded(bytes: Seq<u8>) -> Seq<char>
    decreases bytes.len(),
{
    if bytes.len() == 0 {
        Seq::empty()
    } else {
        percent_encoded(bytes.drop_last()) + percent_encoded_byte(bytes.last())
    }
}

/// Percent-encodes the UTF-8 bytes of a text: `urlencoding::encode`.
#[verifier::external_body]
pub(crate) fn url_encode(text: &str) -> (encoded: String)
    ensures
        encoded@ == percent_encoded(vstd::utf8::encode_utf8(text@)),
{
    urlencoding::encode(text).into_owned()
}

/// A character in HTML: an entity for each of `&`, `<`, `>`, `"`, `'` and `/`,
/// else itself.
pub open spec fn html_escaped_char(c: char) -> Seq<char> {
    if c == '&' {
        "&amp;"@
    } else if c == '<' {
        "&lt;"@
    } else if c == '>' {
        "&gt;"@
    } else if c == '"' {
        "&quot;"@
    } else if c == '\'' {
        "&#x27;"@
    } else if c == '/' {
        "&#x2F;"@
    } else {
        seq![c]
    }
}

/// A text in HTML.
pub open spec fn html_escaped(text: Seq<char>) -> Seq<char>
    decreases text.len(),
{
    if text.len() == 0 {
        Seq::empty()
    } else {
        html_escaped(text.drop_last()) + html_escaped_char(text.last())
    }
}

/// Escapes a text for HTML: `html_escape::encode_safe`.
#[verifier::external_body]
pub(crate) fn html_escape(text: &str) -> (escaped: String)
    ensures
        escaped@ == html_escaped(text@),
{
    html_escape::encode_safe(text).into_owned()
}

/// A hexadecimal digit, in lower case.
pub open spec fn is_lower_hex(c: char) -> bool {
    '0' <= c <= '9' || 'a' <= c <= 'f'
}

/// The text of a random UUID: thirty-two hexadecimal digits in groups of eight,
/// four, four, four and twelve, with the version digit `4` and the variant digit
/// `8`, `9`, `a` or `b`.
pub open spec fn is_random_uuid(text: Seq<char>) -> bool {
    &&& text.len() == 36
    &&& forall|i: int|
        0 <= i < 36 ==> if i == 8 || i == 13 || i == 18 || i == 23 {
            #[trigger] text[i] == '-'
        } else {
            is_lower_hex(text[i])
        }
    &&& text[14] == '4'
    &&& text[19] == '8' || text[19] == '9' || text[19] == 'a' || text[19] == 'b'
}

/// A new session identifier: `uuid::Uuid::new_v4`, displayed. Which one it is, is
/// left to chance.
#[verifier::external_body]
pub(crate) fn new_session_id() -> (id: String)
    ensures
        is_random_uuid(id@),
{
    uuid::Uuid::new_v4().to_string()
}

/// The value of a name in a form that may be absent or unreadable.
pub open spec fn form_value(query: Option<Seq<char>>, name: Seq<char>) -> Option<Seq<char>> {
    match query {
        Some(query) => match decoded_form(query) {
            Some(form) => if form.dom().contains(name) {
                Some(form[name])
            } else {
                None
            },
            None => None,
        },
        None => None,
    }
}

/// The value of the first pair under a name.
pub fn find_value(pairs: &Vec<(String, String)>, name: &str) -> (value: Option<String>)
    ensures
        match value {
            Some(value) => exists|i: int|
                0 <= i < pairs@.len() && (#[trigger] pairs@[i]).0@ == name@ && pairs@[i].1@
                    == value@ && forall|j: int| 0 <= j < i ==> (#[trigger] pairs@[j]).0@ != name@,
            None => forall|i: int| 0 <= i < pairs@.len() ==> (#[trigger] pairs@[i]).0@ != name@,
        },
{
    for i in 0..pairs.len()
        invariant
            forall|j: int| 0 <= j < i ==> (#[trigger] pairs@[j]).0@ != name@,
    {
        if same_text(pairs[i].0.as_str(), name) {
            return Some(pairs[i].1.clone());
        }
    }
    None
}

/// The value of a name in a query that may be absent or unreadable.
pub fn query_value(query: Option<&str>, name: &str) -> (value: Option<String>)
    ensures
        text::optional_text(value) == form_value(
            match query {
                Some(query) => Some(query@),
                None => None,
            },
            name@,
        ),
{
    match query {
        Some(query) => match decode_form(query) {
            Some(pairs) => find_value(&pairs, name),
            None => None,
        },
        None => None,
    }
}

/// The text of a random UUID is short enough for a cookie.
pub proof fn random_uuid_is_sealable(id: Seq<char>)
    requires
        is_random_uuid(id),
    ensures
        crate::jar::is_sealable(id),
{
    utf8_length_is_bounded(id);
}

/// A character takes at most four bytes.
proof fn utf8_length_is_bounded(text: Seq<char>)
    ensures
        vstd::utf8::encode_utf8(text).len() <= 4 * text.len(),
    decreases text.len(),
{
    if text.len() > 0 {
        utf8_length_is_bounded(text.drop_first());
    }
}

/// The characters that could end an attribute or open an element.
pub open spec fn is_markup(c: char) -> bool {
    c == '<' || c == '>' || c == '"' || c == '\''
}

/// Escaped text holds no character that could end an attribute or open an
/// element.
pub proof fn escaped_text_holds_no_markup(text: Seq<char>, at: int)
    requires
        0 <= at < html_escaped(text).len(),
    ensures
        !is_markup(html_escaped(text)[at]),
    decreases text.len(),
{
    reveal_strlit("&amp;");
    reveal_strlit("&lt;");
    reveal_strlit("&gt;");
    reveal_strlit("&quot;");
    reveal_strlit("&#x27;");
    reveal_strlit("&#x2F;");
    let before = html_escaped(text.drop_last());
    if at < before.len() {
        escaped_text_holds_no_markup(text.drop_last(), at);
    }
}

/// A percent-encoded text is made of unreserved characters and percent signs, so
/// it can neither end a query parameter nor start another.
pub proof fn encoded_text_is_one_component(bytes: Seq<u8>, at: int)
    requires
        0 <= at < percent_encoded(bytes).len(),
    ensures
        percent_encoded(bytes)[at] == '%' || exists|byte: u8|
            is_unreserved(byte) && percent_encoded(bytes)[at] == #[trigger] (byte as char),
    decreases bytes.len(),
{
    let before = percent_encoded(bytes.drop_last());
    if at < before.len() {
        encoded_text_is_one_component(bytes.drop_last(), at);
    } else {
        let byte = bytes.last();
        if is_unreserved(byte) {
            assert(percent_encoded(bytes)[at] == byte as char);
        } else if at > before.len() {
            let value: u8 = if at == before.len() + 1 {
                (byte / 16) as u8
            } else {
                (byte % 16) as u8
            };
            let digit: u8 = if value < 10 {
                (0x30 + value) as u8
            } else {
                (0x41 + value - 10) as u8
            };
            assert(is_unreserved(digit));
            assert(hex_digit(value) == digit as char);
        }
    }
}

/// A state that joins a random UUID and a path by a bar gives both back; one that
/// is the UUID alone gives no path.
pub proof fn uuid_state_is_split(key: Seq<char>, path: Seq<char>)
    requires
        is_random_uuid(key),
    ensures
        text::split_at_bar(key.push('|') + path) == (key, Some(path)),
        text::split_at_bar(key) == (key, None::<Seq<char>>),
{
    assert forall|i: int| 0 <= i < key.len() implies #[trigger] key[i] != '|' by {
        assert(key[i] == '-' || is_lower_hex(key[i]));
    }
    assert(!key.contains('|'));
    text::joined_state_is_split(key, path);
}

} // verus!
