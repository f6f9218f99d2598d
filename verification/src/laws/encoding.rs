//! Laws of the texts that stand in URLs, in pages and in logs.

use vstd::prelude::*;

use crate::error;
use crate::outside;

verus! {

/// The value of a hexadecimal digit.
pub open spec fn hex_value(digit: char) -> int {
    if '0' <= digit && digit <= '9' {
        digit as int - 0x30
    } else {
        digit as int - 0x41 + 10
    }
}

/// The bytes that a percent-encoded text stands for.
pub open spec fn percent_decoded(text: Seq<char>) -> Seq<u8>
    decreases text.len(),
{
    if text.len() == 0 {
        Seq::empty()
    } else if text[0] == '%' && text.len() >= 3 {
        seq![(16 * hex_value(text[1]) + hex_value(text[2])) as u8] + percent_decoded(text.skip(3))
    } else {
        seq![text[0] as u8] + percent_decoded(text.skip(1))
    }
}

/// The bytes of two texts are encoded one after the other.
pub proof fn encoding_goes_piece_by_piece(a: Seq<u8>, b: Seq<u8>)
    ensures
        outside::percent_encoded(a + b) == outside::percent_encoded(a) + outside::percent_encoded(
            b,
        ),
    decreases b.len(),
{
    if b.len() == 0 {
        assert(a + b =~= a);
        assert(outside::percent_encoded(a) =~= outside::percent_encoded(a)
            + outside::percent_encoded(b));
    } else {
        assert((a + b).drop_last() =~= a + b.drop_last());
        encoding_goes_piece_by_piece(a, b.drop_last());
        assert(outside::percent_encoded(a + b) =~= outside::percent_encoded(a)
            + outside::percent_encoded(b));
    }
}

/// A byte that is encoded is decoded to itself, whatever follows it.
proof fn byte_is_decoded(byte: u8, rest: Seq<char>)
    ensures
        percent_decoded(outside::percent_encoded_byte(byte) + rest) == seq![byte]
            + percent_decoded(rest),
{
    let text = outside::percent_encoded_byte(byte) + rest;
    if outside::is_unreserved(byte) {
        assert(text[0] == byte as char);
        assert(text.skip(1) =~= rest);
    } else {
        assert(text[0] == '%');
        assert(text[1] == outside::hex_digit(byte / 16));
        assert(text[2] == outside::hex_digit(byte % 16));
        assert(text.skip(3) =~= rest);
        assert(hex_value(text[1]) == byte / 16);
        assert(hex_value(text[2]) == byte % 16);
    }
}

/// What is percent-encoded is decoded to the same bytes.
pub proof fn encoded_bytes_are_read_back(bytes: Seq<u8>)
    ensures
        percent_decoded(outside::percent_encoded(bytes)) == bytes,
    decreases bytes.len(),
{
    if bytes.len() > 0 {
        let first = seq![bytes[0]];
        let rest = bytes.skip(1);
        assert(bytes =~= first + rest);
        encoding_goes_piece_by_piece(first, rest);
        assert(first.drop_last() =~= Seq::empty());
        assert(outside::percent_encoded(first.drop_last()).len() == 0);
        assert(outside::percent_encoded(first) =~= outside::percent_encoded_byte(bytes[0]));
        byte_is_decoded(bytes[0], outside::percent_encoded(rest));
        encoded_bytes_are_read_back(rest);
    }
}

/// A text that is percent-encoded is read back as it was.
pub proof fn encoded_text_is_read_back(text: Seq<char>)
    ensures
        vstd::utf8::decode_utf8(
            percent_decoded(outside::percent_encoded(vstd::utf8::encode_utf8(text))),
        ) == text,
{
    encoded_bytes_are_read_back(vstd::utf8::encode_utf8(text));
    vstd::utf8::encode_utf8_decode_utf8(text);
}

/// Letters, digits and `-`, `.`, `_`, `~` stand for themselves in a percent-encoded
/// text; any other byte takes a percent sign and two digits in upper case.
pub proof fn each_byte_has_its_encoding(byte: u8)
    ensures
        ({
            let c = byte as char;
            let encoded = outside::percent_encoded(seq![byte]);
            if ('0' <= c && c <= '9') || ('A' <= c && c <= 'Z') || ('a' <= c && c <= 'z') || c
                == '-' || c == '.' || c == '_' || c == '~' {
                encoded == seq![c]
            } else {
                &&& encoded.len() == 3
                &&& encoded[0] == '%'
                &&& 16 * hex_value(encoded[1]) + hex_value(encoded[2]) == byte
                &&& ('0' <= encoded[1] && encoded[1] <= '9') || ('A' <= encoded[1] && encoded[1]
                    <= 'F')
                &&& ('0' <= encoded[2] && encoded[2] <= '9') || ('A' <= encoded[2] && encoded[2]
                    <= 'F')
            }
        }),
{
    assert(seq![byte].drop_last() =~= Seq::empty());
    assert(outside::percent_encoded(seq![byte].drop_last()).len() == 0);
    assert(outside::percent_encoded(seq![byte]) =~= outside::percent_encoded_byte(byte));
}

/// The parts of a text are escaped for HTML one after the other.
pub proof fn escaping_goes_piece_by_piece(a: Seq<char>, b: Seq<char>)
    ensures
        outside::html_escaped(a + b) == outside::html_escaped(a) + outside::html_escaped(b),
    decreases b.len(),
{
    if b.len() == 0 {
        assert(a + b =~= a);
        assert(outside::html_escaped(a) =~= outside::html_escaped(a) + outside::html_escaped(b));
    } else {
        assert((a + b).drop_last() =~= a + b.drop_last());
        escaping_goes_piece_by_piece(a, b.drop_last());
        assert(outside::html_escaped(a + b) =~= outside::html_escaped(a) + outside::html_escaped(
            b,
        ));
    }
}

/// Six characters have an entity in HTML, and every other stands for itself.
pub proof fn each_character_has_its_escape(c: char)
    ensures
        outside::html_escaped(seq!['&']) == "&amp;"@,
        outside::html_escaped(seq!['<']) == "&lt;"@,
        outside::html_escaped(seq!['>']) == "&gt;"@,
        outside::html_escaped(seq!['"']) == "&quot;"@,
        outside::html_escaped(seq!['\'']) == "&#x27;"@,
        outside::html_escaped(seq!['/']) == "&#x2F;"@,
        c != '&' && c != '<' && c != '>' && c != '"' && c != '\'' && c != '/'
            ==> outside::html_escaped(seq![c]) == seq![c],
        outside::html_escaped(Seq::empty()) == Seq::<char>::empty(),
{
    assert forall|d: char| #[trigger]
        outside::html_escaped(seq![d]) == outside::html_escaped_char(d) by {
        assert(seq![d].drop_last() =~= Seq::empty());
        assert(outside::html_escaped(seq![d].drop_last()).len() == 0);
        assert(outside::html_escaped(seq![d]) =~= outside::html_escaped_char(d));
    }
}

/// The number that decimal digits stand for.
pub open spec fn decimal_value(digits: Seq<char>) -> int
    decreases digits.len(),
{
    if digits.len() == 0 {
        0
    } else {
        10 * decimal_value(digits.drop_last()) + (digits.last() as int - 0x30)
    }
}

/// A number that is written in decimal is read back, in digits alone and without a
/// zero in front of others.
pub proof fn decimal_is_read_back(number: u16)
    ensures
        decimal_value(error::decimal(number)) == number,
        error::decimal(number).len() > 0,
        forall|i: int|
            0 <= i < error::decimal(number).len() ==> '0' <= #[trigger] error::decimal(number)[i]
                <= '9',
        number > 0 ==> error::decimal(number)[0] != '0',
    decreases number,
{
    let digits = error::decimal(number);
    if number >= 10 {
        decimal_is_read_back(number / 10);
        assert(digits.drop_last() =~= error::decimal(number / 10));
        assert forall|i: int| 0 <= i < digits.len() implies '0' <= #[trigger] digits[i] <= '9' by {
            if i < digits.len() - 1 {
                assert(digits[i] == error::decimal(number / 10)[i]);
            }
        }
        assert(digits[0] == error::decimal(number / 10)[0]);
    } else {
        assert(digits.drop_last() =~= Seq::empty());
        assert(decimal_value(digits.drop_last()) == 0);
    }
}

} // verus!
