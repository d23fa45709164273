//! The `Authorization` header that carries a bearer token.

use crate::envelope::AuthToken;
use vstd::prelude::*;

verus! {

/// A byte that may stand in a header value: a tab, or any byte from 32 on
/// but 127.
pub open spec fn header_byte(byte: u8) -> bool {
    byte == 9 || (byte >= 32 && byte != 127)
}

/// A text that can be sent as a header value: every byte of its UTF-8 form may
/// stand in one.
pub open spec fn header_text(text: Seq<char>) -> bool {
    let bytes = vstd::utf8::encode_utf8(text);
    forall|i: int| 0 <= i < bytes.len() ==> header_byte(#[trigger] bytes[i])
}

/// A character that may stand in a header value: a tab, or any character
/// from the space on but the delete character.
pub open spec fn header_char(c: char) -> bool {
    c == '\t' || (' ' <= c && c != '\u{7f}')
}

/// The bytes that encode one character may all stand in a header value
/// exactly where the character may.
proof fn lemma_encoded_char(c: char)
    ensures
        vstd::utf8::encode_scalar(c as u32).len() > 0,
        header_char(c) <==> forall|i: int|
            0 <= i < vstd::utf8::encode_scalar(c as u32).len() ==> header_byte(
                #[trigger] vstd::utf8::encode_scalar(c as u32)[i],
            ),
{
    let scalar = c as u32;
    let bytes = vstd::utf8::encode_scalar(scalar);
    if vstd::utf8::has_width_1_encoding(scalar) {
        let byte = vstd::utf8::leading_byte_width_1(scalar);
        assert(byte == (scalar & 0x7F) as u8);
        assert((scalar & 0x7F) as u8 as u32 == scalar) by (bit_vector)
            requires
                scalar <= 0x7F,
        ;
        assert(bytes[0] == byte);
        assert(header_byte(byte) <==> header_char(c));
    } else {
        assert(forall|low: u8| #![auto] (0x80u8 | low) >= 0x80 && (0xC0u8 | low) >= 0x80 && (0xE0u8
            | low) >= 0x80 && (0xF0u8 | low) >= 0x80) by (bit_vector);
        assert(header_char(c));
        assert forall|i: int| 0 <= i < bytes.len() implies header_byte(#[trigger] bytes[i]) by {
            assert(bytes[i] >= 0x80);
        }
    }
}

/// A text can be sent as a header value exactly where each of its characters
/// may stand in one.
pub proof fn lemma_header_text_by_chars(text: Seq<char>)
    ensures
        header_text(text) <==> forall|i: int| 0 <= i < text.len() ==> header_char(#[trigger] text[i]),
    decreases text.len(),
{
    if text.len() > 0 {
        let head = vstd::utf8::encode_scalar(text[0] as u32);
        let rest = text.drop_first();
        let tail = vstd::utf8::encode_utf8(rest);
        let bytes = vstd::utf8::encode_utf8(text);
        assert(bytes == head + tail);
        lemma_encoded_char(text[0]);
        lemma_header_text_by_chars(rest);
        if header_text(text) {
            assert forall|i: int| 0 <= i < head.len() implies header_byte(#[trigger] head[i]) by {
                assert(bytes[i] == head[i]);
            }
            assert forall|i: int| 0 <= i < tail.len() implies header_byte(#[trigger] tail[i]) by {
                assert(bytes[head.len() + i] == tail[i]);
            }
            assert forall|i: int| 0 <= i < text.len() implies header_char(#[trigger] text[i]) by {
                if i > 0 {
                    assert(text[i] == rest[i - 1]);
                }
            }
        }
        if forall|i: int| 0 <= i < text.len() ==> header_char(#[trigger] text[i]) {
            assert(header_char(text[0]));
            assert forall|i: int| 0 <= i < rest.len() implies header_char(#[trigger] rest[i]) by {
                assert(rest[i] == text[i + 1]);
            }
            assert forall|i: int| 0 <= i < bytes.len() implies header_byte(#[trigger] bytes[i]) by {
                if i < head.len() {
                    assert(bytes[i] == head[i]);
                } else {
                    assert(bytes[i] == tail[i - head.len()]);
                }
            }
        }
    }
}

/// The value of the `Authorization` header for a token.
pub open spec fn bearer_text(token: Seq<char>) -> Seq<char> {
    "Bearer "@ + token
}

/// The header for a token can be sent exactly where each character of the
/// token may stand in a header value.
pub proof fn lemma_bearer_by_token(token: Seq<char>)
    ensures
        header_text(bearer_text(token)) <==> forall|i: int|
            0 <= i < token.len() ==> header_char(#[trigger] token[i]),
{
    reveal_strlit("Bearer ");
    let text = bearer_text(token);
    lemma_header_text_by_chars(text);
    if header_text(text) {
        assert forall|i: int| 0 <= i < token.len() implies header_char(#[trigger] token[i]) by {
            assert(text[7 + i] == token[i]);
        }
    }
    if forall|i: int| 0 <= i < token.len() ==> header_char(#[trigger] token[i]) {
        assert forall|i: int| 0 <= i < text.len() implies header_char(#[trigger] text[i]) by {
            if i >= 7 {
                assert(text[i] == token[i - 7]);
            }
        }
    }
}

/// Asks `reqwest::header::HeaderValue::from_str` whether it takes `text`. It
/// goes through the bytes of the text and refuses it at the first that is
/// neither a tab nor at least 32 and other than 127.
#[verifier::external_body]
fn header_accepts(text: &str) -> (accepted: bool)
    ensures
        accepted == header_text(text@),
{
    reqwest::header::HeaderValue::from_str(text).is_ok()
}

/// The value of the `Authorization` header for `token`; `None` where the
/// token holds what no header value may hold.
pub fn authorization(token: &AuthToken) -> (value: Option<String>)
    ensures
        match value {
            Some(text) => text@ == bearer_text(token@) && header_text(text@),
            None => !header_text(bearer_text(token@)),
        },
{
    let text = String::from_str("Bearer ").concat(token.token.as_str());
    if header_accepts(text.as_str()) {
        Some(text)
    } else {
        None
    }
}

} // verus!
