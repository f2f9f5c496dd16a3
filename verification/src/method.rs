//! The request method: upper-cased, then held to the token syntax that the
//! transport accepts.

use crate::error::{invalid_method_message, ErrorKind, ErrorValue, ErrorView};
use crate::text::{ascii_upper, upper_case, upper_char, upper_form};
use vstd::prelude::*;
use vstd::string::*;
use vstd::utf8::*;

verus! {

/// The characters a method may be made of: letters, digits and
/// ``! * + - . ^ _ ` | ~``.
pub open spec fn is_method_char(c: char) -> bool {
    ||| 'A' <= c && c <= 'Z'
    ||| 'a' <= c && c <= 'z'
    ||| '0' <= c && c <= '9'
    ||| c == '!'
    ||| c == '*'
    ||| c == '+'
    ||| c == '-'
    ||| c == '.'
    ||| c == '^'
    ||| c == '_'
    ||| c == '`'
    ||| c == '|'
    ||| c == '~'
}

/// A method token: not empty, and made of method characters only.
pub open spec fn is_method_token(s: Seq<char>) -> bool {
    s.len() > 0 && forall|i: int| 0 <= i < s.len() ==> is_method_char(#[trigger] s[i])
}

/// The same syntax, read off the bytes of a token.
pub open spec fn is_method_token_bytes(bytes: Seq<u8>) -> bool {
    bytes.len() > 0 && forall|i: int|
        0 <= i < bytes.len() ==> is_method_char((#[trigger] bytes[i]) as char)
}

/// What the transport says of a token it refuses.
pub open spec fn refused_method_text() -> Seq<char> {
    "invalid HTTP method"@
}

/// `reqwest::Method::from_bytes`: accepts exactly the non-empty byte strings
/// whose every byte is a method character, and describes every other input
/// with the same fixed sentence.
#[verifier::external_body]
fn transport_method_check(token: &[u8]) -> (r: Result<(), String>)
    ensures
        r is Ok <==> is_method_token_bytes(token@),
        r matches Err(detail) ==> detail@ == refused_method_text(),
{
    match reqwest::Method::from_bytes(token) {
        Ok(_) => Ok(()),
        Err(e) => Err(e.to_string()),
    }
}

proof fn lemma_scalar_bytes(c: char)
    ensures
        c <= '\u{7f}' ==> encode_scalar(c as u32) =~= seq![c as u8] && (c as u8) as char == c,
        c > '\u{7f}' ==> encode_scalar(c as u32).len() >= 1 && encode_scalar(c as u32)[0] >= 0x80,
{
    let v = c as u32;
    if c <= '\u{7f}' {
        assert(v as u8 == leading_byte_width_1(v)) by (bit_vector)
            requires
                has_width_1_encoding(v),
        ;
    } else {
        assert(leading_byte_width_2(v) >= 0x80) by (bit_vector);
        assert(leading_byte_width_3(v) >= 0x80) by (bit_vector);
        assert(leading_byte_width_4(v) >= 0x80) by (bit_vector);
    }
}

spec fn all_method_chars(s: Seq<char>) -> bool {
    forall|i: int| 0 <= i < s.len() ==> is_method_char(#[trigger] s[i])
}

spec fn all_method_bytes(bytes: Seq<u8>) -> bool {
    forall|i: int| 0 <= i < bytes.len() ==> is_method_char((#[trigger] bytes[i]) as char)
}

proof fn lemma_all_method_bytes(s: Seq<char>)
    ensures
        all_method_bytes(encode_utf8(s)) <==> all_method_chars(s),
        s.len() == 0 <==> encode_utf8(s).len() == 0,
    decreases s.len(),
{
    if s.len() > 0 {
        let head = encode_scalar(s[0] as u32);
        let rest = s.drop_first();
        let tail = encode_utf8(rest);
        lemma_scalar_bytes(s[0]);
        lemma_all_method_bytes(rest);
        if all_method_chars(s) {
            assert forall|i: int| 0 <= i < rest.len() implies is_method_char(
                #[trigger] rest[i],
            ) by {}
            assert forall|j: int| 0 <= j < (head + tail).len() implies is_method_char(
                (#[trigger] (head + tail)[j]) as char,
            ) by {}
        }
        if all_method_bytes(head + tail) {
            assert(is_method_char((head + tail)[0] as char));
            assert forall|j: int| 0 <= j < tail.len() implies is_method_char(
                (#[trigger] tail[j]) as char,
            ) by {
                assert(tail[j] == (head + tail)[j + 1]);
            }
            assert forall|i: int| 0 <= i < s.len() implies is_method_char(#[trigger] s[i]) by {
                if i >= 1 {
                    assert(s[i] == rest[i - 1]);
                }
            }
        }
    }
}

/// A text is a method token exactly when its UTF-8 bytes are.
pub proof fn lemma_token_bytes(s: Seq<char>)
    ensures
        is_method_token_bytes(encode_utf8(s)) <==> is_method_token(s),
{
    lemma_all_method_bytes(s);
}

/// A method token in any case is accepted in its upper-case form, and an
/// ASCII text that is no method token is refused: upper-casing neither breaks
/// a token nor mends a text that is none.
pub proof fn lemma_upper_case_keeps_tokens(raw: Seq<char>)
    ensures
        is_method_token(raw) ==> is_ascii_chars(raw),
        is_ascii_chars(raw) ==> upper_form(raw) == ascii_upper(raw),
        is_ascii_chars(raw) ==> (is_method_token(upper_form(raw)) <==> is_method_token(raw)),
        is_method_token(raw) ==> is_method_token(upper_form(raw)),
{
    let upper = ascii_upper(raw);
    assert forall|i: int| 0 <= i < raw.len() implies (is_method_char(#[trigger] upper[i])
        <==> is_method_char(raw[i])) by {}
    if is_method_token(raw) {
        assert forall|i: int| 0 <= i < raw.len() implies '\0' <= #[trigger] raw[i] <= '\u{7f}' by {}
    }
    if is_method_token(upper) {
        assert forall|i: int| 0 <= i < raw.len() implies is_method_char(#[trigger] raw[i]) by {
            assert(is_method_char(upper[i]));
        }
    }
}

/// A request method that the transport accepts.
#[derive(Debug)]
pub struct Method {
    token: String,
}

impl View for Method {
    type V = Seq<char>;

    closed spec fn view(&self) -> Seq<char> {
        self.token@
    }
}

/// The failure that a refused method gives.
pub open spec fn invalid_method_error() -> ErrorView {
    ErrorView {
        kind: ErrorKind::InvalidMethod,
        message: invalid_method_message(refused_method_text()),
        status: None,
    }
}

impl Method {
    #[verifier::type_invariant]
    closed spec fn inv(&self) -> bool {
        is_method_token(self.token@)
    }

    /// Takes a token as it stands: accepted exactly when it is a method
    /// token, refused with `InvalidMethod` otherwise.
    pub fn from_token(token: String) -> (r: Result<Method, ErrorValue>)
        ensures
            match r {
                Ok(m) => is_method_token(token@) && m@ == token@,
                Err(e) => !is_method_token(token@) && e@ == invalid_method_error(),
            },
    {
        proof {
            lemma_token_bytes(token@);
        }
        match transport_method_check(token.as_str().as_bytes()) {
            Ok(()) => Ok(Method { token }),
            Err(detail) => Err(ErrorValue::invalid_method(detail.as_str())),
        }
    }

    /// Upper-cases the text, then takes the result as a token.
    pub fn parse(raw: &str) -> (r: Result<Method, ErrorValue>)
        ensures
            match r {
                Ok(m) => is_method_token(upper_form(raw@)) && m@ == upper_form(raw@),
                Err(e) => !is_method_token(upper_form(raw@)) && e@ == invalid_method_error(),
            },
    {
        Method::from_token(upper_case(raw))
    }

    /// The token.
    pub fn as_str(&self) -> (s: &str)
        ensures
            s@ == self@,
            is_method_token(s@),
    {
        proof {
            use_type_invariant(self);
        }
        self.token.as_str()
    }
}

} // verus!
