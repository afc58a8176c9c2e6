//! The rules that `http` applies to header names and header values, stated
//! over the bytes of the text handed to it.

use vstd::prelude::*;
use vstd::utf8::encode_utf8;

verus! {

/// What a header map holds: for each stored name, the bytes of its values.
pub type HeaderEntries = Map<Seq<u8>, Seq<Seq<u8>>>;

/// A header map that holds no header.
pub open spec fn no_headers() -> HeaderEntries {
    Map::empty()
}

/// A byte that may stand in a header value: visible ASCII, a space, a
/// horizontal tab, or any byte of 128 or more (an obsolete-text octet).
pub open spec fn is_header_value_byte(b: u8) -> bool {
    (b >= 32 && b != 127) || b == 9
}

/// Every byte of `bytes` may stand in a header value.
pub open spec fn is_header_value(bytes: Seq<u8>) -> bool {
    forall|i: int| 0 <= i < bytes.len() ==> is_header_value_byte(#[trigger] bytes[i])
}

/// A `tchar` of RFC 9110: a letter, a digit, or one of ``!#$%&'*+-.^_`|~``
/// (written here by their ASCII codes).
pub open spec fn is_token_byte(b: u8) -> bool {
    ||| 97 <= b <= 122  // a-z
    ||| 65 <= b <= 90  // A-Z
    ||| 48 <= b <= 57  // 0-9
    ||| b == 33 || (35 <= b <= 39)  // ! # $ % & '
    ||| b == 42 || b == 43 || b == 45 || b == 46  // * + - .
    ||| 94 <= b <= 96  // ^ _ `
    ||| b == 124 || b == 126  // | ~
}

/// What a byte of a header name becomes in the stored name: a token byte in
/// lower case, any other byte `0`.
pub open spec fn header_name_byte(b: u8) -> u8 {
    if !is_token_byte(b) {
        0
    } else if 65 <= b <= 90 {
        (b + 32) as u8
    } else {
        b
    }
}

/// The name under which a header given as `name` is stored.
pub open spec fn header_key(name: Seq<u8>) -> Seq<u8> {
    name.map_values(|b: u8| header_name_byte(b))
}

/// A header name given as text is accepted: it is not empty, not longer than
/// 65535 bytes, and, when it is at most 64 bytes long, made of token bytes.
pub open spec fn is_accepted_header_name(name: Seq<u8>) -> bool {
    &&& 1 <= name.len() <= 65535
    &&& name.len() <= 64 ==> forall|i: int|
        0 <= i < name.len() ==> is_token_byte(#[trigger] name[i])
}

/// The UTF-8 bytes of two texts set end to end are the bytes of the first
/// followed by the bytes of the second.
pub proof fn lemma_encode_utf8_concat(a: Seq<char>, b: Seq<char>)
    ensures
        encode_utf8(a + b) == encode_utf8(a) + encode_utf8(b),
    decreases a.len(),
{
    if a.len() == 0 {
        assert(a + b =~= b);
        assert(encode_utf8(a) + encode_utf8(b) =~= encode_utf8(b));
    } else {
        assert((a + b).drop_first() =~= a.drop_first() + b);
        assert((a + b)[0] == a[0]);
        lemma_encode_utf8_concat(a.drop_first(), b);
        assert(encode_utf8(a + b) =~= encode_utf8(a) + encode_utf8(b));
    }
}

/// Bytes set end to end may stand in a header value exactly when both parts
/// may.
pub proof fn lemma_header_value_concat(a: Seq<u8>, b: Seq<u8>)
    ensures
        is_header_value(a + b) <==> is_header_value(a) && is_header_value(b),
{
    if is_header_value(a + b) {
        assert forall|i: int| 0 <= i < b.len() implies is_header_value_byte(#[trigger] b[i]) by {
            assert((a + b)[a.len() + i] == b[i]);
        }
        assert forall|i: int| 0 <= i < a.len() implies is_header_value_byte(#[trigger] a[i]) by {
            assert((a + b)[i] == a[i]);
        }
    }
    if is_header_value(a) && is_header_value(b) {
        assert forall|i: int| 0 <= i < (a + b).len() implies is_header_value_byte(
            #[trigger] (a + b)[i],
        ) by {
            if i < a.len() {
                assert((a + b)[i] == a[i]);
            } else {
                assert((a + b)[i] == b[i - a.len()]);
            }
        }
    }
}

} // verus!
