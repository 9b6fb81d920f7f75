//! Byte/text encodings used by the storage format: standard padded Base64,
//! lowercase hexadecimal and UTF-8.
use vstd::prelude::*;
use base64::Engine;
use vstd::utf8::*;

verus! {

/// The character of the standard Base64 alphabet (RFC 4648, table 1) for a
/// 6-bit value `v`.
pub open spec fn b64_symbol(v: int) -> char {
    if v < 26 {
        (v + 65) as char
    } else if v < 52 {
        (v + 71) as char
    } else if v < 62 {
        (v - 4) as char
    } else if v == 62 {
        '+'
    } else {
        '/'
    }
}

/// Standard Base64 with `=` padding: every group of three bytes becomes four
/// symbols, a trailing group of one or two bytes is padded to four characters.
pub open spec fn b64_encode(data: Seq<u8>) -> Seq<char>
    decreases data.len(),
{
    if data.len() == 0 {
        Seq::empty()
    } else {
        let b0 = data[0] as int;
        if data.len() == 1 {
            seq![b64_symbol(b0 / 4), b64_symbol((b0 % 4) * 16), '=', '=']
        } else {
            let b1 = data[1] as int;
            if data.len() == 2 {
                seq![
                    b64_symbol(b0 / 4),
                    b64_symbol((b0 % 4) * 16 + b1 / 16),
                    b64_symbol((b1 % 16) * 4),
                    '=',
                ]
            } else {
                let b2 = data[2] as int;
                seq![
                    b64_symbol(b0 / 4),
                    b64_symbol((b0 % 4) * 16 + b1 / 16),
                    b64_symbol((b1 % 16) * 4 + b2 / 64),
                    b64_symbol(b2 % 64),
                ] + b64_encode(data.subrange(3, data.len() as int))
            }
        }
    }
}

proof fn lemma_b64_symbol_injective(v: int, w: int)
    requires
        0 <= v < 64,
        0 <= w < 64,
        b64_symbol(v) == b64_symbol(w),
    ensures
        v == w,
{
}

proof fn lemma_b64_symbol_not_pad(v: int)
    requires
        0 <= v < 64,
    ensures
        b64_symbol(v) != '=',
{
}

/// Length of a padded Base64 text: four characters per started group of three bytes.
pub proof fn lemma_b64_encode_len(data: Seq<u8>)
    ensures
        b64_encode(data).len() == 4 * ((data.len() + 2) / 3),
    decreases data.len(),
{
    if data.len() >= 3 {
        lemma_b64_encode_len(data.subrange(3, data.len() as int));
    }
}

proof fn lemma_b64_group(b0: int, b1: int, c0: int, c1: int)
    requires
        0 <= b0 < 256,
        0 <= b1 < 256,
        0 <= c0 < 256,
        0 <= c1 < 256,
        b0 / 4 == c0 / 4,
        (b0 % 4) * 16 + b1 / 16 == (c0 % 4) * 16 + c1 / 16,
    ensures
        b0 == c0,
        b1 / 16 == c1 / 16,
{
}

/// The first four characters of a non-empty encoding.
proof fn lemma_b64_head(data: Seq<u8>)
    requires
        data.len() > 0,
    ensures
        ({
            let e = b64_encode(data);
            let b0 = data[0] as int;
            let b1 = if data.len() >= 2 { data[1] as int } else { 0 };
            let b2 = if data.len() >= 3 { data[2] as int } else { 0 };
            &&& e.len() >= 4
            &&& e[0] == b64_symbol(b0 / 4)
            &&& e[1] == b64_symbol((b0 % 4) * 16 + b1 / 16)
            &&& e[2] == (if data.len() == 1 { '=' } else { b64_symbol((b1 % 16) * 4 + b2 / 64) })
            &&& e[3] == (if data.len() <= 2 { '=' } else { b64_symbol(b2 % 64) })
        }),
{
    lemma_b64_encode_len(data);
}

/// Distinct byte strings have distinct Base64 texts.
pub proof fn lemma_b64_encode_injective(a: Seq<u8>, b: Seq<u8>)
    requires
        b64_encode(a) == b64_encode(b),
    ensures
        a == b,
    decreases a.len(),
{
    let e = b64_encode(a);
    lemma_b64_encode_len(a);
    lemma_b64_encode_len(b);
    if a.len() == 0 || b.len() == 0 {
        assert(a.len() == 0 && b.len() == 0);
        assert(a =~= b);
        return;
    }
    let a0 = a[0] as int;
    let b0 = b[0] as int;
    lemma_b64_head(a);
    lemma_b64_head(b);
    // The padding pattern of the first group tells the three cases apart.
    if a.len() == 1 {
        assert(e[2] == '=');
    } else {
        let a1 = a[1] as int;
        lemma_b64_symbol_not_pad((a1 % 16) * 4 + (if a.len() >= 3 { a[2] as int / 64 } else { 0 }));
        assert(e[2] != '=');
    }
    if b.len() == 1 {
        assert(e[2] == '=');
    } else {
        let b1 = b[1] as int;
        lemma_b64_symbol_not_pad((b1 % 16) * 4 + (if b.len() >= 3 { b[2] as int / 64 } else { 0 }));
        assert(e[2] != '=');
    }
    if a.len() >= 3 {
        lemma_b64_symbol_not_pad(a[2] as int % 64);
        assert(e[3] != '=');
    } else {
        assert(e[3] == '=');
    }
    if b.len() >= 3 {
        lemma_b64_symbol_not_pad(b[2] as int % 64);
        assert(e[3] != '=');
    } else {
        assert(e[3] == '=');
    }
    lemma_b64_symbol_injective(a0 / 4, b0 / 4);
    if a.len() == 1 {
        assert(b.len() == 1);
        lemma_b64_symbol_injective((a0 % 4) * 16, (b0 % 4) * 16);
        assert(a =~= b);
    } else {
        assert(b.len() >= 2);
        let a1 = a[1] as int;
        let b1 = b[1] as int;
        lemma_b64_symbol_injective((a0 % 4) * 16 + a1 / 16, (b0 % 4) * 16 + b1 / 16);
        lemma_b64_group(a0, a1, b0, b1);
        if a.len() == 2 {
            assert(b.len() == 2);
            lemma_b64_symbol_injective((a1 % 16) * 4, (b1 % 16) * 4);
            assert(a =~= b);
        } else {
            assert(b.len() >= 3);
            let a2 = a[2] as int;
            let b2 = b[2] as int;
            lemma_b64_symbol_injective((a1 % 16) * 4 + a2 / 64, (b1 % 16) * 4 + b2 / 64);
            lemma_b64_symbol_injective(a2 % 64, b2 % 64);
            assert(a1 == b1);
            assert(a2 == b2);
            let ta = a.subrange(3, a.len() as int);
            let tb = b.subrange(3, b.len() as int);
            assert(b64_encode(ta) =~= e.subrange(4, e.len() as int));
            assert(b64_encode(tb) =~= e.subrange(4, e.len() as int));
            lemma_b64_encode_injective(ta, tb);
            assert(a =~= a.subrange(0, 3) + ta);
            assert(b =~= b.subrange(0, 3) + tb);
            assert(a =~= b);
        }
    }
}

/// The bytes whose Base64 text is `text`, if `text` is such a text.
pub open spec fn b64_decode(text: Seq<char>) -> Option<Seq<u8>> {
    if exists|v: Seq<u8>| #[trigger] b64_encode(v) == text {
        Some(choose|v: Seq<u8>| #[trigger] b64_encode(v) == text)
    } else {
        None
    }
}

/// Decoding a Base64 text gives back the bytes it was made from.
pub proof fn lemma_b64_round_trip(data: Seq<u8>)
    ensures
        b64_decode(b64_encode(data)) == Some(data),
{
    let text = b64_encode(data);
    assert(exists|v: Seq<u8>| #[trigger] b64_encode(v) == text);
    let w = choose|v: Seq<u8>| #[trigger] b64_encode(v) == text;
    lemma_b64_encode_injective(w, data);
}

/// `base64::engine::general_purpose::STANDARD.encode`: the padded standard
/// Base64 text of `data`, as `b64_encode` states it.
#[verifier::external_body]
pub(crate) fn base64_encode(data: &[u8]) -> (text: String)
    ensures
        text@ == b64_encode(data@),
{
    base64::engine::general_purpose::STANDARD.encode(data)
}

/// `base64::engine::general_purpose::STANDARD.decode`. That engine requires
/// canonical padding and zero trailing bits, so it accepts exactly the texts
/// that `b64_encode` produces and returns the bytes they were made from; the
/// error value is dropped.
#[verifier::external_body]
pub(crate) fn base64_decode(text: &str) -> (data: Option<Vec<u8>>)
    ensures
        match data {
            Some(v) => b64_encode(v@) == text@,
            None => forall|v: Seq<u8>| #[trigger] b64_encode(v) != text@,
        },
{
    base64::engine::general_purpose::STANDARD.decode(text).ok()
}

/// Checked Base64 decoding, stated with `b64_decode`.
pub fn decode_base64(text: &str) -> (data: Option<Vec<u8>>)
    ensures
        match data {
            Some(v) => b64_decode(text@) == Some(v@),
            None => b64_decode(text@) is None,
        },
{
    let r = base64_decode(text);
    proof {
        if r is Some {
            lemma_b64_round_trip(r->0@);
        }
    }
    r
}

/// A lowercase hexadecimal digit for a value below 16.
pub open spec fn hex_digit(v: int) -> char {
    if v < 10 {
        (v + 48) as char
    } else {
        (v + 87) as char
    }
}

/// Lowercase hexadecimal text of a byte string, two digits per byte, high
/// nibble first.
pub open spec fn hex_lower(data: Seq<u8>) -> Seq<char>
    decreases data.len(),
{
    if data.len() == 0 {
        Seq::empty()
    } else {
        seq![hex_digit(data[0] as int / 16), hex_digit(data[0] as int % 16)] + hex_lower(
            data.subrange(1, data.len() as int),
        )
    }
}

/// A lowercase hexadecimal digit: `0`-`9` or `a`-`f`.
pub open spec fn is_lower_hex_char(c: char) -> bool {
    (48 <= c as u32 && c as u32 <= 57) || (97 <= c as u32 && c as u32 <= 102)
}

/// Hex text has two lowercase hex digits per byte.
pub proof fn lemma_hex_lower_shape(data: Seq<u8>)
    ensures
        hex_lower(data).len() == 2 * data.len(),
        forall|i: int| 0 <= i < hex_lower(data).len() ==> #[trigger] is_lower_hex_char(hex_lower(data)[i]),
    decreases data.len(),
{
    if data.len() > 0 {
        let rest = data.subrange(1, data.len() as int);
        lemma_hex_lower_shape(rest);
        let h = hex_lower(data);
        let head = seq![hex_digit(data[0] as int / 16), hex_digit(data[0] as int % 16)];
        assert(is_lower_hex_char(head[0]));
        assert(is_lower_hex_char(head[1]));
        assert forall|i: int| 0 <= i < h.len() implies #[trigger] is_lower_hex_char(h[i]) by {
            if i >= 2 {
                assert(h[i] == hex_lower(rest)[i - 2]);
            }
        }
    }
}

/// `hex::encode`: lowercase hexadecimal text of `data`.
#[verifier::external_body]
pub(crate) fn hex_encode(data: &[u8]) -> (text: String)
    ensures
        text@ == hex_lower(data@),
{
    hex::encode(data)
}

/// `String::from_utf8`: succeeds exactly on well-formed UTF-8 and then holds
/// the decoded characters; the error value is dropped.
#[verifier::external_body]
pub(crate) fn utf8_string(bytes: Vec<u8>) -> (s: Option<String>)
    ensures
        s is Some <==> valid_utf8(bytes@),
        s matches Some(t) ==> t@ == decode_utf8(bytes@),
{
    String::from_utf8(bytes).ok()
}

} // verus!
