//! Text encodings used throughout the ledger: lowercase hexadecimal and
//! decimal renderings of unsigned integers.

use vstd::prelude::*;
use vstd::string::*;
use vstd::utf8::{encode_utf8, has_width_1_encoding, leading_byte_width_1};

verus! {

/// The lowercase hexadecimal digit for a value below sixteen.
pub open spec fn hex_digit(v: nat) -> char {
    if v < 10 {
        ((v + 48) as u8) as char
    } else {
        ((v + 87) as u8) as char
    }
}

/// Two lowercase hexadecimal digits per byte, most significant nibble first.
pub open spec fn hex_of(b: Seq<u8>) -> Seq<char> {
    Seq::new(
        2 * b.len(),
        |i: int|
            if i % 2 == 0 {
                hex_digit(b[i / 2] as nat / 16)
            } else {
                hex_digit(b[i / 2] as nat % 16)
            },
    )
}

/// The decimal digit for a value below ten.
pub open spec fn dec_digit(v: nat) -> char {
    ((v + 48) as u8) as char
}

/// The decimal rendering of a natural number, without leading zeros.
pub open spec fn decimal(n: nat) -> Seq<char>
    decreases n,
{
    if n < 10 {
        seq![dec_digit(n)]
    } else {
        decimal(n / 10) + seq![dec_digit(n % 10)]
    }
}

proof fn lemma_hex_digit_byte(v: nat)
    requires
        v < 16,
    ensures
        has_width_1_encoding(hex_digit(v) as u32),
        hex_nibble(leading_byte_width_1(hex_digit(v) as u32)) == Some(v as u8),
{
    let x = hex_digit(v) as u32;
    assert(x & 0x7F == x) by (bit_vector)
        requires
            x < 128,
    ;
}

/// Text made of one-byte characters encodes to those bytes.
proof fn lemma_encode_narrow(s: Seq<char>)
    requires
        forall|i: int| 0 <= i < s.len() ==> has_width_1_encoding(#[trigger] s[i] as u32),
    ensures
        encode_utf8(s) == Seq::new(s.len(), |i: int| leading_byte_width_1(s[i] as u32)),
    decreases s.len(),
{
    if s.len() > 0 {
        lemma_encode_narrow(s.drop_first());
    }
    assert(encode_utf8(s) =~= Seq::new(s.len(), |i: int| leading_byte_width_1(s[i] as u32)));
}

/// Decoding the bytes of hexadecimal text gives back the encoded bytes.
pub proof fn lemma_hex_round_trip(b: Seq<u8>)
    ensures
        hex_decodable(encode_utf8(hex_of(b))),
        hex_decoded(encode_utf8(hex_of(b))) == b,
{
    let h = hex_of(b);
    assert forall|i: int| 0 <= i < h.len() implies has_width_1_encoding(#[trigger] h[i] as u32)
        && hex_nibble(leading_byte_width_1(h[i] as u32)) == Some(
        (if i % 2 == 0 {
            b[i / 2] as nat / 16
        } else {
            b[i / 2] as nat % 16
        }) as u8,
    ) by {
        if i % 2 == 0 {
            lemma_hex_digit_byte(b[i / 2] as nat / 16);
        } else {
            lemma_hex_digit_byte(b[i / 2] as nat % 16);
        }
    }
    lemma_encode_narrow(h);
    let t = encode_utf8(h);
    assert forall|i: int| 0 <= i < t.len() implies (#[trigger] hex_nibble(t[i])) is Some by {
        assert(t[i] == leading_byte_width_1(h[i] as u32));
    }
    assert forall|j: int| 0 <= j < b.len() implies #[trigger] hex_decoded(t)[j] == b[j] by {
        assert(t[2 * j] == leading_byte_width_1(h[2 * j] as u32));
        assert(t[2 * j + 1] == leading_byte_width_1(h[2 * j + 1] as u32));
        assert((2 * j) / 2 == j && (2 * j) % 2 == 0);
        assert((2 * j + 1) / 2 == j && (2 * j + 1) % 2 == 1);
        assert((b[j] as nat / 16) * 16 + b[j] as nat % 16 == b[j] as nat);
    }
    assert(hex_decoded(t) =~= b);
}

/// The value of a hexadecimal digit byte, either case.
pub open spec fn hex_nibble(c: u8) -> Option<u8> {
    if 48 <= c <= 57 {
        Some((c - 48) as u8)
    } else if 97 <= c <= 102 {
        Some((c - 87) as u8)
    } else if 65 <= c <= 70 {
        Some((c - 55) as u8)
    } else {
        None
    }
}

/// Whether bytes are an even number of hexadecimal digits.
pub open spec fn hex_decodable(b: Seq<u8>) -> bool {
    b.len() % 2 == 0 && forall|i: int| 0 <= i < b.len() ==> (#[trigger] hex_nibble(b[i])) is Some
}

/// The bytes that pairs of hexadecimal digits stand for.
pub open spec fn hex_decoded(b: Seq<u8>) -> Seq<u8> {
    Seq::new(
        b.len() / 2,
        |i: int| (hex_nibble(b[2 * i])->Some_0 * 16 + hex_nibble(b[2 * i + 1])->Some_0) as u8,
    )
}

/// Relies on hex::decode: accepts an even number of digits of either case,
/// each pair giving one byte; anything else is an error.
#[verifier::external_body]
pub(crate) fn hex_decode(s: &str) -> (r: Option<Vec<u8>>)
    ensures
        r is Some <==> hex_decodable(s.spec_bytes()),
        r matches Some(v) ==> v@ == hex_decoded(s.spec_bytes()),
{
    hex::decode(s).ok()
}

/// Relies on hex::encode: two lowercase hexadecimal digits for each byte, in order.
#[verifier::external_body]
pub(crate) fn hex_encode(b: &Vec<u8>) -> (r: String)
    ensures
        r@ == hex_of(b@),
{
    hex::encode(b)
}

/// Relies on the standard `ToString` of `u64`: its decimal rendering.
#[verifier::external_body]
pub(crate) fn decimal_string(n: u64) -> (r: String)
    ensures
        r@ == decimal(n as nat),
{
    n.to_string()
}

} // verus!
