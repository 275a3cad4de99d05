//! Byte-level text encodings used by the ping URLs and payloads: decimal
//! rendering of integers, percent-encoding of free-text messages, and the
//! bridge from verified byte sequences back to `String`.
use vstd::prelude::*;

verus! {

use vstd::utf8::{valid_utf8, decode_utf8, encode_utf8, is_ascii_chars};
use vstd::utf8::{is_ascii_chars_encode_utf8, encode_utf8_valid_utf8, encode_utf8_decode_utf8,
    decode_utf8_encode_utf8};
use vstd::pervasive::unreached;

// ---------------------------------------------------------------------------
// ASCII byte sequences and UTF-8
// ---------------------------------------------------------------------------

/// The characters spelled by an ASCII byte sequence, one byte per character.
pub open spec fn ascii_chars_of(s: Seq<u8>) -> Seq<char> {
    Seq::new(s.len(), |i: int| s[i] as char)
}

/// A sequence of ASCII bytes is valid UTF-8, decodes to one character per
/// byte, and is its own UTF-8 encoding.
pub proof fn lemma_ascii_bytes_utf8(s: Seq<u8>)
    requires
        forall|i: int| 0 <= i < s.len() ==> s[i] < 0x80,
    ensures
        valid_utf8(s),
        decode_utf8(s) == ascii_chars_of(s),
        encode_utf8(ascii_chars_of(s)) == s,
{
    let chars = ascii_chars_of(s);
    assert forall|i: int| 0 <= i < chars.len() implies '\0' <= #[trigger] chars[i] <= '\u{7f}' by {
        assert(s[i] < 0x80);
    }
    assert(is_ascii_chars(chars));
    is_ascii_chars_encode_utf8(chars);
    assert(encode_utf8(chars) =~= s);
    encode_utf8_valid_utf8(chars);
    encode_utf8_decode_utf8(chars);
}

/// Relies on `String::from_utf8`: it returns `Ok` exactly when the bytes are
/// valid UTF-8, and the resulting string spells the decoded characters.
#[verifier::external_body]
fn string_from_utf8_bytes(v: Vec<u8>) -> (r: Option<String>)
    ensures
        r is Some <==> valid_utf8(v@),
        r matches Some(s) ==> s@ == decode_utf8(v@),
{
    String::from_utf8(v).ok()
}

/// Turns a valid UTF-8 byte sequence into the string of its characters.
pub fn utf8_to_string(v: Vec<u8>) -> (r: String)
    requires
        valid_utf8(v@),
    ensures
        r@ == decode_utf8(v@),
        encode_utf8(r@) == v@,
{
    proof {
        decode_utf8_encode_utf8(v@);
    }
    match string_from_utf8_bytes(v) {
        Some(s) => s,
        None => unreached(),
    }
}

// ---------------------------------------------------------------------------
// Decimal rendering
// ---------------------------------------------------------------------------

/// The ASCII decimal digits of `n`, most significant first.
pub open spec fn dec_bytes(n: nat) -> Seq<u8>
    decreases n,
{
    if n < 10 {
        seq![(0x30 + n) as u8]
    } else {
        dec_bytes(n / 10) + seq![(0x30 + n % 10) as u8]
    }
}

/// The ASCII decimal digits of a signed value, with a leading `-` when
/// negative.
pub open spec fn dec_bytes_signed(n: int) -> Seq<u8> {
    if n < 0 {
        seq![0x2Du8] + dec_bytes((-n) as nat)
    } else {
        dec_bytes(n as nat)
    }
}

/// Every byte of a decimal rendering is an ASCII digit.
pub proof fn lemma_dec_bytes_digits(n: nat)
    ensures
        forall|i: int| 0 <= i < dec_bytes(n).len() ==> 0x30 <= #[trigger] dec_bytes(n)[i] <= 0x39,
    decreases n,
{
    if n >= 10 {
        lemma_dec_bytes_digits(n / 10);
        let pre = dec_bytes(n / 10);
        assert forall|i: int| 0 <= i < dec_bytes(n).len() implies 0x30 <= #[trigger] dec_bytes(n)[i]
            <= 0x39 by {
            if i < pre.len() {
                assert(dec_bytes(n)[i] == pre[i]);
            } else {
                assert(dec_bytes(n)[i] == (0x30 + n % 10) as u8);
            }
        }
    }
}

/// A decimal rendering has at least one digit, and at least two for values
/// of ten and above.
pub proof fn lemma_dec_bytes_len(n: nat)
    ensures
        dec_bytes(n).len() >= 1,
        n >= 10 ==> dec_bytes(n).len() >= 2,
    decreases n,
{
    if n >= 10 {
        lemma_dec_bytes_len(n / 10);
    }
}

/// Two values with the same decimal rendering are equal.
pub proof fn lemma_dec_bytes_injective(n1: nat, n2: nat)
    requires
        dec_bytes(n1) == dec_bytes(n2),
    ensures
        n1 == n2,
    decreases n1,
{
    if n1 < 10 && n2 < 10 {
        assert(dec_bytes(n1)[0] == (0x30 + n1) as u8);
        assert(dec_bytes(n2)[0] == (0x30 + n2) as u8);
    } else if n1 < 10 {
        lemma_dec_bytes_len(n2);
        assert(dec_bytes(n1).len() == 1);
        assert(false);
    } else if n2 < 10 {
        lemma_dec_bytes_len(n1);
        assert(dec_bytes(n2).len() == 1);
        assert(false);
    } else {
        let p1 = dec_bytes(n1 / 10);
        let p2 = dec_bytes(n2 / 10);
        let len: int = dec_bytes(n1).len() as int;
        assert(dec_bytes(n1)[len - 1] == (0x30 + n1 % 10) as u8);
        assert(dec_bytes(n2)[len - 1] == (0x30 + n2 % 10) as u8);
        assert(n1 % 10 == n2 % 10);
        assert(p1.len() == p2.len());
        assert forall|i: int| 0 <= i < p1.len() implies p1[i] == p2[i] by {
            assert(dec_bytes(n1)[i] == p1[i]);
            assert(dec_bytes(n2)[i] == p2[i]);
        }
        assert(p1 =~= p2);
        lemma_dec_bytes_injective(n1 / 10, n2 / 10);
        vstd::arithmetic::div_mod::lemma_fundamental_div_mod(n1 as int, 10);
        vstd::arithmetic::div_mod::lemma_fundamental_div_mod(n2 as int, 10);
    }
}

/// Appends the decimal digits of `n` to `out`.
pub fn push_decimal_u64(out: &mut Vec<u8>, n: u64)
    ensures
        final(out)@ == old(out)@ + dec_bytes(n as nat),
    decreases n,
{
    if n < 10 {
        out.push(0x30 + n as u8);
        assert(final(out)@ =~= old(out)@ + dec_bytes(n as nat));
    } else {
        push_decimal_u64(out, n / 10);
        out.push(0x30 + (n % 10) as u8);
        assert(final(out)@ =~= old(out)@ + dec_bytes(n as nat));
    }
}

/// Appends the decimal digits of a signed value, `-` first when negative.
pub fn push_decimal_i64(out: &mut Vec<u8>, n: i64)
    ensures
        final(out)@ == old(out)@ + dec_bytes_signed(n as int),
{
    if n >= 0 {
        push_decimal_u64(out, n as u64);
    } else {
        out.push(0x2D);
        let m: u64 = ((-(n + 1)) as u64) + 1;
        assert(m == -(n as int));
        push_decimal_u64(out, m);
        assert(final(out)@ =~= old(out)@ + dec_bytes_signed(n as int));
    }
}

/// The decimal rendering of `n` as a string.
pub fn u64_to_string(n: u64) -> (r: String)
    ensures
        encode_utf8(r@) == dec_bytes(n as nat),
        r@ == ascii_chars_of(dec_bytes(n as nat)),
{
    let mut out: Vec<u8> = Vec::new();
    push_decimal_u64(&mut out, n);
    proof {
        lemma_dec_bytes_digits(n as nat);
        assert(out@ =~= dec_bytes(n as nat));
        lemma_ascii_bytes_utf8(out@);
    }
    utf8_to_string(out)
}

// ---------------------------------------------------------------------------
// Percent-encoding
// ---------------------------------------------------------------------------

/// Bytes that a percent-encoder passes through unchanged: ASCII letters and
/// digits, and `-`, `.`, `_`, `~`.
pub open spec fn is_unreserved(b: u8) -> bool {
    ||| 0x30 <= b <= 0x39
    ||| 0x41 <= b <= 0x5A
    ||| 0x61 <= b <= 0x7A
    ||| b == 0x2D
    ||| b == 0x2E
    ||| b == 0x5F
    ||| b == 0x7E
}

/// The upper-case hexadecimal digit for a value below 16.
pub open spec fn hex_upper(n: int) -> u8
    recommends
        0 <= n < 16,
{
    if n < 10 {
        (0x30 + n) as u8
    } else {
        (0x37 + n) as u8
    }
}

/// The value of an ASCII hexadecimal digit, either case.
pub open spec fn hex_value(b: u8) -> Option<int> {
    if 0x30 <= b <= 0x39 {
        Some(b - 0x30)
    } else if 0x41 <= b <= 0x46 {
        Some(b - 0x37)
    } else if 0x61 <= b <= 0x66 {
        Some(b - 0x57)
    } else {
        None
    }
}

/// The percent-encoding of one byte: itself when unreserved, else `%XX`.
pub open spec fn pct_encode_byte(b: u8) -> Seq<u8> {
    if is_unreserved(b) {
        seq![b]
    } else {
        seq![0x25u8, hex_upper(b as int / 16), hex_upper(b as int % 16)]
    }
}

/// The percent-encoding of a byte sequence.
pub open spec fn pct_encode(s: Seq<u8>) -> Seq<u8>
    decreases s.len(),
{
    if s.len() == 0 {
        seq![]
    } else {
        pct_encode_byte(s[0]) + pct_encode(s.drop_first())
    }
}

/// The percent-decoding of a byte sequence; `None` on a malformed `%` escape.
pub open spec fn pct_decode(s: Seq<u8>) -> Option<Seq<u8>>
    decreases s.len(),
{
    if s.len() == 0 {
        Some(seq![])
    } else if s[0] == 0x25 {
        if s.len() >= 3 && hex_value(s[1]) is Some && hex_value(s[2]) is Some {
            match pct_decode(s.subrange(3, s.len() as int)) {
                Some(rest) => Some(
                    seq![(hex_value(s[1])->Some_0 * 16 + hex_value(s[2])->Some_0) as u8] + rest,
                ),
                None => None,
            }
        } else {
            None
        }
    } else {
        match pct_decode(s.drop_first()) {
            Some(rest) => Some(seq![s[0]] + rest),
            None => None,
        }
    }
}

/// Every byte a percent-encoder emits: unreserved, `%`, or an upper-case
/// hexadecimal digit.
pub open spec fn is_pct_output_byte(b: u8) -> bool {
    ||| is_unreserved(b)
    ||| b == 0x25
    ||| 0x41 <= b <= 0x46
}

/// Percent-encoded text consists of unreserved bytes, `%`, and hexadecimal
/// digits only; in particular it is ASCII and free of the URL separators
/// `&`, `=`, `?` and `#`.
pub proof fn lemma_pct_encode_output(s: Seq<u8>)
    ensures
        forall|i: int|
            0 <= i < pct_encode(s).len() ==> #[trigger] is_pct_output_byte(pct_encode(s)[i]),
        forall|i: int| 0 <= i < pct_encode(s).len() ==> #[trigger] pct_encode(s)[i] < 0x80,
        forall|i: int|
            0 <= i < pct_encode(s).len() ==> #[trigger] pct_encode(s)[i] != 0x26
                && pct_encode(s)[i] != 0x3D && pct_encode(s)[i] != 0x3F && pct_encode(s)[i]
                != 0x23,
    decreases s.len(),
{
    if s.len() > 0 {
        lemma_pct_encode_output(s.drop_first());
        assert forall|i: int| 0 <= i < pct_encode(s).len() implies #[trigger] is_pct_output_byte(
            pct_encode(s)[i],
        ) by {
            let unit = pct_encode_byte(s[0]);
            if i >= unit.len() {
                assert(pct_encode(s)[i] == pct_encode(s.drop_first())[i - unit.len()]);
            }
        }
    }
}

/// Appending one byte to the input appends that byte's encoding to the
/// output.
proof fn lemma_pct_encode_snoc(s: Seq<u8>, b: u8)
    ensures
        pct_encode(s.push(b)) == pct_encode(s) + pct_encode_byte(b),
    decreases s.len(),
{
    if s.len() == 0 {
        assert(s.push(b).drop_first() =~= Seq::<u8>::empty());
        assert(s.push(b)[0] == b);
        assert(pct_encode(s.push(b)) == pct_encode_byte(b) + pct_encode(Seq::<u8>::empty()));
        assert(pct_encode_byte(b) + Seq::<u8>::empty() =~= Seq::<u8>::empty()
            + pct_encode_byte(b));
        assert(pct_encode(s.push(b)) == pct_encode(s) + pct_encode_byte(b));
    } else {
        assert(s.push(b).drop_first() =~= s.drop_first().push(b));
        lemma_pct_encode_snoc(s.drop_first(), b);
        assert(s.push(b)[0] == s[0]);
        assert(pct_encode(s.push(b)) == pct_encode_byte(s[0]) + pct_encode(s.push(b).drop_first()));
        assert(pct_encode(s.push(b).drop_first()) == pct_encode(s.drop_first())
            + pct_encode_byte(b));
        assert(pct_encode(s) == pct_encode_byte(s[0]) + pct_encode(s.drop_first()));
        vstd::seq_lib::lemma_concat_associative(
            pct_encode_byte(s[0]),
            pct_encode(s.drop_first()),
            pct_encode_byte(b),
        );
        assert(pct_encode(s.push(b)) == pct_encode(s) + pct_encode_byte(b));
    }
}

/// Percent-encodes a byte sequence.
pub fn percent_encode(input: &[u8]) -> (r: Vec<u8>)
    ensures
        r@ == pct_encode(input@),
{
    let mut out: Vec<u8> = Vec::new();
    let mut i: usize = 0;
    while i < input.len()
        invariant
            0 <= i <= input@.len(),
            out@ == pct_encode(input@.take(i as int)),
        decreases input@.len() - i,
    {
        let b = input[i];
        proof {
            assert(input@.take(i as int + 1) =~= input@.take(i as int).push(input@[i as int]));
            lemma_pct_encode_snoc(input@.take(i as int), input@[i as int]);
        }
        if (0x30 <= b && b <= 0x39) || (0x41 <= b && b <= 0x5A) || (0x61 <= b && b <= 0x7A) || b
            == 0x2D || b == 0x2E || b == 0x5F || b == 0x7E {
            out.push(b);
        } else {
            out.push(0x25);
            out.push(hex_digit(b / 16));
            out.push(hex_digit(b % 16));
        }
        assert(out@ =~= pct_encode(input@.take(i as int + 1)));
        i = i + 1;
    }
    proof {
        assert(input@.take(input@.len() as int) =~= input@);
    }
    out
}

/// The upper-case hexadecimal digit of a value below 16.
fn hex_digit(n: u8) -> (r: u8)
    requires
        n < 16,
    ensures
        r == hex_upper(n as int),
{
    if n < 10 {
        0x30 + n
    } else {
        0x37 + n
    }
}

/// The value of an ASCII hexadecimal digit, either case.
fn hex_digit_value(b: u8) -> (r: Option<u8>)
    ensures
        match r {
            Some(v) => hex_value(b) == Some(v as int),
            None => hex_value(b) is None,
        },
{
    if 0x30 <= b && b <= 0x39 {
        Some(b - 0x30)
    } else if 0x41 <= b && b <= 0x46 {
        Some(b - 0x37)
    } else if 0x61 <= b && b <= 0x66 {
        Some(b - 0x57)
    } else {
        None
    }
}

/// What remains of a decoding once a decoded prefix is set aside.
spec fn opt_prepend(prefix: Seq<u8>, rest: Option<Seq<u8>>) -> Option<Seq<u8>> {
    match rest {
        Some(r) => Some(prefix + r),
        None => None,
    }
}

/// Percent-decodes a byte sequence; `None` on a malformed `%` escape.
pub fn percent_decode(input: &[u8]) -> (r: Option<Vec<u8>>)
    ensures
        match r {
            Some(v) => pct_decode(input@) == Some(v@),
            None => pct_decode(input@) is None,
        },
{
    let mut out: Vec<u8> = Vec::new();
    let mut i: usize = 0;
    proof {
        assert(input@.skip(0) =~= input@);
        if pct_decode(input@) is Some {
            assert(Seq::<u8>::empty() + pct_decode(input@)->Some_0 =~= pct_decode(
                input@,
            )->Some_0);
        }
    }
    while i < input.len()
        invariant
            0 <= i <= input@.len(),
            pct_decode(input@) == opt_prepend(out@, pct_decode(input@.skip(i as int))),
        decreases input@.len() - i,
    {
        let ghost tail = input@.skip(i as int);
        let b = input[i];
        if b == 0x25 {
            if input.len() - i < 3 {
                proof {
                    assert(tail[0] == 0x25);
                    assert(tail.len() < 3);
                    assert(pct_decode(tail) is None);
                }
                return None;
            }
            let h1 = hex_digit_value(input[i + 1]);
            let h2 = hex_digit_value(input[i + 2]);
            proof {
                assert(tail[0] == 0x25);
                assert(tail[1] == input@[i as int + 1]);
                assert(tail[2] == input@[i as int + 2]);
            }
            match (h1, h2) {
                (Some(v1), Some(v2)) => {
                    proof {
                        assert(tail.subrange(3, tail.len() as int) =~= input@.skip(i as int + 3));
                    }
                    let ghost out0 = out@;
                    out.push(v1 * 16 + v2);
                    proof {
                        assert forall|r: Seq<u8>|
                            pct_decode(input@.skip(i as int + 3)) == Some(r) implies opt_prepend(
                            out@,
                            pct_decode(input@.skip(i as int + 3)),
                        ) == opt_prepend(out0, pct_decode(tail)) by {
                            assert(out0 + (seq![(v1 * 16 + v2) as u8] + r) =~= out@ + r);
                        }
                    }
                    i = i + 3;
                },
                _ => {
                    proof {
                        assert(pct_decode(tail) is None);
                    }
                    return None;
                },
            }
        } else {
            proof {
                assert(tail[0] == b);
                assert(tail.drop_first() =~= input@.skip(i as int + 1));
            }
            let ghost out0 = out@;
            out.push(b);
            proof {
                assert forall|r: Seq<u8>|
                    pct_decode(input@.skip(i as int + 1)) == Some(r) implies opt_prepend(
                    out@,
                    pct_decode(input@.skip(i as int + 1)),
                ) == opt_prepend(out0, pct_decode(tail)) by {
                    assert(out0 + (seq![b] + r) =~= out@ + r);
                }
            }
            i = i + 1;
        }
    }
    proof {
        assert(input@.skip(input@.len() as int) =~= Seq::<u8>::empty());
        assert(out@ + Seq::<u8>::empty() =~= out@);
    }
    Some(out)
}

// ---------------------------------------------------------------------------
// Round trip
// ---------------------------------------------------------------------------

/// A hexadecimal digit emitted by the encoder decodes back to its value.
proof fn lemma_hex_round_trip(n: int)
    requires
        0 <= n < 16,
    ensures
        hex_value(hex_upper(n)) == Some(n),
{
}

/// Percent-decoding inverts percent-encoding on every byte sequence.
pub proof fn lemma_percent_round_trip(s: Seq<u8>)
    ensures
        pct_decode(pct_encode(s)) == Some(s),
    decreases s.len(),
{
    if s.len() == 0 {
    } else {
        let b = s[0];
        let rest = s.drop_first();
        lemma_percent_round_trip(rest);
        let e = pct_encode(s);
        if is_unreserved(b) {
            assert(e[0] == b);
            assert(b != 0x25);
            assert(e.drop_first() =~= pct_encode(rest));
            assert(seq![b] + rest =~= s);
        } else {
            let h1 = hex_upper(b as int / 16);
            let h2 = hex_upper(b as int % 16);
            lemma_hex_round_trip(b as int / 16);
            lemma_hex_round_trip(b as int % 16);
            assert(e[0] == 0x25);
            assert(e[1] == h1);
            assert(e[2] == h2);
            assert(e.subrange(3, e.len() as int) =~= pct_encode(rest));
            assert((hex_value(h1)->Some_0 * 16 + hex_value(h2)->Some_0) as u8 == b);
            assert(seq![b] + rest =~= s);
        }
    }
}

/// The UTF-8 encoding of a sequence starting with an ASCII character is
/// non-empty and starts with that character's byte.
pub proof fn lemma_encode_utf8_first_ascii(s: Seq<char>)
    requires
        s.len() > 0,
        s[0] as u32 <= 0x7F,
    ensures
        encode_utf8(s).len() > 0,
        encode_utf8(s)[0] == (s[0] as u32) as u8,
{
    let c: u32 = s[0] as u32;
    assert(vstd::utf8::encode_scalar(c) =~= seq![vstd::utf8::leading_byte_width_1(c)]);
    assert(vstd::utf8::leading_byte_width_1(c) == c as u8) by (bit_vector)
        requires
            c <= 0x7F,
    ;
    assert(encode_utf8(s)[0] == vstd::utf8::leading_byte_width_1(c));
}

/// Two character sequences with the same UTF-8 encoding are equal.
pub proof fn lemma_encode_utf8_injective(c1: Seq<char>, c2: Seq<char>)
    requires
        encode_utf8(c1) == encode_utf8(c2),
    ensures
        c1 == c2,
{
    encode_utf8_decode_utf8(c1);
    encode_utf8_decode_utf8(c2);
}

/// Two byte sequences with the same percent-encoding are equal.
pub proof fn lemma_pct_encode_injective(x1: Seq<u8>, x2: Seq<u8>)
    requires
        pct_encode(x1) == pct_encode(x2),
    ensures
        x1 == x2,
{
    lemma_percent_round_trip(x1);
    lemma_percent_round_trip(x2);
}

/// A message string percent-encodes losslessly: decoding the encoded bytes
/// recovers exactly the UTF-8 bytes of the original message, which decode
/// back to the original characters.
pub proof fn lemma_message_round_trip(msg: Seq<char>)
    ensures
        pct_decode(pct_encode(encode_utf8(msg))) == Some(encode_utf8(msg)),
        valid_utf8(encode_utf8(msg)),
        decode_utf8(encode_utf8(msg)) == msg,
{
    lemma_percent_round_trip(encode_utf8(msg));
    encode_utf8_valid_utf8(msg);
    encode_utf8_decode_utf8(msg);
}

// ---------------------------------------------------------------------------
// String-level entry points
// ---------------------------------------------------------------------------

/// Percent-encodes a string for use as a URL query value.
pub fn encode_component(s: &str) -> (r: String)
    ensures
        encode_utf8(r@) == pct_encode(encode_utf8(s@)),
{
    let bytes = s.as_bytes();
    let enc = percent_encode(bytes);
    proof {
        lemma_pct_encode_output(encode_utf8(s@));
        lemma_ascii_bytes_utf8(enc@);
    }
    utf8_to_string(enc)
}

/// Percent-decodes a string; `None` on a malformed escape or when the decoded
/// bytes are not UTF-8.
pub fn decode_component(s: &str) -> (r: Option<String>)
    ensures
        match pct_decode(encode_utf8(s@)) {
            Some(b) => {
                &&& valid_utf8(b) ==> (r matches Some(t) && t@ == decode_utf8(b))
                &&& !valid_utf8(b) ==> r is None
            },
            None => r is None,
        },
{
    match percent_decode(s.as_bytes()) {
        Some(v) => string_from_utf8_bytes(v),
        None => None,
    }
}

} // verus!
