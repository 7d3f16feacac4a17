use vstd::prelude::*;

verus! {

/// The base64 alphabet of RFC 4648: `A`-`Z`, `a`-`z`, `0`-`9`, `+`, `/`.
pub open spec fn base64_char(v: int) -> char {
    if v < 26 {
        (65 + v) as char
    } else if v < 52 {
        (97 + (v - 26)) as char
    } else if v < 62 {
        (48 + (v - 52)) as char
    } else if v == 62 {
        '+'
    } else {
        '/'
    }
}

/// The six-bit value a base64 character stands for.
pub open spec fn base64_value(c: char) -> int {
    let x = c as int;
    if 65 <= x <= 90 {
        x - 65
    } else if 97 <= x <= 122 {
        x - 97 + 26
    } else if 48 <= x <= 57 {
        x - 48 + 52
    } else if c == '+' {
        62
    } else {
        63
    }
}

/// The standard base64 encoding of `bytes` (RFC 4648, with `=` padding):
/// every three bytes become four characters of six bits each, and a last
/// group of one or two bytes is padded to four characters with `=`.
pub open spec fn standard_base64(bytes: Seq<u8>) -> Seq<char>
    decreases bytes.len(),
{
    if bytes.len() == 0 {
        Seq::empty()
    } else if bytes.len() == 1 {
        let b0 = bytes[0] as int;
        seq![base64_char(b0 / 4), base64_char((b0 % 4) * 16), '=', '=']
    } else if bytes.len() == 2 {
        let b0 = bytes[0] as int;
        let b1 = bytes[1] as int;
        seq![base64_char(b0 / 4), base64_char((b0 % 4) * 16 + b1 / 16), base64_char((b1 % 16) * 4), '=']
    } else {
        let b0 = bytes[0] as int;
        let b1 = bytes[1] as int;
        let b2 = bytes[2] as int;
        seq![
            base64_char(b0 / 4),
            base64_char((b0 % 4) * 16 + b1 / 16),
            base64_char((b1 % 16) * 4 + b2 / 64),
            base64_char(b2 % 64),
        ] + standard_base64(bytes.skip(3))
    }
}

/// `text` is the standard base64 encoding of some bytes.
pub open spec fn is_standard_base64(text: Seq<char>) -> bool {
    exists|b: Seq<u8>| standard_base64(b) == text
}

/// The bytes a standard base64 text encodes, group by group of four
/// characters; meaningful when `is_standard_base64(text)`.
pub open spec fn base64_bytes(text: Seq<char>) -> Seq<u8>
    decreases text.len(),
{
    if text.len() < 4 {
        Seq::empty()
    } else {
        let v0 = base64_value(text[0]);
        let v1 = base64_value(text[1]);
        let v2 = base64_value(text[2]);
        let v3 = base64_value(text[3]);
        if text.len() == 4 && text[2] == '=' {
            seq![(v0 * 4 + v1 / 16) as u8]
        } else if text.len() == 4 && text[3] == '=' {
            seq![(v0 * 4 + v1 / 16) as u8, ((v1 % 16) * 16 + v2 / 4) as u8]
        } else {
            seq![
                (v0 * 4 + v1 / 16) as u8,
                ((v1 % 16) * 16 + v2 / 4) as u8,
                ((v2 % 4) * 64 + v3) as u8,
            ] + base64_bytes(text.skip(4))
        }
    }
}

proof fn lemma_base64_char(v: int)
    requires
        0 <= v < 64,
    ensures
        base64_value(base64_char(v)) == v,
        base64_char(v) != '=',
{
    if v < 26 {
        assert((65 + v) as char as int == 65 + v);
    } else if v < 52 {
        assert((97 + (v - 26)) as char as int == 97 + (v - 26));
    } else if v < 62 {
        assert((48 + (v - 52)) as char as int == 48 + (v - 52));
    }
}

proof fn lemma_one_byte(b0: int)
    requires
        0 <= b0 < 256,
    ensures
        0 <= b0 / 4 < 64,
        0 <= (b0 % 4) * 16 < 64,
        (b0 / 4) * 4 + ((b0 % 4) * 16) / 16 == b0,
{
    assert((b0 / 4) * 4 + b0 % 4 == b0) by (nonlinear_arith);
    assert(0 <= b0 / 4 < 64) by (nonlinear_arith)
        requires 0 <= b0 < 256;
    assert(((b0 % 4) * 16) / 16 == b0 % 4) by (nonlinear_arith);
}

proof fn lemma_two_bytes(b0: int, b1: int)
    requires
        0 <= b0 < 256,
        0 <= b1 < 256,
    ensures
        0 <= (b0 % 4) * 16 + b1 / 16 < 64,
        0 <= (b1 % 16) * 4 < 64,
        (b0 / 4) * 4 + ((b0 % 4) * 16 + b1 / 16) / 16 == b0,
        (((b0 % 4) * 16 + b1 / 16) % 16) * 16 + ((b1 % 16) * 4) / 4 == b1,
{
    lemma_one_byte(b0);
    assert(0 <= b1 / 16 < 16) by (nonlinear_arith)
        requires 0 <= b1 < 256;
    assert(((b0 % 4) * 16 + b1 / 16) / 16 == b0 % 4) by (nonlinear_arith)
        requires 0 <= b1 / 16 < 16, 0 <= b0 % 4 < 4;
    assert(((b0 % 4) * 16 + b1 / 16) % 16 == b1 / 16) by (nonlinear_arith)
        requires 0 <= b1 / 16 < 16, 0 <= b0 % 4 < 4;
    assert(((b1 % 16) * 4) / 4 == b1 % 16) by (nonlinear_arith);
    assert((b1 / 16) * 16 + b1 % 16 == b1) by (nonlinear_arith);
}

proof fn lemma_three_bytes(b1: int, b2: int)
    requires
        0 <= b1 < 256,
        0 <= b2 < 256,
    ensures
        0 <= (b1 % 16) * 4 + b2 / 64 < 64,
        0 <= b2 % 64 < 64,
        ((b1 % 16) * 4 + b2 / 64) / 4 == b1 % 16,
        (((b1 % 16) * 4 + b2 / 64) % 4) * 64 + b2 % 64 == b2,
{
    assert(0 <= b2 / 64 < 4) by (nonlinear_arith)
        requires 0 <= b2 < 256;
    assert(((b1 % 16) * 4 + b2 / 64) / 4 == b1 % 16) by (nonlinear_arith)
        requires 0 <= b2 / 64 < 4, 0 <= b1 % 16 < 16;
    assert(((b1 % 16) * 4 + b2 / 64) % 4 == b2 / 64) by (nonlinear_arith)
        requires 0 <= b2 / 64 < 4, 0 <= b1 % 16 < 16;
    assert((b2 / 64) * 64 + b2 % 64 == b2) by (nonlinear_arith);
}

/// Decoding a standard base64 encoding gives back the bytes encoded.
pub proof fn base64_reads_back(bytes: Seq<u8>)
    ensures
        base64_bytes(standard_base64(bytes)) == bytes,
    decreases bytes.len(),
{
    let t = standard_base64(bytes);
    if bytes.len() == 0 {
    } else if bytes.len() == 1 {
        let b0 = bytes[0] as int;
        lemma_one_byte(b0);
        lemma_base64_char(b0 / 4);
        lemma_base64_char((b0 % 4) * 16);
        assert(base64_bytes(t) =~= bytes);
    } else if bytes.len() == 2 {
        let b0 = bytes[0] as int;
        let b1 = bytes[1] as int;
        lemma_two_bytes(b0, b1);
        lemma_base64_char(b0 / 4);
        lemma_base64_char((b0 % 4) * 16 + b1 / 16);
        lemma_base64_char((b1 % 16) * 4);
        assert(base64_bytes(t) =~= bytes);
    } else {
        let b0 = bytes[0] as int;
        let b1 = bytes[1] as int;
        let b2 = bytes[2] as int;
        lemma_two_bytes(b0, b1);
        lemma_three_bytes(b1, b2);
        lemma_base64_char(b0 / 4);
        lemma_base64_char((b0 % 4) * 16 + b1 / 16);
        lemma_base64_char((b1 % 16) * 4 + b2 / 64);
        lemma_base64_char(b2 % 64);
        base64_length(bytes.skip(3));
        base64_reads_back(bytes.skip(3));
        assert(t.skip(4) =~= standard_base64(bytes.skip(3)));
        assert(bytes =~= seq![bytes[0], bytes[1], bytes[2]] + bytes.skip(3));
        assert(base64_bytes(t) =~= bytes);
    }
}

/// A standard base64 text has four characters for every started group of
/// three bytes.
pub proof fn base64_length(bytes: Seq<u8>)
    ensures
        standard_base64(bytes).len() == 4 * ((bytes.len() + 2) / 3),
    decreases bytes.len(),
{
    if bytes.len() >= 3 {
        base64_length(bytes.skip(3));
        assert(4 * ((bytes.len() + 2) / 3) == 4 + 4 * ((bytes.len() - 3 + 2) / 3)) by (nonlinear_arith)
            requires bytes.len() >= 3;
    }
}

/// Different bytes have different standard base64 encodings.
pub proof fn base64_is_injective(a: Seq<u8>, b: Seq<u8>)
    requires
        standard_base64(a) == standard_base64(b),
    ensures
        a == b,
{
    base64_reads_back(a);
    base64_reads_back(b);
}

} // verus!
