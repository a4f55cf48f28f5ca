//! Byte-level encoding of a record's hash input, the SHA-256 digest call, and
//! lowercase hexadecimal rendering of digests.

use vstd::prelude::*;
use vstd::utf8::encode_utf8;

verus! {

/// The SHA-256 digest of a byte sequence. The digest is a function of the
/// input bytes alone; its value is not axiomatized here, only named.
pub uninterp spec fn sha256_bytes(input: Seq<u8>) -> Seq<u8>;

/// Relies on `sha2::Sha256` through the `sha2::Digest` trait: `digest`
/// computes the SHA-256 digest of the input bytes, 32 bytes long, and
/// depends on the input bytes alone.
#[verifier::external_body]
pub(crate) fn sha256_digest(input: &Vec<u8>) -> (r: Vec<u8>)
    ensures
        r@ == sha256_bytes(input@),
        r@.len() == 32,
{
    <sha2::Sha256 as sha2::Digest>::digest(input.as_slice()).to_vec()
}

/// The exact byte sequence a record's hash commits to: the UTF-8 bytes of the
/// payload, then the UTF-8 bytes of the predecessor hash if one is present
/// (nothing at all when it is absent), then the decimal digits of the
/// timestamp as ASCII bytes.
pub open spec fn hash_input(data: Seq<char>, prev_hash: Option<Seq<char>>, timestamp: u64) -> Seq<
    u8,
> {
    encode_utf8(data) + (match prev_hash {
        Option::Some(p) => encode_utf8(p),
        Option::None => Seq::<u8>::empty(),
    }) + decimal_bytes(timestamp as nat)
}

/// A record's hash string, as a sequence of characters: the lowercase
/// hexadecimal rendering of the SHA-256 digest of its hash input.
pub open spec fn record_hash(
    data: Seq<char>,
    prev_hash: Option<Seq<char>>,
    timestamp: u64,
) -> Seq<char> {
    hex_chars(sha256_bytes(hash_input(data, prev_hash, timestamp)))
}

/// The decimal digits of `n`, most significant first, as ASCII bytes
/// (the bytes of `n` written in base ten with no leading zeros).
pub open spec fn decimal_bytes(n: nat) -> Seq<u8>
    decreases n,
{
    if n < 10 {
        seq![(48 + n) as u8]
    } else {
        decimal_bytes(n / 10) + seq![(48 + n % 10) as u8]
    }
}

/// Appends the decimal digits of `n` to `out`.
pub fn push_decimal(out: &mut Vec<u8>, n: u64)
    ensures
        final(out)@ == old(out)@ + decimal_bytes(n as nat),
    decreases n,
{
    if n < 10 {
        out.push(48 + n as u8);
        assert(out@ =~= old(out)@ + decimal_bytes(n as nat));
    } else {
        push_decimal(out, n / 10);
        out.push(48 + (n % 10) as u8);
        assert(out@ =~= old(out)@ + decimal_bytes(n as nat));
    }
}

/// The lowercase hexadecimal digit for a value `d` with `0 <= d < 16`.
pub open spec fn hex_digit_char(d: int) -> char
    recommends
        0 <= d < 16,
{
    if d == 0 {
        '0'
    } else if d == 1 {
        '1'
    } else if d == 2 {
        '2'
    } else if d == 3 {
        '3'
    } else if d == 4 {
        '4'
    } else if d == 5 {
        '5'
    } else if d == 6 {
        '6'
    } else if d == 7 {
        '7'
    } else if d == 8 {
        '8'
    } else if d == 9 {
        '9'
    } else if d == 10 {
        'a'
    } else if d == 11 {
        'b'
    } else if d == 12 {
        'c'
    } else if d == 13 {
        'd'
    } else if d == 14 {
        'e'
    } else {
        'f'
    }
}

/// The lowercase hexadecimal rendering of a byte sequence: two digits per
/// byte, high nibble first.
pub open spec fn hex_chars(bytes: Seq<u8>) -> Seq<char> {
    Seq::new(
        2 * bytes.len(),
        |i: int|
            if i % 2 == 0 {
                hex_digit_char(bytes[i / 2] as int / 16)
            } else {
                hex_digit_char(bytes[i / 2] as int % 16)
            },
    )
}

fn hex_digit_str(d: u8) -> (r: &'static str)
    requires
        d < 16,
    ensures
        r@ == seq![hex_digit_char(d as int)],
{
    proof {
        reveal_strlit("0");
        reveal_strlit("1");
        reveal_strlit("2");
        reveal_strlit("3");
        reveal_strlit("4");
        reveal_strlit("5");
        reveal_strlit("6");
        reveal_strlit("7");
        reveal_strlit("8");
        reveal_strlit("9");
        reveal_strlit("a");
        reveal_strlit("b");
        reveal_strlit("c");
        reveal_strlit("d");
        reveal_strlit("e");
        reveal_strlit("f");
    }
    let r: &'static str = if d == 0 {
        "0"
    } else if d == 1 {
        "1"
    } else if d == 2 {
        "2"
    } else if d == 3 {
        "3"
    } else if d == 4 {
        "4"
    } else if d == 5 {
        "5"
    } else if d == 6 {
        "6"
    } else if d == 7 {
        "7"
    } else if d == 8 {
        "8"
    } else if d == 9 {
        "9"
    } else if d == 10 {
        "a"
    } else if d == 11 {
        "b"
    } else if d == 12 {
        "c"
    } else if d == 13 {
        "d"
    } else if d == 14 {
        "e"
    } else {
        "f"
    };
    assert(r@ =~= seq![hex_digit_char(d as int)]);
    r
}

/// Renders `bytes` as a lowercase hexadecimal string, two digits per byte.
pub fn bytes_to_hex(bytes: &Vec<u8>) -> (r: String)
    ensures
        r@ == hex_chars(bytes@),
{
    let mut r = String::new();
    let mut i: usize = 0;
    while i < bytes.len()
        invariant
            i <= bytes@.len(),
            r@.len() == 2 * i,
            forall|j: int| 0 <= j < r@.len() ==> r@[j] == hex_chars(bytes@)[j],
        decreases bytes@.len() - i,
    {
        let b = bytes[i];
        r.append(hex_digit_str(b / 16));
        r.append(hex_digit_str(b % 16));
        i += 1;
    }
    proof {
        assert(r@ =~= hex_chars(bytes@));
    }
    r
}

/// A lowercase hexadecimal digit.
pub open spec fn is_hex_digit(c: char) -> bool {
    (48 <= c as u32 && c as u32 <= 57) || (97 <= c as u32 && c as u32 <= 102)
}

/// Every character of a hexadecimal rendering is a lowercase hex digit.
pub proof fn lemma_hex_chars_are_hex(bytes: Seq<u8>, i: int)
    requires
        0 <= i < hex_chars(bytes).len(),
    ensures
        is_hex_digit(hex_chars(bytes)[i]),
{
}

/// An absent predecessor hash and an empty one contribute the same bytes
/// (none) to the hash input, so the derived hashes coincide: the two are
/// distinguishable only through the contributed byte length.
pub proof fn lemma_absent_prev_like_empty(data: Seq<char>, timestamp: u64)
    ensures
        record_hash(data, Option::None, timestamp) == record_hash(
            data,
            Option::Some(Seq::empty()),
            timestamp,
        ),
{
    assert(encode_utf8(Seq::<char>::empty()) =~= Seq::<u8>::empty());
    assert(hash_input(data, Option::None, timestamp) =~= hash_input(
        data,
        Option::Some(Seq::empty()),
        timestamp,
    ));
}

} // verus!
