//! The fingerprint of a text: the first 128 bits of its BLAKE3 hash.
use crate::text::to_text;
use vstd::prelude::*;
use vstd::string::StringSliceAdditionalSpecFns;

verus! {

/// What `blake3::hash` returns for `data`, as its 32 bytes.
pub uninterp spec fn blake3_digest(data: Seq<u8>) -> Seq<u8>;

/// `blake3::hash`: the 32 bytes of the hash of `data`, which `data` alone
/// determines.
#[verifier::external_body]
pub(crate) fn blake3_hash(data: &[u8]) -> (digest: [u8; 32])
    ensures
        digest@ == blake3_digest(data@),
{
    *blake3::hash(data).as_bytes()
}

/// The number that `bytes` spell, most significant byte first.
pub open spec fn be_value(bytes: Seq<u8>) -> nat
    decreases bytes.len(),
{
    if bytes.len() == 0 {
        0
    } else {
        be_value(bytes.drop_last()) * 256 + bytes.last() as nat
    }
}

/// 256 to the power `n`.
pub open spec fn byte_range(n: nat) -> nat
    decreases n,
{
    if n == 0 {
        1
    } else {
        256 * byte_range((n - 1) as nat)
    }
}

/// The fingerprint of a text: the first 16 bytes of the BLAKE3 hash of its
/// UTF-8 encoding, read as one number, most significant byte first.
pub open spec fn fingerprint_of(input: Seq<char>) -> nat {
    be_value(blake3_digest(vstd::utf8::encode_utf8(input)).take(16))
}

/// `n` bytes spell a number below 256 to the power `n`.
pub proof fn lemma_be_value_bound(bytes: Seq<u8>)
    ensures
        be_value(bytes) < byte_range(bytes.len()),
    decreases bytes.len(),
{
    if bytes.len() > 0 {
        lemma_be_value_bound(bytes.drop_last());
    }
}

/// Sixteen bytes fit in a `u128`.
pub proof fn lemma_sixteen_bytes()
    ensures
        byte_range(16) == 0x1_0000_0000_0000_0000_0000_0000_0000_0000,
{
    reveal_with_fuel(byte_range, 17);
}

/// The first 16 bytes of a digest as one number, most significant byte
/// first.
pub fn hash_u128(digest: &[u8; 32]) -> (h: u128)
    ensures
        h == be_value(digest@.take(16)),
{
    let mut acc: u128 = 0;
    let mut i: usize = 0;
    while i < 16
        invariant
            i <= 16,
            acc == be_value(digest@.take(i as int)),
        decreases 16 - i,
    {
        proof {
            let head = digest@.take(i + 1);
            assert(head.drop_last() == digest@.take(i as int));
            lemma_be_value_bound(head);
            lemma_sixteen_bytes();
            lemma_byte_range_grows((i + 1) as nat, 16);
        }
        acc = acc * 256 + digest[i] as u128;
        i += 1;
    }
    acc
}

/// 256 to a power does not shrink as the power grows.
pub proof fn lemma_byte_range_grows(a: nat, b: nat)
    requires
        a <= b,
    ensures
        byte_range(a) <= byte_range(b),
        byte_range(a) >= 1,
    decreases b,
{
    if a < b {
        lemma_byte_range_grows(a, (b - 1) as nat);
    } else if a > 0 {
        lemma_byte_range_grows((a - 1) as nat, (a - 1) as nat);
    }
}

/// The fingerprint of the text `input`.
pub fn fingerprint(input: &str) -> (h: u128)
    ensures
        h == fingerprint_of(input@),
{
    let digest = blake3_hash(input.as_bytes());
    hash_u128(&digest)
}

/// The hexadecimal digit for a value below sixteen, in lower case.
pub open spec fn hex_digit(v: nat) -> char {
    if v < 10 {
        (('0' as nat) + v) as char
    } else {
        (('a' as nat) + v - 10) as char
    }
}

/// The last `n` hexadecimal digits of `v`, in lower case, with leading
/// zeros where `v` has fewer.
pub open spec fn hex_digits(v: nat, n: nat) -> Seq<char>
    decreases n,
{
    if n == 0 {
        seq![]
    } else {
        hex_digits(v / 16, (n - 1) as nat).push(hex_digit(v % 16))
    }
}

/// The lower-case hexadecimal digit for `v`.
pub fn hex_char(v: u8) -> (c: char)
    requires
        v < 16,
    ensures
        c == hex_digit(v as nat),
{
    let digits: [char; 16] = [
        '0',
        '1',
        '2',
        '3',
        '4',
        '5',
        '6',
        '7',
        '8',
        '9',
        'a',
        'b',
        'c',
        'd',
        'e',
        'f',
    ];
    digits[v as usize]
}

/// A fingerprint as 32 hexadecimal digits in lower case.
pub fn hash_hex(hash: u128) -> (s: String)
    ensures
        s@ == hex_digits(hash as nat, 32),
        s@.len() == 32,
{
    let mut low_first: Vec<char> = Vec::new();
    let mut rest: u128 = hash;
    let mut i: usize = 0;
    while i < 32
        invariant
            i <= 32,
            low_first.len() == i,
            hex_digits(hash as nat, 32) == hex_digits(rest as nat, (32 - i) as nat)
                + low_first@.reverse(),
        decreases 32 - i,
    {
        let d = (rest % 16) as u8;
        low_first.push(hex_char(d));
        rest = rest / 16;
        i += 1;
    }
    let mut digits: Vec<char> = Vec::new();
    let mut k: usize = 32;
    while k > 0
        invariant
            k <= 32,
            low_first.len() == 32,
            digits@ == low_first@.reverse().take(32 - k),
        decreases k,
    {
        k -= 1;
        digits.push(low_first[k]);
    }
    to_text(&digits)
}

} // verus!
