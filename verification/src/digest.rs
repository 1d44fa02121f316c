//! SHA-256 digests in hexadecimal notation.

use sha2::Digest;
use sha2::Sha256;
use vstd::prelude::*;

verus! {

broadcast use vstd::string::group_string_axioms;

/// What SHA-256 makes of some bytes.
pub uninterp spec fn sha256(bytes: Seq<u8>) -> Seq<u8>;

/// `sha2::Sha256::digest`: 32 bytes that depend on the given bytes alone.
#[verifier::external_body]
fn sha256_bytes(bytes: &Vec<u8>) -> (r: Vec<u8>)
    ensures
        r@ == sha256(bytes@),
        r@.len() == 32,
{
    Sha256::digest(bytes).to_vec()
}

/// The hexadecimal digit `n`.
pub open spec fn hex_digit(n: int) -> char {
    if n < 10 {
        ('0' as u32 + n) as char
    } else {
        ('a' as u32 + (n - 10)) as char
    }
}

/// Bytes in lower-case hexadecimal notation.
pub open spec fn hex(bytes: Seq<u8>) -> Seq<char>
    decreases bytes.len(),
{
    if bytes.len() == 0 {
        Seq::empty()
    } else {
        hex(bytes.drop_last()).push(hex_digit(bytes.last() as int / 16)).push(
            hex_digit(bytes.last() as int % 16),
        )
    }
}

fn hex_char(n: u8) -> (c: char)
    requires
        n < 16,
    ensures
        c == hex_digit(n as int),
{
    match n {
        0 => '0',
        1 => '1',
        2 => '2',
        3 => '3',
        4 => '4',
        5 => '5',
        6 => '6',
        7 => '7',
        8 => '8',
        9 => '9',
        10 => 'a',
        11 => 'b',
        12 => 'c',
        13 => 'd',
        14 => 'e',
        _ => 'f',
    }
}

/// Bytes in lower-case hexadecimal notation.
pub fn hex_text(bytes: &Vec<u8>) -> (r: String)
    ensures
        r@ == hex(bytes@),
{
    let mut out = String::new();
    let mut i: usize = 0;
    while i < bytes.len()
        invariant
            i <= bytes.len(),
            out@ == hex(bytes@.take(i as int)),
        decreases bytes.len() - i,
    {
        let ghost part = bytes@.take(i + 1);
        assert(part.drop_last() =~= bytes@.take(i as int));
        assert(part.last() == bytes@[i as int]);
        out.push(hex_char(bytes[i] / 16));
        out.push(hex_char(bytes[i] % 16));
        i += 1;
    }
    assert(bytes@.take(bytes@.len() as int) =~= bytes@);
    out
}

/// The SHA-256 digest of some bytes, in hexadecimal notation.
pub fn sha256_hex(bytes: &Vec<u8>) -> (r: String)
    ensures
        r@ == hex(sha256(bytes@)),
{
    hex_text(&sha256_bytes(bytes))
}

/// Whether `c` is a lower- or upper-case hexadecimal digit.
pub open spec fn is_hex(c: char) -> bool {
    let n = c as u32;
    0x30 <= n <= 0x39 || 0x41 <= n <= 0x46 || 0x61 <= n <= 0x66
}

/// Whether `c` is a hexadecimal digit (`char::is_ascii_hexdigit`).
pub fn is_hex_digit(c: char) -> (r: bool)
    ensures
        r == is_hex(c),
{
    let n: u32 = c as u32;
    (0x30 <= n && n <= 0x39) || (0x41 <= n && n <= 0x46) || (0x61 <= n && n <= 0x66)
}

/// The value of a digit to the base sixteen.
pub open spec fn digit_of(c: char) -> int {
    if '0' <= c <= '9' {
        c as u32 - '0' as u32
    } else {
        c as u32 - 'a' as u32 + 10
    }
}

/// Every byte is written with two digits, the greater first, and can be read off from them.
pub proof fn bytes_are_read_off_their_digits(bytes: Seq<u8>, i: int)
    requires
        0 <= i < bytes.len(),
    ensures
        hex(bytes).len() == 2 * bytes.len(),
        bytes[i] == 16 * digit_of(hex(bytes)[2 * i]) + digit_of(hex(bytes)[2 * i + 1]),
        '0' <= hex(bytes)[2 * i] <= '9' || 'a' <= hex(bytes)[2 * i] <= 'f',
        '0' <= hex(bytes)[2 * i + 1] <= '9' || 'a' <= hex(bytes)[2 * i + 1] <= 'f',
    decreases bytes.len(),
{
    let front = bytes.drop_last();
    if front.len() > 0 {
        bytes_are_read_off_their_digits(front, if i < front.len() {
            i
        } else {
            0
        });
    }
    let high = bytes.last() as int / 16;
    let low = bytes.last() as int % 16;
    assert(0 <= high < 16 && 0 <= low < 16);
    assert(16 * high + low == bytes.last());
    assert(hex(front).len() == 2 * front.len()) by {
        if front.len() == 0 {
            assert(hex(front) == Seq::<char>::empty());
        }
    }
    assert(hex(bytes) == hex(front).push(hex_digit(high)).push(hex_digit(low)));
    if i < front.len() {
        assert(bytes[i] == front[i]);
        assert(hex(bytes)[2 * i] == hex(front)[2 * i]);
        assert(hex(bytes)[2 * i + 1] == hex(front)[2 * i + 1]);
    } else {
        assert(hex(bytes)[2 * i] == hex_digit(high));
        assert(hex(bytes)[2 * i + 1] == hex_digit(low));
        assert(digit_of(hex_digit(high)) == high);
        assert(digit_of(hex_digit(low)) == low);
    }
}

} // verus!
