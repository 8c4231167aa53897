//! Integrity primitives.
//!
//! The runtime archive is authenticated with a whole-file SHA-1 digest
//! obtained fresh from the remote release index; already-extracted files
//! are only guarded against local corruption, with the cheap CRC-32 that
//! the archive itself records per entry.  The two hash computations are
//! outside calls; everything around them — hex encoding, case folding and
//! the comparison — is verified here.

use vstd::prelude::*;

use sha1::Digest;

verus! {

/// The SHA-1 digest (20 bytes) of a byte sequence, as `sha1::Sha1`
/// computes it.
pub uninterp spec fn sha1_of(bytes: Seq<u8>) -> Seq<u8>;

/// The CRC-32 (IEEE) checksum of a byte sequence, as `crc32fast::hash`
/// computes it.
pub uninterp spec fn crc32_of(bytes: Seq<u8>) -> u32;

/// Relies on sha1::Sha1 through the digest crate's `Digest::digest`: the
/// SHA-1 digest of the input, 20 bytes long, a function of the input
/// bytes alone.
#[verifier::external_body]
pub(crate) fn sha1_digest(bytes: &[u8]) -> (r: Vec<u8>)
    ensures
        r@ == sha1_of(bytes@),
        r@.len() == 20,
{
    sha1::Sha1::digest(bytes).to_vec()
}

/// Relies on crc32fast::hash: the CRC-32 (IEEE) checksum of the input, a
/// function of the input bytes alone.
#[verifier::external_body]
pub(crate) fn crc32(bytes: &[u8]) -> (r: u32)
    ensures
        r == crc32_of(bytes@),
{
    crc32fast::hash(bytes)
}

/// The lowercase hexadecimal digit for a value below 16.
pub open spec fn spec_hex_digit(n: int) -> char {
    if n == 0 {
        '0'
    } else if n == 1 {
        '1'
    } else if n == 2 {
        '2'
    } else if n == 3 {
        '3'
    } else if n == 4 {
        '4'
    } else if n == 5 {
        '5'
    } else if n == 6 {
        '6'
    } else if n == 7 {
        '7'
    } else if n == 8 {
        '8'
    } else if n == 9 {
        '9'
    } else if n == 10 {
        'a'
    } else if n == 11 {
        'b'
    } else if n == 12 {
        'c'
    } else if n == 13 {
        'd'
    } else if n == 14 {
        'e'
    } else {
        'f'
    }
}

/// The lowercase hexadecimal rendering of a byte sequence: two digits per
/// byte, high nibble first.
pub open spec fn spec_hex(bytes: Seq<u8>) -> Seq<char> {
    Seq::new(
        bytes.len() * 2,
        |i: int|
            if i % 2 == 0 {
                spec_hex_digit(bytes[i / 2] as int / 16)
            } else {
                spec_hex_digit(bytes[i / 2] as int % 16)
            },
    )
}

/// Folds the six uppercase hexadecimal letters to lowercase; every other
/// character is left alone.
pub open spec fn spec_fold_hex(c: char) -> char {
    match c {
        'A' => 'a',
        'B' => 'b',
        'C' => 'c',
        'D' => 'd',
        'E' => 'e',
        'F' => 'f',
        _ => c,
    }
}

/// The archive digest check: the SHA-1 of the archive bytes, rendered as
/// lowercase hex, equals the expected digest up to hex letter case.
pub open spec fn spec_digest_matches(archive: Seq<u8>, expected: Seq<char>) -> bool {
    expected.map_values(|c: char| spec_fold_hex(c)) == spec_hex(sha1_of(archive))
}

fn hex_digit(n: u8) -> (c: char)
    requires
        n < 16,
    ensures
        c == spec_hex_digit(n as int),
{
    match n {
        0 => '0',
        1 => '1',
        2 => '2',
        3 => '3',
        4 => '4',
        5 => '5',
        6 => '6',
        7 => '7',
        8 => '8',
        9 => '9',
        10 => 'a',
        11 => 'b',
        12 => 'c',
        13 => 'd',
        14 => 'e',
        _ => 'f',
    }
}

fn fold_hex(c: char) -> (r: char)
    ensures
        r == spec_fold_hex(c),
{
    match c {
        'A' => 'a',
        'B' => 'b',
        'C' => 'c',
        'D' => 'd',
        'E' => 'e',
        'F' => 'f',
        _ => c,
    }
}

/// Checks the whole archive against an expected SHA-1 digest given as a
/// 40-digit hex string, compared case-insensitively in the hex letters.
pub fn check_archive_digest(archive: &Vec<u8>, expected: &str) -> (r: bool)
    ensures
        r == spec_digest_matches(archive@, expected@),
{
    let digest = sha1_digest(archive.as_slice());
    let ghost folded = expected@.map_values(|c: char| spec_fold_hex(c));
    let n = expected.unicode_len();
    if n != 40 {
        assert(folded.len() != spec_hex(sha1_of(archive@)).len());
        return false;
    }
    let mut i: usize = 0;
    while i < 20
        invariant
            i <= 20,
            n == 40,
            n == expected@.len(),
            digest@ == sha1_of(archive@),
            digest@.len() == 20,
            folded == expected@.map_values(|c: char| spec_fold_hex(c)),
            forall|j: int|
                0 <= j < 2 * i ==> folded[j] == spec_hex(sha1_of(archive@))[j],
        decreases 20 - i,
    {
        let b = digest[i];
        let hi = hex_digit(b / 16);
        let lo = hex_digit(b % 16);
        let e_hi = fold_hex(expected.get_char(2 * i));
        let e_lo = fold_hex(expected.get_char(2 * i + 1));
        if e_hi != hi {
            assert(folded[2 * i] != spec_hex(sha1_of(archive@))[2 * i]);
            return false;
        }
        if e_lo != lo {
            assert(folded[2 * i + 1] != spec_hex(sha1_of(archive@))[2 * i + 1]);
            return false;
        }
        assert(folded[2 * i] == spec_hex(sha1_of(archive@))[2 * i]);
        assert(folded[2 * i + 1] == spec_hex(sha1_of(archive@))[2 * i + 1]);
        i = i + 1;
    }
    assert(folded =~= spec_hex(sha1_of(archive@)));
    true
}

} // verus!
